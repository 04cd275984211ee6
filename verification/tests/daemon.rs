use radroots_cli::daemon::{
    ActorWriteSignerAuthority, BridgeJobRemote, DaemonRpcError, JsonRpcResponse, JsonRpcResponseError,
    Nip46SessionRemote, RpcAuthMode, bridge_job_list, map_job_command, map_rpc_error, resolve_signer_session_id,
    rpc_bearer_token, rpc_reply_outcome, sessions, sign_event_allowed, status,
};
use radroots_cli::output::{CommandView, OutputDisposition};

const SELLER: &str = "aa11bb22cc33dd44ee55ff6600112233445566778899aabbccddeeff00112233";

fn session(id: &str, signer: &str, permissions: &[&str], authorized: bool) -> Nip46SessionRemote {
    Nip46SessionRemote {
        session_id: id.to_owned(),
        role: "remote_signer".to_owned(),
        client_pubkey: "client".to_owned(),
        signer_pubkey: signer.to_owned(),
        user_pubkey: None,
        relays: vec!["wss://relay.one".to_owned()],
        permissions: permissions.iter().map(|p| (*p).to_owned()).collect(),
        auth_required: false,
        authorized,
        expires_in_secs: None,
        signer_authority: None,
    }
}

fn unconfigured_reason(result: Result<String, DaemonRpcError>) -> String {
    match result {
        Err(DaemonRpcError::Unconfigured(reason)) => reason,
        other => panic!("expected an unconfigured error, got {other:?}"),
    }
}

#[test]
fn sign_event_permission_accepts_bare_and_scoped_grants() {
    assert!(sign_event_allowed(&vec!["sign_event".to_owned()], 30402));
    assert!(sign_event_allowed(&vec!["nip44_encrypt".to_owned(), "sign_event:30402".to_owned()], 30402));
    assert!(!sign_event_allowed(&vec!["sign_event:1".to_owned()], 30402));
    assert!(!sign_event_allowed(&Vec::new(), 1));
}

#[test]
fn single_matching_session_is_selected_without_request() {
    let listed = vec![
        session("s1", "ffff", &["sign_event"], true),
        session("s2", &SELLER.to_uppercase(), &["sign_event:30402"], true),
        session("s3", SELLER, &["sign_event:30402"], false),
    ];
    let chosen = resolve_signer_session_id(Ok(listed), "seller", SELLER, 30402, None, None).expect("one session");
    assert_eq!(chosen, "s2");
}

#[test]
fn no_or_several_matching_sessions_are_refused() {
    let none = resolve_signer_session_id(Ok(Vec::new()), "seller", SELLER, 30402, None, None);
    assert_eq!(
        unconfigured_reason(none),
        format!(
            "no authorized signer session matched seller pubkey `{SELLER}` for sign_event:30402; connect a signer session or pass --signer-session-id"
        )
    );
    let listed = vec![session("a", SELLER, &["sign_event"], true), session("b", SELLER, &["sign_event"], true)];
    let several = resolve_signer_session_id(Ok(listed), "seller", SELLER, 30402, None, None);
    assert_eq!(
        unconfigured_reason(several),
        format!("multiple authorized signer sessions matched seller pubkey `{SELLER}` for sign_event:30402; pass --signer-session-id")
    );
}

#[test]
fn requested_session_is_checked() {
    let listed = vec![session("a", SELLER, &["sign_event:1"], true), session("b", SELLER, &["sign_event"], false)];
    assert_eq!(
        unconfigured_reason(resolve_signer_session_id(Ok(listed.clone()), "seller", SELLER, 30402, Some("zz"), None)),
        "requested signer session `zz` was not found"
    );
    assert_eq!(
        unconfigured_reason(resolve_signer_session_id(Ok(listed.clone()), "seller", SELLER, 30402, Some("b"), None)),
        "requested signer session `b` is not authorized"
    );
    assert_eq!(
        unconfigured_reason(resolve_signer_session_id(Ok(listed), "seller", SELLER, 30402, Some("a"), None)),
        "requested signer session `a` is not approved for sign_event:30402"
    );
    let wrong_signer = vec![session("c", "beef", &["sign_event"], true)];
    assert_eq!(
        unconfigured_reason(resolve_signer_session_id(Ok(wrong_signer), "buyer", SELLER, 7, Some("c"), None)),
        format!("requested signer session `c` signer pubkey `beef` does not match buyer pubkey `{SELLER}`")
    );
}

#[test]
fn signer_authority_must_match_requested_session() {
    let mut with_authority = session("a", SELLER, &["sign_event"], true);
    with_authority.signer_authority = Some(ActorWriteSignerAuthority {
        provider_runtime_id: "myc".to_owned(),
        account_identity_id: "acct_1".to_owned(),
        provider_signer_session_id: None,
    });
    let expected = ActorWriteSignerAuthority {
        provider_runtime_id: "myc".to_owned(),
        account_identity_id: "acct_2".to_owned(),
        provider_signer_session_id: None,
    };
    assert_eq!(
        unconfigured_reason(resolve_signer_session_id(
            Ok(vec![with_authority.clone()]),
            "seller",
            SELLER,
            30402,
            Some("a"),
            Some(&expected),
        )),
        "requested signer session `a` account identity `acct_1` does not match required account `acct_2`"
    );
    let bare = session("b", SELLER, &["sign_event"], true);
    assert_eq!(
        unconfigured_reason(resolve_signer_session_id(Ok(vec![bare]), "seller", SELLER, 30402, Some("b"), Some(&expected))),
        "requested signer session `b` is missing signer authority continuity metadata"
    );
}

#[test]
fn listing_failure_passes_through() {
    let err = resolve_signer_session_id(
        Err(DaemonRpcError::External("down".to_owned())),
        "seller",
        SELLER,
        1,
        None,
        None,
    );
    assert_eq!(err, Err(DaemonRpcError::External("down".to_owned())));
}

#[test]
fn rpc_error_codes_map_to_daemon_errors() {
    let error = |code: i64, message: &str| JsonRpcResponseError { code, message: message.to_owned() };
    assert_eq!(map_rpc_error("x", error(-32601, "nope")), DaemonRpcError::MethodUnavailable("nope".to_owned()));
    assert_eq!(map_rpc_error("x", error(-32001, "auth")), DaemonRpcError::Unauthorized("auth".to_owned()));
    assert_eq!(
        map_rpc_error("bridge.job.status", error(-32000, "unknown bridge job: j1")),
        DaemonRpcError::UnknownJob("unknown bridge job: j1".to_owned())
    );
    assert_eq!(
        map_rpc_error("bridge.status", error(-32000, "unknown bridge job: j1")),
        DaemonRpcError::Remote("unknown bridge job: j1".to_owned())
    );
    assert_eq!(
        map_rpc_error("x", error(-5, "odd")),
        DaemonRpcError::InvalidResponse("daemon rpc returned unexpected error -5: odd".to_owned())
    );
}

#[test]
fn rpc_replies_are_checked_in_order() {
    let ok: Result<JsonRpcResponse<u32>, String> = Ok(JsonRpcResponse { result: Some(7), error: None });
    assert_eq!(rpc_reply_outcome("m", 200, ok.clone()), Ok(7));
    assert_eq!(
        rpc_reply_outcome("m", 503, ok),
        Err(DaemonRpcError::External("daemon rpc returned http 503".to_owned()))
    );
    assert_eq!(
        rpc_reply_outcome::<u32>("m", 200, Err("eof".to_owned())),
        Err(DaemonRpcError::InvalidResponse("parse daemon rpc response: eof".to_owned()))
    );
    assert_eq!(
        rpc_reply_outcome::<u32>("m", 204, Ok(JsonRpcResponse { result: None, error: None })),
        Err(DaemonRpcError::InvalidResponse("daemon rpc response did not include a result".to_owned()))
    );
    let failed = JsonRpcResponse::<u32> {
        result: None,
        error: Some(JsonRpcResponseError { code: -32001, message: "token".to_owned() }),
    };
    assert_eq!(rpc_reply_outcome("m", 200, Ok(failed)), Err(DaemonRpcError::Unauthorized("token".to_owned())));
}

#[test]
fn bearer_token_is_required_for_bridge_calls() {
    assert_eq!(rpc_bearer_token(RpcAuthMode::Unauthenticated, &None), Ok(None));
    assert_eq!(rpc_bearer_token(RpcAuthMode::BridgeBearer, &Some("t".to_owned())), Ok(Some("t".to_owned())));
    assert_eq!(
        rpc_bearer_token(RpcAuthMode::BridgeBearer, &None),
        Err(DaemonRpcError::Unconfigured("bridge bearer token is not configured".to_owned()))
    );
}

#[test]
fn job_commands_use_cli_names() {
    assert_eq!(map_job_command("bridge.listing.publish".to_owned()), "listing.publish");
    assert_eq!(map_job_command("bridge.order.request".to_owned()), "order.submit");
    assert_eq!(map_job_command("bridge.other".to_owned()), "bridge.other");
}

#[test]
fn job_list_failure_is_passed_on() {
    let listed: Result<Vec<BridgeJobRemote>, DaemonRpcError> = Err(DaemonRpcError::Remote("boom".to_owned()));
    assert_eq!(bridge_job_list(listed), Err(DaemonRpcError::Remote("boom".to_owned())));
}

#[test]
fn rpc_status_reports_unreachable_daemon() {
    let output = status("http://127.0.0.1:7070", Err(DaemonRpcError::External("connection refused".to_owned())));
    assert_eq!(output.disposition, OutputDisposition::ExternalUnavailable);
    match output.view {
        CommandView::RpcStatus(view) => {
            assert_eq!(view.state, "unavailable");
            assert_eq!(view.url, "http://127.0.0.1:7070");
            assert_eq!(view.reason.as_deref(), Some("connection refused"));
            assert_eq!(view.actions, vec!["start radrootsd and verify the rpc url"]);
        },
        other => panic!("expected an rpc status view, got {other:?}"),
    }
    let output = status("http://x", Err(DaemonRpcError::Unauthorized("bad token".to_owned())));
    assert_eq!(output.disposition, OutputDisposition::Unconfigured);
}

#[test]
fn rpc_sessions_lists_sessions_in_order() {
    let output = sessions("http://x", Ok(vec![session("a", SELLER, &[], true), session("b", SELLER, &[], false)]));
    assert_eq!(output.disposition, OutputDisposition::Success);
    match output.view {
        CommandView::RpcSessions(view) => {
            assert_eq!(view.state, "ready");
            assert_eq!(view.count, 2);
            assert_eq!(view.sessions[0].session_id, "a");
            assert_eq!(view.sessions[1].session_id, "b");
        },
        other => panic!("expected an rpc sessions view, got {other:?}"),
    }
    match sessions("http://x", Ok(Vec::new())).view {
        CommandView::RpcSessions(view) => assert_eq!(view.state, "empty"),
        other => panic!("expected an rpc sessions view, got {other:?}"),
    }
}
