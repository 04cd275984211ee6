use radroots_cli::hyf::{
    HyfBuildIdentity, HyfClient, HyfClientError, HyfExecutionModes, HyfQueryRewriteRequest,
    HyfRequestContext, HyfStatusOutput, HyfSuccess, HyfWireError, HyfWireResponse,
    format_nonzero_exit, resolve_status, resolve_status_for_client, response_outcome,
};
use radroots_cli::runtime_config::HyfConfig;

fn status_reply(version: u64, request_id: &str, protocol: u64, deterministic: bool) -> HyfSuccess<HyfStatusOutput> {
    HyfSuccess {
        version,
        request_id: request_id.to_owned(),
        trace_id: Some(request_id.to_owned()),
        output: HyfStatusOutput {
            build_identity: HyfBuildIdentity { protocol_version: protocol },
            enabled_execution_modes: HyfExecutionModes { deterministic, assisted: None },
        },
        meta: None,
    }
}

#[test]
fn disabled_hyf_reports_disabled_state_without_spawning() {
    let view = resolve_status(
        &HyfConfig { enabled: false, executable: "hyfd".into() },
        |_client: &HyfClient| -> Result<HyfSuccess<HyfStatusOutput>, HyfClientError> {
            panic!("a disabled hyf must not be started")
        },
    );
    assert_eq!(view.state, "disabled");
    assert_eq!(view.reason.as_deref(), Some("disabled by config"));
}

#[test]
fn healthy_hyf_status_reports_ready() {
    let view = resolve_status(
        &HyfConfig { enabled: true, executable: "/tmp/fake-hyfd".into() },
        |_client: &HyfClient| Ok(status_reply(1, "cli-doctor-hyf-status", 1, true)),
    );
    assert_eq!(view.state, "ready", "reason: {:?}", view.reason);
    assert_eq!(view.protocol_version, Some(1));
    assert_eq!(view.deterministic_available, Some(true));
}

#[test]
fn incompatible_hyf_status_reports_unavailable() {
    let view = resolve_status(
        &HyfConfig { enabled: true, executable: "/tmp/fake-hyfd".into() },
        |_client: &HyfClient| Ok(status_reply(1, "cli-doctor-hyf-status", 2, true)),
    );
    assert_eq!(view.state, "unavailable", "reason: {:?}", view.reason);
    assert!(view.reason.as_deref().is_some_and(|reason| reason.contains("incompatible")));
    assert_eq!(
        view.reason.as_deref(),
        Some("hyf protocol version Some(2) is incompatible with cli expected 1")
    );
}

#[test]
fn empty_hyf_executable_is_unavailable() {
    let view = resolve_status(
        &HyfConfig { enabled: true, executable: String::new() },
        |_client: &HyfClient| -> Result<HyfSuccess<HyfStatusOutput>, HyfClientError> {
            panic!("no executable to start")
        },
    );
    assert_eq!(view.state, "unavailable");
    assert_eq!(view.reason.as_deref(), Some("hyf executable path is not configured"));
}

#[test]
fn status_failures_are_described() {
    let client = HyfClient::new("bin/hyfd".to_owned());
    let not_found = resolve_status_for_client(&client, Err(HyfClientError::NotFound));
    assert_eq!(not_found.reason.as_deref(), Some("hyf executable was not found at bin/hyfd"));
    let timeout = resolve_status_for_client(&client, Err(HyfClientError::Timeout(1000)));
    assert_eq!(
        timeout.reason.as_deref(),
        Some("hyf status control request timed out after 1000ms")
    );
    let exit = resolve_status_for_client(
        &client,
        Err(HyfClientError::NonZeroExit { status: Some(-3), stderr: "boom".to_owned() }),
    );
    assert_eq!(
        exit.reason.as_deref(),
        Some("hyf status control request exited with status code -3: boom")
    );
    let remote = resolve_status_for_client(
        &client,
        Err(HyfClientError::RemoteError { code: None, message: Some("x".to_owned()) }),
    );
    assert_eq!(
        remote.reason.as_deref(),
        Some("hyf status control request returned an invalid error response")
    );
    let wrong_id = resolve_status_for_client(&client, Ok(status_reply(1, "other", 1, true)));
    assert_eq!(
        wrong_id.reason.as_deref(),
        Some("hyf status response did not preserve the control request id")
    );
    let old = resolve_status_for_client(&client, Ok(status_reply(3, "cli-doctor-hyf-status", 1, true)));
    assert_eq!(
        old.reason.as_deref(),
        Some("hyf status response version Some(3) is incompatible with cli expected 1")
    );
    assert_eq!(old.protocol_version, Some(1));
    let no_det = resolve_status_for_client(&client, Ok(status_reply(1, "cli-doctor-hyf-status", 1, false)));
    assert_eq!(no_det.reason.as_deref(), Some("hyf deterministic execution is unavailable"));
    assert_eq!(no_det.executable, "bin/hyfd");
}

#[test]
fn nonzero_exit_text_covers_signals() {
    assert_eq!(format_nonzero_exit("req", None, ""), "req terminated by signal");
    assert_eq!(format_nonzero_exit("req", None, "err"), "req terminated by signal: err");
    assert_eq!(format_nonzero_exit("req", Some(2), ""), "req exited with status code 2");
}

#[test]
fn request_context_builders_set_fields() {
    let context = HyfRequestContext::deterministic_cli().with_return_provenance(true);
    assert_eq!(context.consumer.as_deref(), Some("radroots-cli"));
    assert_eq!(context.execution_mode_preference.as_deref(), Some("deterministic"));
    assert_eq!(context.return_provenance, Some(true));
    let scoped = HyfRequestContext::deterministic_cli().with_listing_scope(vec!["listing_local_1".to_owned()]);
    assert_eq!(scoped.scope.expect("scope").listing_ids, vec!["listing_local_1".to_owned()]);
    let cleared = HyfRequestContext::deterministic_cli().with_listing_scope(Vec::new());
    assert!(cleared.scope.is_none());
    assert_eq!(HyfQueryRewriteRequest::new("apples".to_owned()).query, "apples");
}

#[test]
fn wire_responses_map_to_outcomes() {
    let failed: HyfWireResponse<u8> = HyfWireResponse {
        version: 1,
        request_id: "r".to_owned(),
        trace_id: None,
        ok: false,
        output: None,
        meta: None,
        error: Some(HyfWireError { code: Some("bad".to_owned()), message: None }),
    };
    assert_eq!(
        response_outcome(failed),
        Err(HyfClientError::RemoteError { code: Some("bad".to_owned()), message: None })
    );
    let empty: HyfWireResponse<u8> = HyfWireResponse {
        version: 1,
        request_id: "r".to_owned(),
        trace_id: None,
        ok: true,
        output: None,
        meta: None,
        error: None,
    };
    assert_eq!(
        response_outcome(empty),
        Err(HyfClientError::InvalidResponse("hyf response omitted output for a successful request".to_owned()))
    );
    let fine: HyfWireResponse<u8> = HyfWireResponse {
        version: 1,
        request_id: "r".to_owned(),
        trace_id: Some("t".to_owned()),
        ok: true,
        output: Some(7),
        meta: None,
        error: None,
    };
    assert_eq!(response_outcome(fine).expect("success").output, 7);
    assert_eq!(HyfClientError::Timeout(5).message(), "hyf request timed out after 5ms");
}
