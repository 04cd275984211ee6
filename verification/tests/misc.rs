use radroots_cli::accounts::{
    AccountCustody, ResolvedSecretBackend, SecretBackendResolutionError, account_summary_view,
    empty_account_resolution_view, secret_backend_status, unresolved_account_reason,
};
use radroots_cli::config::LoggingConfig;
use radroots_cli::direct_relay::{
    DirectRelayFailure, DirectRelayPreflightError, connection_outcome, require_relays, summarize_failures,
};
use radroots_cli::error::RuntimeError;
use radroots_cli::find::{join_strings, non_empty, normalize_query_terms};
use radroots_cli::job::{format_clock, format_timestamp, watch_frame_limit};
use radroots_cli::listing::{
    DRAFT_KIND, canonical_hex_pubkey, line_for_field, listing_addr, listing_bound_account_recovery_actions,
};
use radroots_cli::logging::{LogFileLayout, to_radroots_logging_options};
use radroots_cli::relay::{normalize_relay_urls, parse_relay_env_value, validate_relay_url, validate_rpc_url};

fn config_message<T: std::fmt::Debug>(result: Result<T, RuntimeError>) -> String {
    match result {
        Err(RuntimeError::Config(message)) => message,
        other => panic!("expected a config error, got {other:?}"),
    }
}

#[test]
fn logging_options_use_cli_file_name() {
    let options = to_radroots_logging_options(&LoggingConfig {
        filter: "info".to_owned(),
        directory: Some("logs".to_owned()),
        stdout: false,
    });
    assert_eq!(options.file_name, "radroots-cli.log");
    assert_eq!(options.default_level.as_deref(), Some("info"));
    assert_eq!(options.dir.as_deref(), Some("logs"));
    assert!(!options.stdout);
    assert_eq!(options.file_layout, LogFileLayout::PrefixedDate);
}

#[test]
fn fetch_events_requires_relays_before_runtime_work() {
    let err = require_relays(&Vec::new()).expect_err("missing relay error");
    assert!(matches!(err, DirectRelayPreflightError::MissingRelays));
    assert_eq!(err.message(), "direct relay fetch requires at least one configured relay");
    assert!(require_relays(&vec!["wss://relay.one".to_owned()]).is_ok());
}

#[test]
fn relay_failures_are_summarized() {
    assert_eq!(summarize_failures(&Vec::new()), "no relay acknowledged the operation");
    let failed = vec![
        DirectRelayFailure { relay: "wss://a".to_owned(), reason: "timeout".to_owned() },
        DirectRelayFailure { relay: "wss://b".to_owned(), reason: "refused".to_owned() },
    ];
    assert_eq!(summarize_failures(&failed), "wss://a: timeout; wss://b: refused");

    let targets = vec!["wss://a".to_owned(), "wss://b".to_owned()];
    let error = connection_outcome(&targets, 0, failed.clone()).expect_err("nothing connected");
    assert_eq!(error.reason, "wss://a: timeout; wss://b: refused");
    assert_eq!(error.target_relays, targets);
    assert_eq!(error.failed_relays.len(), 2);
    assert_eq!(connection_outcome(&targets, 1, failed.clone()).expect("one connected"), failed);
}

#[test]
fn relay_urls_must_be_websockets() {
    assert_eq!(validate_relay_url("  wss://relay.one  ", "--relay").expect("valid"), "wss://relay.one");
    assert_eq!(
        config_message(validate_relay_url("https://relay.one", "--relay")),
        "--relay must use websocket relay urls, got `https://relay.one`"
    );
    assert_eq!(config_message(validate_relay_url("  ", "--relay")), "--relay contains an empty relay url");
    let message = config_message(validate_relay_url("not-a-relay", "--relay"));
    assert!(message.starts_with("--relay contains invalid relay url `not-a-relay`: "));
    assert!(message.contains("relative URL without a base"));
}

#[test]
fn relay_lists_drop_duplicates_and_keep_order() {
    let urls = normalize_relay_urls(
        vec!["wss://b".to_owned(), " wss://a ".to_owned(), "wss://b".to_owned()],
        "relay config",
    )
    .expect("valid relays");
    assert_eq!(urls, vec!["wss://b".to_owned(), "wss://a".to_owned()]);
    let env = parse_relay_env_value("wss://one, ,wss://two", "RADROOTS_RELAYS").expect("env relays");
    assert_eq!(env, vec!["wss://one".to_owned(), "wss://two".to_owned()]);
}

#[test]
fn rpc_urls_must_be_http() {
    assert_eq!(validate_rpc_url(" http://127.0.0.1:7070 ").expect("valid"), "http://127.0.0.1:7070");
    assert_eq!(
        config_message(validate_rpc_url("ws://127.0.0.1:7070")),
        "rpc url must use http or https, got `ws://127.0.0.1:7070`"
    );
    assert_eq!(config_message(validate_rpc_url("")), "rpc url must not be empty");
}

#[test]
fn timestamps_render_in_utc() {
    assert_eq!(format_timestamp(1_700_000_000), "2023-11-14 22:13:20 UTC");
    assert_eq!(format_clock(1_700_000_000), "22:13:20");
    assert_eq!(format_timestamp(0), "1970-01-01 00:00:00 UTC");
    assert_eq!(format_timestamp(u64::MAX), "1969-12-31 23:59:59 UTC");
    assert_eq!(format_timestamp(i64::MAX as u64), i64::MAX.to_string());
}

#[test]
fn watch_frames_must_be_positive() {
    assert_eq!(
        config_message(watch_frame_limit(Some(0))),
        "--frames must be greater than zero when provided"
    );
    assert_eq!(watch_frame_limit(Some(3)).expect("three"), 3);
    assert_eq!(watch_frame_limit(None).expect("unbounded"), usize::MAX);
}

#[test]
fn query_terms_are_trimmed_lowercased_and_filtered() {
    let terms = vec!["  Eggs ".to_owned(), "".to_owned(), "ÄPFEL".to_owned(), "   ".to_owned()];
    assert_eq!(normalize_query_terms(&terms), vec!["eggs".to_owned(), "äpfel".to_owned()]);
    assert_eq!(join_strings(&vec!["a".to_owned(), "b".to_owned()], ", "), "a, b");
    assert_eq!(non_empty("  x "), Some("x".to_owned()));
    assert_eq!(non_empty(" "), None);
}

#[test]
fn listing_helpers_build_addresses_and_keys() {
    assert_eq!(DRAFT_KIND, "listing_draft_v1");
    assert_eq!(listing_addr("abc", "L1"), "30402:abc:L1");
    let upper = "AB".repeat(32);
    assert_eq!(canonical_hex_pubkey(&format!(" {upper} ")), Some("ab".repeat(32)));
    assert_eq!(canonical_hex_pubkey("xyz"), None);
    assert_eq!(canonical_hex_pubkey(&"g".repeat(64)), None);
    assert_eq!(
        listing_bound_account_recovery_actions("draft.toml"),
        vec!["radroots account import <path>", "radroots listing rebind draft.toml <selector>"]
    );
}

#[test]
fn draft_fields_are_found_by_line() {
    let contents = "version = 1\n[product]\ntitle = \"Eggs\"\n[delivery]\nmethod = \"pickup\"\n";
    assert_eq!(line_for_field(contents, "product.title"), Some(3));
    assert_eq!(line_for_field(contents, "delivery.method"), Some(5));
    assert_eq!(line_for_field(contents, "nowhere"), None);
}

#[test]
fn account_views_and_reasons() {
    let summary = account_summary_view("acct_a", Some("Alpha".to_owned()), AccountCustody::SecretBacked, true);
    assert_eq!(summary.id, "acct_a");
    assert_eq!(summary.display_name.as_deref(), Some("Alpha"));
    assert!(summary.is_default);
    let empty = empty_account_resolution_view();
    assert_eq!(empty.source, "none");
    assert!(empty.resolved_account.is_none());
    assert_eq!(unresolved_account_reason(0, "/s.json"), "no local accounts found in /s.json");
    assert_eq!(
        unresolved_account_reason(2, "/s.json"),
        "accounts exist in /s.json but no default account is configured and no invocation override was provided"
    );
}

#[test]
fn secret_backend_status_reports_each_outcome() {
    let ready = secret_backend_status(Ok(ResolvedSecretBackend { kind: "host_vault".to_owned(), used_fallback: true }));
    assert_eq!(ready.state, "ready");
    assert_eq!(ready.active_backend.as_deref(), Some("host_vault"));
    assert!(ready.used_fallback);
    let unavailable = secret_backend_status(Err(SecretBackendResolutionError::Unavailable("locked".to_owned())));
    assert_eq!(unavailable.state, "unavailable");
    assert_eq!(unavailable.reason.as_deref(), Some("locked"));
    let invalid = secret_backend_status(Err(SecretBackendResolutionError::Invalid("bad".to_owned())));
    assert_eq!(invalid.state, "error");
    assert!(invalid.active_backend.is_none());
}
