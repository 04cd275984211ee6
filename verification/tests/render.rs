use radroots_cli::accounts::{AccountResolutionView, AccountSummaryView};
use radroots_cli::config::{OutputConfig, OutputFormat, Verbosity};
use radroots_cli::config_show::{
    CapabilityBindingRuntimeView, ConfigAccountView, ConfigFilesView, ConfigHyfProviderView,
    ConfigInteractionView, ConfigLoggingView, ConfigOutputView, ConfigPathsView, ConfigSecretBackendView,
    ConfigShowView, ConfigWorkflowView, ConfigWritePlaneView, ResolvedProviderView,
    format_capability_binding_target,
};
use radroots_cli::human::{
    RenderPlan, collapse_blank_lines, finalize_human_output, render_human_with_config,
    render_output,
};
use radroots_cli::output::{CommandOutput, CommandView};
use radroots_cli::render::{Table, render_field_rows_string, render_table};
use radroots_cli::views::{
    AccountListView, DoctorCheckView, DoctorView, MycStatusView, RelayEntryView, RelayListView,
};

fn render_normal(output: &CommandOutput) -> String {
    render_human_with_config(output, Verbosity::Normal, "")
}

fn doctor_resolution(source: &str) -> AccountResolutionView {
    AccountResolutionView {
        source: source.to_owned(),
        resolved_account: None,
        default_account: None,
    }
}

#[test]
fn human_render_omits_placeholder_tokens() {
    let output = CommandOutput::success(CommandView::MycStatus(MycStatusView {
        executable: "myc".to_owned(),
        state: "unavailable".to_owned(),
        source: "myc status command · local first".to_owned(),
        service_status: None,
        ready: false,
        reason: None,
        reasons: Vec::new(),
        remote_session_count: 0,
        local_signer: None,
        remote_sessions: Vec::new(),
        custody: None,
    }));
    let rendered = render_normal(&output);
    assert!(!rendered.contains("<none>"));
    assert!(!rendered.contains("<unknown>"));
    assert!(!rendered.contains("<disabled>"));
}

#[test]
fn human_render_doctor_uses_readiness_sections() {
    let output = CommandOutput::unconfigured(CommandView::Doctor(DoctorView {
        ok: false,
        state: "warn".to_owned(),
        account_resolution: doctor_resolution("none"),
        checks: vec![
            DoctorCheckView {
                name: "config".to_owned(),
                status: "ok".to_owned(),
                detail: "defaults active".to_owned(),
            },
            DoctorCheckView {
                name: "account".to_owned(),
                status: "warn".to_owned(),
                detail: "no local account in store".to_owned(),
            },
        ],
        source: "local diagnostics".to_owned(),
        actions: vec!["radroots account new".to_owned()],
    }));
    let rendered = render_normal(&output);
    assert!(rendered.contains("Readiness check"));
    assert!(rendered.contains("Ready"));
    assert!(rendered.contains("Config: defaults active"));
    assert!(rendered.contains("Needs attention"));
    assert!(rendered.contains("Account: no local account in store"));
    assert!(rendered.contains("Next"));
    assert!(rendered.contains("radroots account new"));
    assert!(!rendered.contains("source: local diagnostics"));
}

fn doctor_trace_json() -> String {
    let mut resolution = serde_json::Map::new();
    resolution.insert("source".to_owned(), serde_json::Value::String("default_account".to_owned()));
    resolution.insert("resolved_account".to_owned(), serde_json::Value::Null);
    resolution.insert("default_account".to_owned(), serde_json::Value::Null);
    let mut check = serde_json::Map::new();
    check.insert("name".to_owned(), serde_json::Value::String("config".to_owned()));
    check.insert("status".to_owned(), serde_json::Value::String("ok".to_owned()));
    check.insert("detail".to_owned(), serde_json::Value::String("defaults active".to_owned()));
    let mut view = serde_json::Map::new();
    view.insert("ok".to_owned(), serde_json::Value::Bool(true));
    view.insert("state".to_owned(), serde_json::Value::String("ok".to_owned()));
    view.insert("account_resolution".to_owned(), serde_json::Value::Object(resolution));
    view.insert("checks".to_owned(), serde_json::Value::Array(vec![serde_json::Value::Object(check)]));
    view.insert("source".to_owned(), serde_json::Value::String("local diagnostics".to_owned()));
    view.insert("actions".to_owned(), serde_json::Value::Array(Vec::new()));
    let mut text = serde_json::to_string_pretty(&serde_json::Value::Object(view)).expect("json");
    text.push('\n');
    text
}

#[test]
fn human_render_verbose_and_trace_append_diagnostics() {
    let output = CommandOutput::success(CommandView::Doctor(DoctorView {
        ok: true,
        state: "ok".to_owned(),
        account_resolution: doctor_resolution("default_account"),
        checks: vec![DoctorCheckView {
            name: "config".to_owned(),
            status: "ok".to_owned(),
            detail: "defaults active".to_owned(),
        }],
        source: "local diagnostics".to_owned(),
        actions: Vec::new(),
    }));
    let trace_json = doctor_trace_json();

    let verbose_rendered = render_human_with_config(&output, Verbosity::Verbose, trace_json.as_str());
    assert!(verbose_rendered.contains("Details"));
    assert!(verbose_rendered.contains("Source"));
    assert!(!verbose_rendered.contains("Trace"));

    let trace_rendered = render_human_with_config(&output, Verbosity::Trace, trace_json.as_str());
    assert!(trace_rendered.contains("Details"));
    assert!(trace_rendered.contains("Trace"));
    assert!(trace_rendered.contains("\"source\": \"local diagnostics\""));
}

#[test]
fn table_renderer_aligns_columns() {
    let table = Table {
        headers: &["item", "status"],
        rows: vec![
            vec!["alpha".to_owned(), "ready".to_owned()],
            vec!["beta-long".to_owned(), "pending".to_owned()],
        ],
    };
    let mut rendered = String::new();
    render_table(&mut rendered, &table);
    assert!(rendered.contains("item       status"));
    assert!(rendered.contains("alpha      ready"));
    assert!(rendered.contains("beta-long  pending"));
}

#[test]
fn doctor_render_is_exact() {
    let output = CommandOutput::unconfigured(CommandView::Doctor(DoctorView {
        ok: false,
        state: "warn".to_owned(),
        account_resolution: doctor_resolution("none"),
        checks: vec![
            DoctorCheckView {
                name: "config".to_owned(),
                status: "ok".to_owned(),
                detail: "defaults active".to_owned(),
            },
            DoctorCheckView {
                name: "account_store".to_owned(),
                status: "warn".to_owned(),
                detail: "  ".to_owned(),
            },
        ],
        source: "local diagnostics".to_owned(),
        actions: vec!["radroots account new".to_owned()],
    }));
    let rendered = render_normal(&output);
    assert_eq!(
        rendered,
        "Readiness check\n\nReady\n  Config: defaults active\n\nNeeds attention\n  Account Store\n\nNext\n  radroots account new\n\nAccount resolution\n  Source  None\n"
    );
}

#[test]
fn relay_list_render_lists_each_relay() {
    let output = CommandOutput::success(CommandView::RelayList(RelayListView {
        state: "configured".to_owned(),
        source: "workspace config · local first".to_owned(),
        publish_policy: "any".to_owned(),
        count: 2,
        reason: None,
        relays: vec![
            RelayEntryView { url: "wss://relay.one".to_owned(), read: true, write: true },
            RelayEntryView { url: "wss://relay.two".to_owned(), read: true, write: false },
        ],
        actions: Vec::new(),
    }));
    let rendered = render_normal(&output);
    assert_eq!(
        rendered,
        "2 relays\n\nwss://relay.one\n  Read   Yes\n  Write  Yes\n\nwss://relay.two\n  Read   Yes\n  Write  No\n"
    );
    let verbose = render_human_with_config(&output, Verbosity::Verbose, "");
    assert!(verbose.contains("Details\n  Source          workspace config · local first\n  Relay count     2\n  Publish policy  any\n"));
}

#[test]
fn empty_relay_list_names_missing_configuration() {
    let output = CommandOutput::unconfigured(CommandView::RelayList(RelayListView {
        state: "unconfigured".to_owned(),
        source: "defaults".to_owned(),
        publish_policy: "any".to_owned(),
        count: 0,
        reason: Some("no relays are configured".to_owned()),
        relays: Vec::new(),
        actions: vec!["radroots relay add wss://relay.example".to_owned()],
    }));
    let rendered = render_normal(&output);
    assert_eq!(
        rendered,
        "Not ready yet\n\nno relays are configured\n\nMissing\n  Relay configuration\n\nNext\n  radroots relay add wss://relay.example\n"
    );
}

#[test]
fn account_list_render_uses_display_names() {
    let output = CommandOutput::success(CommandView::AccountList(AccountListView {
        source: "shared account store · local first".to_owned(),
        count: 2,
        accounts: vec![
            AccountSummaryView {
                id: "acct_a".to_owned(),
                display_name: Some("Alpha".to_owned()),
                signer: "local".to_owned(),
                is_default: true,
            },
            AccountSummaryView {
                id: "acct_b".to_owned(),
                display_name: Some("   ".to_owned()),
                signer: "watch_only".to_owned(),
                is_default: false,
            },
        ],
        actions: Vec::new(),
    }));
    let rendered = render_normal(&output);
    assert_eq!(
        rendered,
        "2 accounts\n\nAlpha\n  Account  acct_a\n  Signer   Local\n  Default  Yes\n\nacct_b\n  Account  acct_b\n  Signer   Watch Only\n  Default  No\n"
    );
}

#[test]
fn finalize_moves_source_lines_into_details() {
    let output = CommandOutput::success(CommandView::AccountList(AccountListView {
        source: "store".to_owned(),
        count: 0,
        accounts: Vec::new(),
        actions: Vec::new(),
    }));
    let rendered = "\n\nheading   \nreason: it broke\nsource: somewhere\nprovenance: upstream\n\n\nactions\n  do it\n\n";
    let normal = finalize_human_output(&output, rendered, Verbosity::Normal, "");
    assert_eq!(normal, "heading\nit broke\n\nNext\n  do it\n");
    let verbose = finalize_human_output(&output, rendered, Verbosity::Verbose, "");
    assert_eq!(
        verbose,
        "heading\nit broke\n\nNext\n  do it\n\nDetails\n  Source      store\n  Provenance  upstream\n"
    );
}

#[test]
fn collapse_blank_lines_keeps_single_separators() {
    let lines = vec![
        "".to_owned(),
        "a".to_owned(),
        " ".to_owned(),
        "".to_owned(),
        "b".to_owned(),
        "".to_owned(),
    ];
    assert_eq!(collapse_blank_lines(lines), vec!["a".to_owned(), "".to_owned(), "b".to_owned()]);
}

#[test]
fn field_rows_align_labels() {
    let rows = vec![
        ("id".to_owned(), "1".to_owned()),
        ("name".to_owned(), "alpha".to_owned()),
    ];
    assert_eq!(render_field_rows_string(&rows), "  id    1\n  name  alpha\n");
}

#[test]
fn ndjson_is_refused_for_single_views() {
    let output = CommandOutput::success(CommandView::Doctor(DoctorView {
        ok: true,
        state: "ok".to_owned(),
        account_resolution: doctor_resolution("none"),
        checks: Vec::new(),
        source: "local diagnostics".to_owned(),
        actions: Vec::new(),
    }));
    let config = OutputConfig {
        format: OutputFormat::Ndjson,
        verbosity: Verbosity::Normal,
        color: false,
        dry_run: false,
    };
    let error = render_output(&output, &config, "").expect_err("doctor is not a list");
    assert_eq!(error.message(), "`doctor` does not support --ndjson");
    let json = OutputConfig { format: OutputFormat::Json, ..config.clone() };
    assert_eq!(render_output(&output, &json, "").expect("json"), RenderPlan::Json);
}

fn sample_config_show() -> ConfigShowView {
    ConfigShowView {
        output: ConfigOutputView {
            format: "ndjson".to_owned(),
            verbosity: "trace".to_owned(),
            color: false,
            dry_run: true,
        },
        interaction: ConfigInteractionView {
            input_enabled: true,
            assume_yes: false,
            stdin_tty: true,
            stdout_tty: true,
            prompts_allowed: true,
            confirmations_allowed: true,
        },
        config_files: ConfigFilesView { user_present: true, workspace_present: false },
        paths: ConfigPathsView {
            profile: "interactive_user".to_owned(),
            allowed_profiles: vec!["interactive_user".to_owned(), "repo_local".to_owned()],
            app_namespace: "apps/cli".to_owned(),
            shared_accounts_namespace: "shared/accounts".to_owned(),
            shared_identities_namespace: "shared/identities".to_owned(),
            app_config_path: "/home/tester/.radroots/config/apps/cli/config.toml".to_owned(),
            workspace_config_path: "/workspace/infra/local/runtime/radroots/config.toml".to_owned(),
            app_data_root: "/home/tester/.radroots/data/apps/cli".to_owned(),
            app_logs_root: "/home/tester/.radroots/logs/apps/cli".to_owned(),
            shared_accounts_data_root: "/home/tester/.radroots/data/shared/accounts".to_owned(),
            shared_accounts_secrets_root: "/home/tester/.radroots/secrets/shared/accounts".to_owned(),
            default_identity_path: "/home/tester/.radroots/secrets/shared/identities/default.json".to_owned(),
        },
        logging: ConfigLoggingView {
            filter: "info".to_owned(),
            stdout: false,
            directory: None,
            current_file: None,
        },
        account: ConfigAccountView {
            selector: Some("acct_demo".to_owned()),
            store_path: "/home/tester/.radroots/data/shared/accounts/store.json".to_owned(),
            secrets_dir: "/home/tester/.radroots/secrets/shared/accounts".to_owned(),
            identity_path: "/home/tester/.radroots/secrets/shared/identities/default.json".to_owned(),
            secret_backend: ConfigSecretBackendView {
                contract_default_backend: "host_vault".to_owned(),
                contract_default_fallback: Some("encrypted_file".to_owned()),
                configured_primary: "encrypted_file".to_owned(),
                configured_fallback: None,
                allowed_backends: vec!["host_vault".to_owned(), "encrypted_file".to_owned()],
                host_vault_policy: Some("desktop".to_owned()),
                uses_protected_store: true,
                state: "ready".to_owned(),
                active_backend: Some("encrypted_file".to_owned()),
                used_fallback: false,
                reason: None,
            },
        },
        signer_mode: "local".to_owned(),
        relay_count: 2,
        relay_publish_policy: "any".to_owned(),
        relay_source: "workspace_config".to_owned(),
        local_root: "/home/tester/.radroots/data/apps/cli/replica".to_owned(),
        local_replica_db_path: "/home/tester/.radroots/data/apps/cli/replica/replica.sqlite".to_owned(),
        local_backups_dir: "/home/tester/.radroots/data/apps/cli/replica/backups".to_owned(),
        local_exports_dir: "/home/tester/.radroots/data/apps/cli/replica/exports".to_owned(),
        myc_executable: "myc".to_owned(),
        write_plane: ConfigWritePlaneView {
            provider_runtime_id: "radrootsd".to_owned(),
            binding_model: "daemon_backed_jsonrpc".to_owned(),
            state: "configured".to_owned(),
            provenance: "default".to_owned(),
            source: "runtime_config".to_owned(),
            target_kind: Some("url".to_owned()),
            target: Some("http://127.0.0.1:7070".to_owned()),
            detail: "bridge ingress".to_owned(),
            bridge_auth_configured: false,
        },
        workflow: ConfigWorkflowView {
            provider_runtime_id: "rhi".to_owned(),
            binding_model: "out_of_process_worker".to_owned(),
            state: "unbound".to_owned(),
            provenance: "none".to_owned(),
            source: "none".to_owned(),
            target_kind: None,
            target: None,
            hyf_helper_state: "disabled".to_owned(),
            hyf_helper_detail: "hyf is disabled".to_owned(),
        },
        hyf_enabled: false,
        hyf_executable: "hyfd".to_owned(),
        hyf_provider: ConfigHyfProviderView {
            provider_runtime_id: "hyf".to_owned(),
            binding_model: "stdio_service".to_owned(),
            state: "disabled".to_owned(),
            provenance: "default".to_owned(),
            source: "runtime_config".to_owned(),
            target_kind: None,
            target: Some("hyfd".to_owned()),
            executable: "hyfd".to_owned(),
            reason: Some("hyf is disabled".to_owned()),
        },
        rpc_url: "http://127.0.0.1:7070".to_owned(),
        rpc_bridge_auth_configured: false,
        capability_bindings: vec![CapabilityBindingRuntimeView {
            capability_id: "signer.remote_nip46".to_owned(),
            provider_runtime_id: "myc".to_owned(),
            state: "configured".to_owned(),
            target_kind: Some("managed_instance".to_owned()),
            target: Some("default".to_owned()),
            managed_account_ref: Some("acct_demo".to_owned()),
            signer_session_ref: None,
        }],
        resolved_providers: vec![ResolvedProviderView {
            capability_id: "inference.hyf_stdio".to_owned(),
            provider_runtime_id: "hyf".to_owned(),
            state: "disabled".to_owned(),
            provenance: "default".to_owned(),
            target_kind: None,
            target: None,
        }],
        source: "runtime config · local first".to_owned(),
    }
}

#[test]
fn ndjson_rejects_singular_views() {
    let output = CommandOutput::success(CommandView::ConfigShow(sample_config_show()));
    let config = OutputConfig {
        format: OutputFormat::Ndjson,
        verbosity: Verbosity::Trace,
        color: false,
        dry_run: true,
    };
    let error = render_output(&output, &config, "").expect_err("unsupported ndjson");
    assert!(error.message().contains("`config show` does not support --ndjson"));
}

#[test]
fn config_show_render_lists_sections_and_tables() {
    let output = CommandOutput::success(CommandView::ConfigShow(sample_config_show()));
    let rendered = render_normal(&output);
    assert!(rendered.starts_with("config · effective\n\noutput\n  format     ndjson\n  verbosity  trace\n"));
    assert!(rendered.contains("  allowed profiles             interactive_user, repo_local\n"));
    assert!(rendered.contains("  app config                   present · /home/tester/.radroots/config/apps/cli/config.toml\n"));
    assert!(rendered.contains("  workspace config             absent · /workspace/infra/local/runtime/radroots/config.toml\n"));
    assert!(rendered.contains("account\n  selector  "));
    assert!(rendered.contains("relay\n  count           2\n  publish policy  any\n  source          workspace_config\n"));
    assert!(rendered.contains("  target                  url http://127.0.0.1:7070\n"));
    assert!(rendered.contains("capability bindings\ncapability           provider  state       target\n"));
    assert!(rendered.contains("signer.remote_nip46  myc       configured  managed_instance default · account acct_demo\n"));
    assert!(rendered.contains("resolved providers\ncapability           provider  state     provenance  target\n"));
    assert!(!rendered.contains("source: runtime config"));
}

#[test]
fn binding_targets_name_account_and_session() {
    let mut binding = sample_config_show().capability_bindings[0].clone();
    assert_eq!(format_capability_binding_target(&binding), "managed_instance default · account acct_demo");
    binding.signer_session_ref = Some("sess_1".to_owned());
    binding.target_kind = None;
    assert_eq!(format_capability_binding_target(&binding), "default · account acct_demo · session sess_1");
    binding.target = None;
    assert_eq!(format_capability_binding_target(&binding), "");
}

#[test]
fn ndjson_is_accepted_for_rpc_sessions() {
    let output = CommandOutput::success(CommandView::RpcSessions(radroots_cli::daemon::RpcSessionsView {
        state: "empty".to_owned(),
        source: "daemon rpc · durable write plane".to_owned(),
        url: "http://127.0.0.1:7070".to_owned(),
        count: 0,
        reason: None,
        sessions: Vec::new(),
        actions: Vec::new(),
    }));
    let config = OutputConfig {
        format: OutputFormat::Ndjson,
        verbosity: Verbosity::Normal,
        color: false,
        dry_run: false,
    };
    assert_eq!(render_output(&output, &config, "").expect("sessions are a list"), RenderPlan::Ndjson);
}
