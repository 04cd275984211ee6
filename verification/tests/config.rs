use radroots_cli::bindings::{CapabilityBindingConfig, CapabilityBindingFileConfig};
use radroots_cli::config::{
    AccountSecretBackend, CapabilityBindingSource, CapabilityBindingTargetKind, InteractionConfig,
    OutputConfig, OutputFormat, RelayConfigSource, RelayPublishPolicy, SignerBackend, Verbosity,
};
use radroots_cli::envfile::{EnvFileValues, ProcessEnvironment, parse_env_file_values};
use radroots_cli::error::RuntimeError;
use radroots_cli::paths::PathsConfig;
use radroots_cli::runtime_config::{
    CliConfigFile, ConfigArgs, HyfConfig, HyfFileConfig, RelayFileConfig, RuntimeConfig,
};

fn sample_paths() -> PathsConfig {
    PathsConfig {
        profile: "interactive_user".to_owned(),
        profile_source: "default".to_owned(),
        allowed_profiles: vec!["interactive_user".to_owned(), "repo_local".to_owned()],
        root_source: "host_defaults".to_owned(),
        repo_local_root: None,
        repo_local_root_source: None,
        subordinate_path_override_source: "runtime_config".to_owned(),
        app_namespace: "apps/cli".to_owned(),
        shared_accounts_namespace: "shared/accounts".to_owned(),
        shared_identities_namespace: "shared/identities".to_owned(),
        app_config_path: "/home/tester/.radroots/config/apps/cli/config.toml".to_owned(),
        workspace_config_path: "/workspaces/radroots-cli/infra/local/runtime/radroots/config.toml".to_owned(),
        app_data_root: "/home/tester/.radroots/data/apps/cli".to_owned(),
        app_logs_root: "/home/tester/.radroots/logs/apps/cli".to_owned(),
        shared_accounts_data_root: "/home/tester/.radroots/data/shared/accounts".to_owned(),
        shared_accounts_secrets_root: "/home/tester/.radroots/secrets/shared/accounts".to_owned(),
        default_identity_path: "/home/tester/.radroots/secrets/shared/identities/default.json".to_owned(),
    }
}

fn environment(pairs: &[(&str, &str)]) -> ProcessEnvironment {
    ProcessEnvironment {
        vars: pairs.iter().map(|(k, v)| ((*k).to_owned(), (*v).to_owned())).collect(),
        stdin_tty: false,
        stdout_tty: false,
    }
}

fn resolve(args: &ConfigArgs, env: &ProcessEnvironment, file: &EnvFileValues) -> Result<RuntimeConfig, RuntimeError> {
    RuntimeConfig::resolve_with_env_file(args, env, file, &sample_paths(), None, None)
}

fn resolve_with_files(user: Option<&CliConfigFile>, workspace: Option<&CliConfigFile>) -> Result<RuntimeConfig, RuntimeError> {
    RuntimeConfig::resolve_with_env_file(
        &ConfigArgs::default(),
        &environment(&[]),
        &EnvFileValues::empty(),
        &sample_paths(),
        user,
        workspace,
    )
}

#[test]
fn flags_override_environment_values() {
    let args = ConfigArgs {
        output_format: Some(OutputFormat::Human),
        verbose: true,
        dry_run: true,
        no_color: true,
        log_filter: Some("debug".to_owned()),
        log_stdout: true,
        identity_path: Some("custom-identity.json".to_owned()),
        signer: Some("local".to_owned()),
        relay: vec!["wss://relay.one".to_owned(), "wss://relay.two".to_owned()],
        myc_executable: Some("bin/myc-cli".to_owned()),
        hyf_enabled: true,
        hyf_executable: Some("bin/hyfd-cli".to_owned()),
        ..ConfigArgs::default()
    };
    let env = environment(&[
        ("RADROOTS_OUTPUT", "human"),
        ("RADROOTS_LOG_FILTER", "trace"),
        ("RADROOTS_LOG_STDOUT", "false"),
        ("RADROOTS_IDENTITY_PATH", "env-identity.json"),
        ("RADROOTS_SIGNER", "myc"),
        ("RADROOTS_RELAYS", "wss://relay.env"),
        ("RADROOTS_MYC_EXECUTABLE", "env-myc"),
        ("RADROOTS_HYF_ENABLED", "false"),
        ("RADROOTS_HYF_EXECUTABLE", "env-hyfd"),
    ]);
    let resolved = resolve(&args, &env, &EnvFileValues::empty()).expect("resolve runtime config");
    assert_eq!(
        resolved.output,
        OutputConfig { format: OutputFormat::Human, verbosity: Verbosity::Verbose, color: false, dry_run: true }
    );
    assert_eq!(
        resolved.interaction,
        InteractionConfig {
            input_enabled: true,
            assume_yes: false,
            stdin_tty: false,
            stdout_tty: false,
            prompts_allowed: false,
            confirmations_allowed: false,
        }
    );
    assert_eq!(resolved.paths, sample_paths());
    assert_eq!(resolved.logging.filter, "debug");
    assert!(resolved.logging.stdout);
    assert_eq!(resolved.identity.path, "custom-identity.json");
    assert_eq!(resolved.account.selector, None);
    assert_eq!(resolved.account.store_path, "/home/tester/.radroots/data/shared/accounts/store.json");
    assert_eq!(resolved.account.secrets_dir, "/home/tester/.radroots/secrets/shared/accounts");
    assert_eq!(resolved.account.secret_backend, AccountSecretBackend::HostVault);
    assert_eq!(resolved.account.secret_fallback, Some(AccountSecretBackend::EncryptedFile));
    assert_eq!(resolved.account_secret_contract.default_backend, "host_vault");
    assert_eq!(resolved.account_secret_contract.default_fallback.as_deref(), Some("encrypted_file"));
    assert_eq!(
        resolved.account_secret_contract.allowed_backends,
        vec!["host_vault".to_owned(), "encrypted_file".to_owned(), "memory".to_owned()]
    );
    assert_eq!(resolved.account_secret_contract.host_vault_policy.as_deref(), Some("desktop"));
    assert!(resolved.account_secret_contract.uses_protected_store);
    assert_eq!(resolved.signer.backend, SignerBackend::Local);
    assert_eq!(resolved.relay.urls, vec!["wss://relay.one".to_owned(), "wss://relay.two".to_owned()]);
    assert_eq!(resolved.relay.source, RelayConfigSource::Flags);
    assert_eq!(resolved.relay.publish_policy, RelayPublishPolicy::Any);
    assert_eq!(resolved.myc.executable, "bin/myc-cli");
    assert_eq!(resolved.hyf, HyfConfig { enabled: true, executable: "bin/hyfd-cli".to_owned() });
}

#[test]
fn environment_values_fill_missing_flags() {
    let env = environment(&[
        ("RADROOTS_OUTPUT", "json"),
        ("RADROOTS_LOG_FILTER", "debug,cli=trace"),
        ("RADROOTS_LOG_DIR", "logs/runtime"),
        ("RADROOTS_LOG_STDOUT", "false"),
        ("RADROOTS_ACCOUNT", "acct_demo"),
        ("RADROOTS_IDENTITY_PATH", "state/identity.json"),
        ("RADROOTS_SIGNER", "myc"),
        ("RADROOTS_RELAYS", "wss://relay.one,wss://relay.two"),
        ("RADROOTS_MYC_EXECUTABLE", "bin/myc"),
        ("RADROOTS_HYF_ENABLED", "true"),
        ("RADROOTS_HYF_EXECUTABLE", "bin/hyfd"),
    ]);
    let resolved = resolve(&ConfigArgs::default(), &env, &EnvFileValues::empty()).expect("resolve runtime config");
    assert_eq!(
        resolved.output,
        OutputConfig { format: OutputFormat::Json, verbosity: Verbosity::Normal, color: true, dry_run: false }
    );
    assert_eq!(resolved.logging.filter, "debug,cli=trace");
    assert_eq!(resolved.logging.directory.as_deref(), Some("logs/runtime"));
    assert!(!resolved.logging.stdout);
    assert_eq!(resolved.account.selector.as_deref(), Some("acct_demo"));
    assert_eq!(resolved.account.secret_backend, AccountSecretBackend::HostVault);
    assert_eq!(resolved.account.secret_fallback, Some(AccountSecretBackend::EncryptedFile));
    assert_eq!(resolved.identity.path, "state/identity.json");
    assert_eq!(resolved.signer.backend, SignerBackend::Myc);
    assert_eq!(resolved.relay.urls, vec!["wss://relay.one".to_owned(), "wss://relay.two".to_owned()]);
    assert_eq!(resolved.relay.source, RelayConfigSource::Environment);
    assert_eq!(resolved.myc.executable, "bin/myc");
    assert_eq!(resolved.hyf, HyfConfig { enabled: true, executable: "bin/hyfd".to_owned() });
}

#[test]
fn conflicting_boolean_flags_fail() {
    let env = environment(&[]);
    let args = ConfigArgs { log_stdout: true, no_log_stdout: true, ..ConfigArgs::default() };
    let error = resolve(&args, &env, &EnvFileValues::empty()).expect_err("conflicting flags");
    assert!(error.message().contains("cannot be used together"));
    let hyf_args = ConfigArgs { hyf_enabled: true, no_hyf_enabled: true, ..ConfigArgs::default() };
    let error = resolve(&hyf_args, &env, &EnvFileValues::empty()).expect_err("conflicting hyf flags");
    assert!(error.message().contains("--hyf-enabled"));
}

#[test]
fn conflicting_output_and_verbosity_flags_fail() {
    let env = environment(&[]);
    let output = ConfigArgs { json: true, ndjson: true, ..ConfigArgs::default() };
    let error = resolve(&output, &env, &EnvFileValues::empty()).expect_err("conflicting output flags");
    assert!(error.message().contains("--json and --ndjson"));
    let verbosity = ConfigArgs { quiet: true, trace: true, ..ConfigArgs::default() };
    let error = resolve(&verbosity, &env, &EnvFileValues::empty()).expect_err("conflicting verbosity flags");
    assert!(error.message().contains("--quiet, --verbose, and --trace"));
    let aliases = ConfigArgs { output_format: Some(OutputFormat::Json), json: true, ..ConfigArgs::default() };
    let error = resolve(&aliases, &env, &EnvFileValues::empty()).expect_err("conflicting output aliases");
    assert!(error.message().contains("--output, --json, and --ndjson"));
}

#[test]
fn machine_output_rejects_stdout_logging_flags() {
    let env = environment(&[]);
    let json = ConfigArgs { json: true, log_stdout: true, ..ConfigArgs::default() };
    let message = resolve(&json, &env, &EnvFileValues::empty()).expect_err("json stdout logging").message();
    assert!(message.contains("stdout logging"));
    assert!(message.contains("json output"));
    assert!(message.contains("--no-log-stdout"));
    let ndjson = ConfigArgs { ndjson: true, log_stdout: true, ..ConfigArgs::default() };
    let message = resolve(&ndjson, &env, &EnvFileValues::empty()).expect_err("ndjson stdout logging").message();
    assert!(message.contains("stdout logging"));
    assert!(message.contains("ndjson output"));
}

#[test]
fn machine_output_rejects_stdout_logging_environment() {
    let json = ConfigArgs { json: true, ..ConfigArgs::default() };
    let env = environment(&[("RADROOTS_CLI_LOGGING_STDOUT", "true")]);
    let message = resolve(&json, &env, &EnvFileValues::empty()).expect_err("json stdout logging from env").message();
    assert!(message.contains("RADROOTS_CLI_LOGGING_STDOUT"));
    assert!(message.contains("RADROOTS_LOG_STDOUT"));
    let env = environment(&[("RADROOTS_OUTPUT", "ndjson"), ("RADROOTS_LOG_STDOUT", "true")]);
    let message = resolve(&ConfigArgs::default(), &env, &EnvFileValues::empty())
        .expect_err("ndjson stdout logging from env")
        .message();
    assert!(message.contains("ndjson output"));
}

#[test]
fn no_log_stdout_overrides_environment_for_machine_output() {
    let args = ConfigArgs { json: true, no_log_stdout: true, ..ConfigArgs::default() };
    let env = environment(&[("RADROOTS_LOG_STDOUT", "true")]);
    let resolved = resolve(&args, &env, &EnvFileValues::empty()).expect("resolve machine output");
    assert_eq!(resolved.output.format, OutputFormat::Json);
    assert!(!resolved.logging.stdout);
}

#[test]
fn invalid_environment_value_fails() {
    let env = environment(&[("RADROOTS_LOG_STDOUT", "maybe")]);
    let error = resolve(&ConfigArgs::default(), &env, &EnvFileValues::empty()).expect_err("invalid bool");
    assert!(error.message().contains("RADROOTS_LOG_STDOUT"));
}

#[test]
fn env_file_values_fill_missing_flags() {
    let env_file = parse_env_file_values(
        "\nRADROOTS_OUTPUT=json\nRADROOTS_CLI_LOGGING_FILTER=\"debug,radroots_cli=trace\"\nRADROOTS_CLI_LOGGING_OUTPUT_DIR=/tmp/radroots-cli-logs\nRADROOTS_CLI_LOGGING_STDOUT=false\nRADROOTS_ACCOUNT=acct_env_file\nRADROOTS_IDENTITY_PATH=state/identity.json\nRADROOTS_SIGNER=myc\nRADROOTS_RELAYS=wss://relay.env-file\nRADROOTS_MYC_EXECUTABLE=bin/myc\nRADROOTS_HYF_ENABLED=true\nRADROOTS_HYF_EXECUTABLE=bin/hyfd\n",
        ".env.test",
    )
    .expect("parse env file");
    let resolved = resolve(&ConfigArgs::default(), &environment(&[]), &env_file).expect("resolve config");
    assert_eq!(resolved.output.format, OutputFormat::Json);
    assert_eq!(resolved.logging.filter, "debug,radroots_cli=trace");
    assert_eq!(resolved.logging.directory.as_deref(), Some("/tmp/radroots-cli-logs"));
    assert!(!resolved.logging.stdout);
    assert_eq!(resolved.account.selector.as_deref(), Some("acct_env_file"));
    assert_eq!(resolved.identity.path, "state/identity.json");
    assert_eq!(resolved.signer.backend, SignerBackend::Myc);
    assert_eq!(resolved.relay.urls, vec!["wss://relay.env-file".to_owned()]);
    assert_eq!(resolved.relay.source, RelayConfigSource::Environment);
    assert_eq!(resolved.myc.executable, "bin/myc");
    assert_eq!(resolved.hyf, HyfConfig { enabled: true, executable: "bin/hyfd".to_owned() });
}

#[test]
fn explicit_output_flag_overrides_environment_output() {
    let args = ConfigArgs { output_format: Some(OutputFormat::Ndjson), ..ConfigArgs::default() };
    let env = environment(&[("RADROOTS_OUTPUT", "json")]);
    let resolved = resolve(&args, &env, &EnvFileValues::empty()).expect("resolve runtime config");
    assert_eq!(resolved.output.format, OutputFormat::Ndjson);
}

#[test]
fn interaction_config_reflects_tty_and_flags() {
    let env = ProcessEnvironment { vars: Vec::new(), stdin_tty: true, stdout_tty: true };
    let args = ConfigArgs { no_input: true, yes: true, ..ConfigArgs::default() };
    let resolved = resolve(&args, &env, &EnvFileValues::empty()).expect("resolve runtime config");
    assert_eq!(
        resolved.interaction,
        InteractionConfig {
            input_enabled: false,
            assume_yes: true,
            stdin_tty: true,
            stdout_tty: true,
            prompts_allowed: false,
            confirmations_allowed: false,
        }
    );
    let interactive = resolve(&ConfigArgs::default(), &env, &EnvFileValues::empty()).expect("resolve interactive");
    assert_eq!(
        interactive.interaction,
        InteractionConfig {
            input_enabled: true,
            assume_yes: false,
            stdin_tty: true,
            stdout_tty: true,
            prompts_allowed: true,
            confirmations_allowed: true,
        }
    );
}

#[test]
fn process_environment_overrides_env_file_values() {
    let env = environment(&[("RADROOTS_LOG_FILTER", "info"), ("RADROOTS_LOG_STDOUT", "true")]);
    let env_file = parse_env_file_values(
        "\nRADROOTS_CLI_LOGGING_FILTER=debug\nRADROOTS_CLI_LOGGING_STDOUT=false\n",
        ".env.test",
    )
    .expect("parse env file");
    let resolved = resolve(&ConfigArgs::default(), &env, &env_file).expect("resolve config");
    assert_eq!(resolved.output.format, OutputFormat::Human);
    assert_eq!(resolved.logging.filter, "info");
    assert!(resolved.logging.stdout);
}

#[test]
fn user_relay_config_overrides_workspace_relay_config() {
    let workspace = CliConfigFile {
        relay: Some(RelayFileConfig {
            urls: Some(vec!["wss://relay.workspace".to_owned()]),
            publish_policy: Some("any".to_owned()),
        }),
        ..CliConfigFile::default()
    };
    let user = CliConfigFile {
        relay: Some(RelayFileConfig {
            urls: Some(vec!["wss://relay.user".to_owned(), "wss://relay.workspace".to_owned()]),
            publish_policy: None,
        }),
        ..CliConfigFile::default()
    };
    let resolved = resolve_with_files(Some(&user), Some(&workspace)).expect("resolve config");
    assert_eq!(resolved.relay.urls, vec!["wss://relay.user".to_owned(), "wss://relay.workspace".to_owned()]);
    assert_eq!(resolved.relay.source, RelayConfigSource::UserConfig);
    assert_eq!(resolved.relay.publish_policy, RelayPublishPolicy::Any);
}

#[test]
fn user_hyf_config_overrides_workspace_hyf_config() {
    let workspace = CliConfigFile {
        hyf: Some(HyfFileConfig { enabled: Some(false), executable: Some("workspace-hyfd".to_owned()) }),
        ..CliConfigFile::default()
    };
    let user = CliConfigFile {
        hyf: Some(HyfFileConfig { enabled: Some(true), executable: Some("user-hyfd".to_owned()) }),
        ..CliConfigFile::default()
    };
    let resolved = resolve_with_files(Some(&user), Some(&workspace)).expect("resolve config");
    assert_eq!(resolved.hyf, HyfConfig { enabled: true, executable: "user-hyfd".to_owned() });
}

fn binding(capability: &str, provider: &str, target_kind: &str, target: &str) -> CapabilityBindingFileConfig {
    CapabilityBindingFileConfig {
        capability: capability.to_owned(),
        provider: provider.to_owned(),
        target_kind: target_kind.to_owned(),
        target: target.to_owned(),
        managed_account_ref: None,
        signer_session_ref: None,
    }
}

#[test]
fn user_capability_binding_overrides_workspace_binding() {
    let workspace = CliConfigFile {
        capability_binding: Some(vec![binding("inference.hyf_stdio", "hyf", "managed_instance", "workspace-hyf")]),
        ..CliConfigFile::default()
    };
    let user = CliConfigFile {
        capability_binding: Some(vec![binding("inference.hyf_stdio", "hyf", "explicit_endpoint", "bin/user-hyfd")]),
        ..CliConfigFile::default()
    };
    let resolved = resolve_with_files(Some(&user), Some(&workspace)).expect("resolve config");
    assert_eq!(resolved.capability_bindings.len(), 1);
    assert_eq!(
        resolved.capability_bindings[0],
        CapabilityBindingConfig {
            capability_id: "inference.hyf_stdio".to_owned(),
            provider_runtime_id: "hyf".to_owned(),
            binding_model: "stdio_service".to_owned(),
            target_kind: CapabilityBindingTargetKind::ExplicitEndpoint,
            target: "bin/user-hyfd".to_owned(),
            managed_account_ref: None,
            signer_session_ref: None,
            source: CapabilityBindingSource::UserConfig,
        }
    );
}

#[test]
fn invalid_capability_binding_provider_fails() {
    let workspace = CliConfigFile {
        capability_binding: Some(vec![binding(
            "write_plane.trade_jsonrpc",
            "hyf",
            "explicit_endpoint",
            "https://rpc.workspace.test/jsonrpc",
        )]),
        ..CliConfigFile::default()
    };
    let error = resolve_with_files(None, Some(&workspace)).expect_err("invalid capability binding provider");
    assert!(error.message().contains("must use provider `radrootsd`, got `hyf`"));
}

#[test]
fn invalid_relay_url_fails() {
    let args = ConfigArgs { relay: vec!["https://not-a-websocket.example.com".to_owned()], ..ConfigArgs::default() };
    let error = resolve(&args, &environment(&[]), &EnvFileValues::empty()).expect_err("invalid relay url");
    assert!(error.message().contains("websocket relay urls"));
}

#[test]
fn unknown_env_file_variable_fails() {
    let error = parse_env_file_values("RADROOTS_CLI_LOGGING_FILTRE=debug\n", ".env.test").expect_err("unknown env variable");
    assert!(error.message().contains("unknown environment variable `RADROOTS_CLI_LOGGING_FILTRE`"));
}

#[test]
fn env_output_accepts_ndjson() {
    let env = environment(&[("RADROOTS_OUTPUT", "ndjson")]);
    let resolved = resolve(&ConfigArgs::default(), &env, &EnvFileValues::empty()).expect("resolve runtime config");
    assert_eq!(resolved.output.format, OutputFormat::Ndjson);
}

#[test]
fn inspection_reports_each_known_capability() {
    let resolved = resolve(&ConfigArgs::default(), &environment(&[]), &EnvFileValues::empty()).expect("resolve");
    let inspections = resolved.inspect_capability_bindings();
    assert_eq!(inspections.len(), 4);
    assert_eq!(inspections[0].capability_id, "signer.remote_nip46");
    assert_eq!(inspections[0].source, "independent local signer mode");
    assert_eq!(inspections[3].capability_id, "inference.hyf_stdio");
    assert_eq!(inspections[3].source, "hyf disabled by config");
    assert_eq!(inspections[1].source, "no explicit capability binding");
    assert_eq!(inspections[1].provider_runtime_id, "radrootsd");
    assert!(resolved.capability_binding("inference.hyf_stdio").is_none());
}
