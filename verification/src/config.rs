use vstd::prelude::*;

use crate::error::{RuntimeError, is_config_err, rview};
use crate::text::{
    append_str, chars_is, chars_of, concat2, concat3, lower, owned, string_of, trim, trim_lower,
};

verus! {

/// How command results are written.
#[derive(Debug, Clone, Copy, PartialEq, Eq, Structural)]
pub enum OutputFormat {
    Human,
    Json,
    Ndjson,
}

impl OutputFormat {
    pub open spec fn name(self) -> Seq<char> {
        match self {
            OutputFormat::Human => "human"@,
            OutputFormat::Json => "json"@,
            OutputFormat::Ndjson => "ndjson"@,
        }
    }

    /// The format's name.
    pub fn as_str(self) -> (r: &'static str)
        ensures
            r@ == self.name(),
    {
        match self {
            OutputFormat::Human => "human",
            OutputFormat::Json => "json",
            OutputFormat::Ndjson => "ndjson",
        }
    }
}

/// How much detail human output carries.
#[derive(Debug, Clone, Copy, PartialEq, Eq, Structural)]
pub enum Verbosity {
    Quiet,
    Normal,
    Verbose,
    Trace,
}

impl Verbosity {
    pub open spec fn name(self) -> Seq<char> {
        match self {
            Verbosity::Quiet => "quiet"@,
            Verbosity::Normal => "normal"@,
            Verbosity::Verbose => "verbose"@,
            Verbosity::Trace => "trace"@,
        }
    }

    /// The verbosity's name.
    pub fn as_str(self) -> (r: &'static str)
        ensures
            r@ == self.name(),
    {
        match self {
            Verbosity::Quiet => "quiet",
            Verbosity::Normal => "normal",
            Verbosity::Verbose => "verbose",
            Verbosity::Trace => "trace",
        }
    }
}

/// Which signer the runtime uses.
#[derive(Debug, Clone, Copy, PartialEq, Eq, Structural)]
pub enum SignerBackend {
    Local,
    Myc,
}

impl SignerBackend {
    pub open spec fn name(self) -> Seq<char> {
        match self {
            SignerBackend::Local => "local"@,
            SignerBackend::Myc => "myc"@,
        }
    }

    /// The backend's name.
    pub fn as_str(self) -> (r: &'static str)
        ensures
            r@ == self.name(),
    {
        match self {
            SignerBackend::Local => "local",
            SignerBackend::Myc => "myc",
        }
    }
}

/// The policy for publishing to relays.
#[derive(Debug, Clone, Copy, PartialEq, Eq, Structural)]
pub enum RelayPublishPolicy {
    Any,
}

impl RelayPublishPolicy {
    pub open spec fn name(self) -> Seq<char> {
        match self {
            RelayPublishPolicy::Any => "any"@,
        }
    }

    /// The policy's name.
    pub fn as_str(self) -> (r: &'static str)
        ensures
            r@ == self.name(),
    {
        match self {
            RelayPublishPolicy::Any => "any",
        }
    }
}

/// Where the relay list came from.
#[derive(Debug, Clone, Copy, PartialEq, Eq, Structural)]
pub enum RelayConfigSource {
    Flags,
    Environment,
    UserConfig,
    WorkspaceConfig,
    Defaults,
}

impl RelayConfigSource {
    pub open spec fn name(self) -> Seq<char> {
        match self {
            RelayConfigSource::Flags => "cli flags · local first"@,
            RelayConfigSource::Environment => "environment · local first"@,
            RelayConfigSource::UserConfig => "user config · local first"@,
            RelayConfigSource::WorkspaceConfig => "workspace config · local first"@,
            RelayConfigSource::Defaults => "defaults · local first"@,
        }
    }

    /// The source's description.
    pub fn as_str(self) -> (r: &'static str)
        ensures
            r@ == self.name(),
    {
        match self {
            RelayConfigSource::Flags => "cli flags · local first",
            RelayConfigSource::Environment => "environment · local first",
            RelayConfigSource::UserConfig => "user config · local first",
            RelayConfigSource::WorkspaceConfig => "workspace config · local first",
            RelayConfigSource::Defaults => "defaults · local first",
        }
    }
}

/// How a capability binding names its target.
#[derive(Debug, Clone, Copy, PartialEq, Eq, Structural)]
pub enum CapabilityBindingTargetKind {
    ManagedInstance,
    ExplicitEndpoint,
}

impl CapabilityBindingTargetKind {
    pub open spec fn name(self) -> Seq<char> {
        match self {
            CapabilityBindingTargetKind::ManagedInstance => "managed_instance"@,
            CapabilityBindingTargetKind::ExplicitEndpoint => "explicit_endpoint"@,
        }
    }

    /// The kind's name.
    pub fn as_str(self) -> (r: &'static str)
        ensures
            r@ == self.name(),
    {
        match self {
            CapabilityBindingTargetKind::ManagedInstance => "managed_instance",
            CapabilityBindingTargetKind::ExplicitEndpoint => "explicit_endpoint",
        }
    }
}

/// Which config file a capability binding came from.
#[derive(Debug, Clone, Copy, PartialEq, Eq, Structural)]
pub enum CapabilityBindingSource {
    UserConfig,
    WorkspaceConfig,
}

impl CapabilityBindingSource {
    pub open spec fn name(self) -> Seq<char> {
        match self {
            CapabilityBindingSource::UserConfig => "user config [[capability_binding]]"@,
            CapabilityBindingSource::WorkspaceConfig => "workspace config [[capability_binding]]"@,
        }
    }

    /// The source's description.
    pub fn as_str(self) -> (r: &'static str)
        ensures
            r@ == self.name(),
    {
        match self {
            CapabilityBindingSource::UserConfig => "user config [[capability_binding]]",
            CapabilityBindingSource::WorkspaceConfig => "workspace config [[capability_binding]]",
        }
    }
}

/// The state an inspected capability binding is in.
#[derive(Debug, Clone, Copy, PartialEq, Eq, Structural)]
pub enum CapabilityBindingInspectionState {
    Configured,
    NotConfigured,
    Disabled,
}

impl CapabilityBindingInspectionState {
    pub open spec fn name(self) -> Seq<char> {
        match self {
            CapabilityBindingInspectionState::Configured => "configured"@,
            CapabilityBindingInspectionState::NotConfigured => "not_configured"@,
            CapabilityBindingInspectionState::Disabled => "disabled"@,
        }
    }

    /// The state's name.
    pub fn as_str(self) -> (r: &'static str)
        ensures
            r@ == self.name(),
    {
        match self {
            CapabilityBindingInspectionState::Configured => "configured",
            CapabilityBindingInspectionState::NotConfigured => "not_configured",
            CapabilityBindingInspectionState::Disabled => "disabled",
        }
    }
}

/// Boolean text as the environment accepts it: `Some` of the value, `None` when not boolean.
pub open spec fn bool_word(v: Seq<char>) -> Option<bool> {
    if v == "1"@ || v == "true"@ || v == "yes"@ || v == "on"@ {
        Some(true)
    } else if v == "0"@ || v == "false"@ || v == "no"@ || v == "off"@ {
        Some(false)
    } else {
        None
    }
}

/// What a boolean environment value `value` of variable `key` means.
pub open spec fn bool_env_result(key: Seq<char>, value: Seq<char>) -> Result<bool, Seq<char>> {
    match bool_word(lower(trim(value))) {
        Some(b) => Ok(b),
        None => Err(key + " must be a boolean value, got `"@ + lower(trim(value)) + "`"@),
    }
}

/// What an output format name means.
pub open spec fn output_format_result(value: Seq<char>) -> Result<OutputFormat, Seq<char>> {
    let v = lower(trim(value));
    if v == "human"@ {
        Ok(OutputFormat::Human)
    } else if v == "json"@ {
        Ok(OutputFormat::Json)
    } else if v == "ndjson"@ {
        Ok(OutputFormat::Ndjson)
    } else {
        Err("RADROOTS_OUTPUT must be `human`, `json`, or `ndjson`, got `"@ + v + "`"@)
    }
}

/// What a signer mode means.
pub open spec fn signer_mode_result(value: Seq<char>) -> Result<SignerBackend, Seq<char>> {
    let v = lower(trim(value));
    if v == "local"@ {
        Ok(SignerBackend::Local)
    } else if v == "myc"@ {
        Ok(SignerBackend::Myc)
    } else {
        Err("RADROOTS_SIGNER or --signer must be `local` or `myc`, got `"@ + v + "`"@)
    }
}

/// What a relay publish policy means.
pub open spec fn publish_policy_result(value: Seq<char>) -> Result<RelayPublishPolicy, Seq<char>> {
    let v = lower(trim(value));
    if v == "any"@ {
        Ok(RelayPublishPolicy::Any)
    } else {
        Err("[relay].publish_policy must be `any`, got `"@ + v + "`"@)
    }
}

/// What a secret backend value `value` of variable `key` means.
pub open spec fn secret_backend_result(key: Seq<char>, value: Seq<char>) -> Result<
    AccountSecretBackend,
    Seq<char>,
> {
    let v = lower(trim(value));
    if v == "host_vault"@ {
        Ok(AccountSecretBackend::HostVault)
    } else if v == "encrypted_file"@ {
        Ok(AccountSecretBackend::EncryptedFile)
    } else if v == "memory"@ {
        Ok(AccountSecretBackend::Memory)
    } else {
        Err(secret_backend_error(key, v))
    }
}

/// What a secret fallback value `value` of variable `key` means.
pub open spec fn secret_fallback_result(key: Seq<char>, value: Seq<char>) -> Result<
    Option<AccountSecretBackend>,
    Seq<char>,
> {
    if lower(trim(value)) == "none"@ {
        Ok(None)
    } else {
        match secret_backend_result(key, value) {
            Ok(b) => Ok(Some(b)),
            Err(m) => Err(m),
        }
    }
}

/// Parses a boolean environment value, ignoring surrounding whitespace and ASCII case.
pub fn parse_bool_env(key: &str, value: &str) -> (r: Result<bool, RuntimeError>)
    ensures
        r matches Err(e) ==> e is Config,
        rview(r) == bool_env_result(key@, value@),
        bool_word(lower(trim(value@))) matches Some(b) ==> r == Ok::<bool, RuntimeError>(b),
        bool_word(lower(trim(value@))) is None ==> is_config_err(
            r,
            key@ + " must be a boolean value, got `"@ + lower(trim(value@)) + "`"@,
        ),
{
    let v = trim_lower(value);
    let s = v.as_slice();
    if chars_is(s, "1") || chars_is(s, "true") || chars_is(s, "yes") || chars_is(s, "on") {
        Ok(true)
    } else if chars_is(s, "0") || chars_is(s, "false") || chars_is(s, "no") || chars_is(s, "off") {
        Ok(false)
    } else {
        let mut m = concat2(key, " must be a boolean value, got `");
        let o = string_of(s);
        append_str(&mut m, o.as_str());
        append_str(&mut m, "`");
        Err(RuntimeError::Config(m))
    }
}

/// Parses an output format name, ignoring surrounding whitespace and ASCII case.
pub fn parse_output_format(value: &str) -> (r: Result<OutputFormat, RuntimeError>)
    ensures
        r matches Err(e) ==> e is Config,
        rview(r) == output_format_result(value@),
        ({
            let v = lower(trim(value@));
            if v == "human"@ {
                r == Ok::<OutputFormat, RuntimeError>(OutputFormat::Human)
            } else if v == "json"@ {
                r == Ok::<OutputFormat, RuntimeError>(OutputFormat::Json)
            } else if v == "ndjson"@ {
                r == Ok::<OutputFormat, RuntimeError>(OutputFormat::Ndjson)
            } else {
                is_config_err(r, "RADROOTS_OUTPUT must be `human`, `json`, or `ndjson`, got `"@ + v + "`"@)
            }
        }),
{
    let v = trim_lower(value);
    let s = v.as_slice();
    if chars_is(s, "human") {
        Ok(OutputFormat::Human)
    } else if chars_is(s, "json") {
        Ok(OutputFormat::Json)
    } else if chars_is(s, "ndjson") {
        Ok(OutputFormat::Ndjson)
    } else {
        let mut m = owned("RADROOTS_OUTPUT must be `human`, `json`, or `ndjson`, got `");
        let o = string_of(s);
        append_str(&mut m, o.as_str());
        append_str(&mut m, "`");
        Err(RuntimeError::Config(m))
    }
}

/// Parses a signer mode, ignoring surrounding whitespace and ASCII case.
pub fn parse_signer_mode(value: String) -> (r: Result<SignerBackend, RuntimeError>)
    ensures
        r matches Err(e) ==> e is Config,
        rview(r) == signer_mode_result(value@),
        ({
            let v = lower(trim(value@));
            if v == "local"@ {
                r == Ok::<SignerBackend, RuntimeError>(SignerBackend::Local)
            } else if v == "myc"@ {
                r == Ok::<SignerBackend, RuntimeError>(SignerBackend::Myc)
            } else {
                is_config_err(r, "RADROOTS_SIGNER or --signer must be `local` or `myc`, got `"@ + v + "`"@)
            }
        }),
{
    let v = trim_lower(value.as_str());
    let s = v.as_slice();
    if chars_is(s, "local") {
        Ok(SignerBackend::Local)
    } else if chars_is(s, "myc") {
        Ok(SignerBackend::Myc)
    } else {
        let mut m = owned("RADROOTS_SIGNER or --signer must be `local` or `myc`, got `");
        let o = string_of(s);
        append_str(&mut m, o.as_str());
        append_str(&mut m, "`");
        Err(RuntimeError::Config(m))
    }
}

/// Parses a relay publish policy, ignoring surrounding whitespace and ASCII case.
pub fn parse_relay_publish_policy(value: &str) -> (r: Result<RelayPublishPolicy, RuntimeError>)
    ensures
        r matches Err(e) ==> e is Config,
        rview(r) == publish_policy_result(value@),
        ({
            let v = lower(trim(value@));
            if v == "any"@ {
                r == Ok::<RelayPublishPolicy, RuntimeError>(RelayPublishPolicy::Any)
            } else {
                is_config_err(r, "[relay].publish_policy must be `any`, got `"@ + v + "`"@)
            }
        }),
{
    let v = trim_lower(value);
    let s = v.as_slice();
    if chars_is(s, "any") {
        Ok(RelayPublishPolicy::Any)
    } else {
        let mut m = owned("[relay].publish_policy must be `any`, got `");
        let o = string_of(s);
        append_str(&mut m, o.as_str());
        append_str(&mut m, "`");
        Err(RuntimeError::Config(m))
    }
}

/// Parses the target kind of a capability binding for `capability_id`.
pub fn parse_capability_binding_target_kind(value: &str, capability_id: &str) -> (r: Result<
    CapabilityBindingTargetKind,
    RuntimeError,
>)
    ensures
        ({
            let v = lower(trim(value@));
            if v == "managed_instance"@ {
                r == Ok::<CapabilityBindingTargetKind, RuntimeError>(
                    CapabilityBindingTargetKind::ManagedInstance,
                )
            } else if v == "explicit_endpoint"@ {
                r == Ok::<CapabilityBindingTargetKind, RuntimeError>(
                    CapabilityBindingTargetKind::ExplicitEndpoint,
                )
            } else {
                is_config_err(
                    r,
                    "capability_binding `"@ + capability_id@
                        + "` target_kind must be `managed_instance` or `explicit_endpoint`, got `"@
                        + v + "`"@,
                )
            }
        }),
{
    let v = trim_lower(value);
    let s = v.as_slice();
    if chars_is(s, "managed_instance") {
        Ok(CapabilityBindingTargetKind::ManagedInstance)
    } else if chars_is(s, "explicit_endpoint") {
        Ok(CapabilityBindingTargetKind::ExplicitEndpoint)
    } else {
        let mut m = concat2("capability_binding `", capability_id);
        append_str(&mut m, "` target_kind must be `managed_instance` or `explicit_endpoint`, got `");
        let o = string_of(s);
        append_str(&mut m, o.as_str());
        append_str(&mut m, "`");
        Err(RuntimeError::Config(m))
    }
}

/// The storage behind account secrets.
#[derive(Debug, Clone, Copy, PartialEq, Eq, Structural)]
pub enum AccountSecretBackend {
    /// The host's vault, with the desktop policy.
    HostVault,
    EncryptedFile,
    Memory,
}

impl AccountSecretBackend {
    pub open spec fn name(self) -> Seq<char> {
        match self {
            AccountSecretBackend::HostVault => "host_vault"@,
            AccountSecretBackend::EncryptedFile => "encrypted_file"@,
            AccountSecretBackend::Memory => "memory"@,
        }
    }

    /// The backend's name.
    pub fn as_str(self) -> (r: &'static str)
        ensures
            r@ == self.name(),
    {
        match self {
            AccountSecretBackend::HostVault => "host_vault",
            AccountSecretBackend::EncryptedFile => "encrypted_file",
            AccountSecretBackend::Memory => "memory",
        }
    }
}

/// The message for an unsupported secret backend value `v` of variable `key`.
pub open spec fn secret_backend_error(key: Seq<char>, v: Seq<char>) -> Seq<char> {
    key + " must be `host_vault`, `encrypted_file`, `memory`, or `none` for fallback, got `"@ + v
        + "`"@
}

/// Parses an account secret backend, ignoring surrounding whitespace and ASCII case.
pub fn parse_account_secret_backend(key: &str, value: &str) -> (r: Result<
    AccountSecretBackend,
    RuntimeError,
>)
    ensures
        r matches Err(e) ==> e is Config,
        rview(r) == secret_backend_result(key@, value@),
        ({
            let v = lower(trim(value@));
            if v == "host_vault"@ {
                r == Ok::<AccountSecretBackend, RuntimeError>(AccountSecretBackend::HostVault)
            } else if v == "encrypted_file"@ {
                r == Ok::<AccountSecretBackend, RuntimeError>(AccountSecretBackend::EncryptedFile)
            } else if v == "memory"@ {
                r == Ok::<AccountSecretBackend, RuntimeError>(AccountSecretBackend::Memory)
            } else {
                is_config_err(r, secret_backend_error(key@, v))
            }
        }),
{
    let v = trim_lower(value);
    let s = v.as_slice();
    if chars_is(s, "host_vault") {
        Ok(AccountSecretBackend::HostVault)
    } else if chars_is(s, "encrypted_file") {
        Ok(AccountSecretBackend::EncryptedFile)
    } else if chars_is(s, "memory") {
        Ok(AccountSecretBackend::Memory)
    } else {
        let mut m = concat2(
            key,
            " must be `host_vault`, `encrypted_file`, `memory`, or `none` for fallback, got `",
        );
        let o = string_of(s);
        append_str(&mut m, o.as_str());
        append_str(&mut m, "`");
        Err(RuntimeError::Config(m))
    }
}

/// Parses an account secret fallback: `none` (any ASCII case) means no fallback.
pub fn parse_account_secret_fallback(key: &str, value: &str) -> (r: Result<
    Option<AccountSecretBackend>,
    RuntimeError,
>)
    ensures
        r matches Err(e) ==> e is Config,
        rview(r) == secret_fallback_result(key@, value@),
        ({
            let v = lower(trim(value@));
            if v == "none"@ {
                r == Ok::<Option<AccountSecretBackend>, RuntimeError>(None)
            } else if v == "host_vault"@ {
                r == Ok::<Option<AccountSecretBackend>, RuntimeError>(
                    Some(AccountSecretBackend::HostVault),
                )
            } else if v == "encrypted_file"@ {
                r == Ok::<Option<AccountSecretBackend>, RuntimeError>(
                    Some(AccountSecretBackend::EncryptedFile),
                )
            } else if v == "memory"@ {
                r == Ok::<Option<AccountSecretBackend>, RuntimeError>(
                    Some(AccountSecretBackend::Memory),
                )
            } else {
                is_config_err(r, secret_backend_error(key@, v))
            }
        }),
{
    let v = trim_lower(value);
    if chars_is(v.as_slice(), "none") {
        return Ok(None);
    }
    match parse_account_secret_backend(key, value) {
        Ok(b) => Ok(Some(b)),
        Err(e) => Err(e),
    }
}

/// `v` without one pair of matching surrounding quotes (double or single).
pub open spec fn unquote(v: Seq<char>) -> Seq<char> {
    if v.len() >= 2 && ((v[0] == '"' && v.last() == '"') || (v[0] == '\'' && v.last() == '\'')) {
        v.subrange(1, v.len() - 1)
    } else {
        v
    }
}

/// Removes one pair of matching surrounding quotes from an env file value.
pub fn normalize_env_value(value: &str) -> (r: String)
    ensures
        r@ == unquote(value@),
{
    let cs = chars_of(value);
    let n = cs.len();
    if n >= 2 {
        let first = cs[0];
        let last = cs[n - 1];
        if (first == '"' && last == '"') || (first == '\'' && last == '\'') {
            let inner = slice_chars(cs.as_slice(), 1, n - 1);
            return string_of(inner.as_slice());
        }
    }
    string_of(cs.as_slice())
}

/// The characters of `cs` from `start` up to `end`.
pub fn slice_chars(cs: &[char], start: usize, end: usize) -> (r: Vec<char>)
    requires
        start <= end <= cs@.len(),
    ensures
        r@ == cs@.subrange(start as int, end as int),
{
    let mut r: Vec<char> = Vec::new();
    let mut k = start;
    while k < end
        invariant
            start <= k <= end <= cs@.len(),
            r@ == cs@.subrange(start as int, k as int),
        decreases end - k,
    {
        r.push(cs[k]);
        proof {
            assert(cs@.subrange(start as int, k + 1) =~= cs@.subrange(start as int, k as int).push(
                cs@[k as int],
            ));
        }
        k += 1;
    }
    r
}

/// Chooses the verbosity from the `--quiet`, `--verbose` and `--trace` flags.
pub fn resolve_verbosity(quiet: bool, verbose: bool, trace: bool) -> (r: Result<Verbosity, RuntimeError>)
    ensures
        ((quiet && verbose) || (quiet && trace) || (verbose && trace)) ==> is_config_err(
            r,
            "flags --quiet, --verbose, and --trace are mutually exclusive"@,
        ),
        !((quiet && verbose) || (quiet && trace) || (verbose && trace)) ==> r == Ok::<
            Verbosity,
            RuntimeError,
        >(
            if quiet {
                Verbosity::Quiet
            } else if trace {
                Verbosity::Trace
            } else if verbose {
                Verbosity::Verbose
            } else {
                Verbosity::Normal
            },
        ),
{
    let selected: u8 = (if quiet { 1u8 } else { 0u8 }) + (if verbose { 1u8 } else { 0u8 }) + (if trace {
        1u8
    } else {
        0u8
    });
    if selected > 1 {
        return Err(
            RuntimeError::Config(
                owned("flags --quiet, --verbose, and --trace are mutually exclusive"),
            ),
        );
    }
    if quiet {
        Ok(Verbosity::Quiet)
    } else if trace {
        Ok(Verbosity::Trace)
    } else if verbose {
        Ok(Verbosity::Verbose)
    } else {
        Ok(Verbosity::Normal)
    }
}

/// Output settings.
#[derive(Debug, Clone, PartialEq, Eq)]
pub struct OutputConfig {
    pub format: OutputFormat,
    pub verbosity: Verbosity,
    pub color: bool,
    pub dry_run: bool,
}

/// Settings for prompts and confirmations.
#[derive(Debug, Clone, PartialEq, Eq)]
pub struct InteractionConfig {
    pub input_enabled: bool,
    pub assume_yes: bool,
    pub stdin_tty: bool,
    pub stdout_tty: bool,
    pub prompts_allowed: bool,
    pub confirmations_allowed: bool,
}

/// Logging settings.
#[derive(Debug, Clone, PartialEq, Eq)]
pub struct LoggingConfig {
    pub filter: String,
    pub directory: Option<String>,
    pub stdout: bool,
}

/// The secret-storage contract the runtime advertises for shared accounts.
#[derive(Debug, Clone, PartialEq, Eq)]
pub struct AccountSecretContractConfig {
    pub default_backend: String,
    pub default_fallback: Option<String>,
    pub allowed_backends: Vec<String>,
    pub host_vault_policy: Option<String>,
    pub uses_protected_store: bool,
}

/// The message refusing stdout logging with machine-readable `format`.
pub open spec fn stdout_logging_error(format: OutputFormat) -> Seq<char> {
    "stdout logging cannot be used with "@ + format.name()
        + " output; unset RADROOTS_CLI_LOGGING_STDOUT/RADROOTS_LOG_STDOUT or use --no-log-stdout"@
}

/// Machine-readable output must not share stdout with logging.
pub fn validate_logging_output_contract(output: &OutputConfig, logging: &LoggingConfig) -> (r: Result<
    (),
    RuntimeError,
>)
    ensures
        (logging.stdout && output.format != OutputFormat::Human) ==> is_config_err(
            r,
            stdout_logging_error(output.format),
        ),
        !(logging.stdout && output.format != OutputFormat::Human) ==> r is Ok,
{
    if logging.stdout && (output.format == OutputFormat::Json || output.format == OutputFormat::Ndjson) {
        let m = concat3(
            "stdout logging cannot be used with ",
            output.format.as_str(),
            " output; unset RADROOTS_CLI_LOGGING_STDOUT/RADROOTS_LOG_STDOUT or use --no-log-stdout",
        );
        return Err(RuntimeError::Config(m));
    }
    Ok(())
}

/// Derives what prompts and confirmations are allowed from the flags and terminals.
pub fn resolve_interaction_config(no_input: bool, yes: bool, stdin_tty: bool, stdout_tty: bool) -> (r:
    InteractionConfig)
    ensures
        r.input_enabled == !no_input,
        r.assume_yes == yes,
        r.stdin_tty == stdin_tty,
        r.stdout_tty == stdout_tty,
        r.prompts_allowed == (!no_input && stdin_tty && stdout_tty),
        r.confirmations_allowed == (!no_input && stdin_tty && stdout_tty && !yes),
{
    let input_enabled = !no_input;
    let prompts_allowed = input_enabled && stdin_tty && stdout_tty;
    let confirmations_allowed = prompts_allowed && !yes;
    InteractionConfig {
        input_enabled,
        assume_yes: yes,
        stdin_tty,
        stdout_tty,
        prompts_allowed,
        confirmations_allowed,
    }
}

} // verus!
