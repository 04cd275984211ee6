use vstd::prelude::*;

use crate::bindings::{
    BindingView, CapabilityBindingConfig, CapabilityBindingFileConfig, CapabilityBindingSpec, binding_spec,
    bindings_result_view, bindings_view, capability_binding_spec, file_bindings_view, known_capabilities,
    opt_str_view, resolve_file_bindings_from, resolve_file_capability_bindings,
};
use crate::config::{
    AccountSecretBackend, AccountSecretContractConfig, CapabilityBindingInspectionState,
    CapabilityBindingSource, InteractionConfig, LoggingConfig, OutputConfig, OutputFormat, RelayConfigSource,
    RelayPublishPolicy, SignerBackend, Verbosity, bool_env_result, output_format_result,
    parse_account_secret_backend, parse_account_secret_fallback, parse_bool_env, parse_output_format,
    parse_relay_publish_policy, parse_signer_mode, publish_policy_result, resolve_interaction_config,
    resolve_verbosity, secret_backend_result, secret_fallback_result, signer_mode_result,
    stdout_logging_error, validate_logging_output_contract,
};
use crate::envfile::{EnvFileValues, ProcessEnvironment, env_entry, env_value, env_value_entry, keys_view};
use crate::error::{RuntimeError, is_config_err, rview};
use crate::paths::{PathsConfig, join_path, path_join};
use crate::relay::{
    normalize_relay_urls, normalize_relays, parse_relay_env_value, relay_env_result, rpc_url_result,
    strings_result_view, url_parse_outcome, validate_rpc_url,
};
use crate::text::{owned, str_eq, strings_view, trim};

verus! {

/// The relay section of a config file.
#[derive(Debug, Clone, Default)]
pub struct RelayFileConfig {
    pub urls: Option<Vec<String>>,
    pub publish_policy: Option<String>,
}

/// The rpc section of a config file.
#[derive(Debug, Clone, Default)]
pub struct RpcFileConfig {
    pub url: Option<String>,
}

/// The hyf section of a config file.
#[derive(Debug, Clone, Default)]
pub struct HyfFileConfig {
    pub enabled: Option<bool>,
    pub executable: Option<String>,
}

/// What a user or workspace config file sets.
#[derive(Debug, Clone, Default)]
pub struct CliConfigFile {
    pub relay: Option<RelayFileConfig>,
    pub hyf: Option<HyfFileConfig>,
    pub rpc: Option<RpcFileConfig>,
    pub capability_binding: Option<Vec<CapabilityBindingFileConfig>>,
}

/// The last binding for capability `id` in `all`.
pub open spec fn last_binding_for(all: Seq<BindingView>, id: Seq<char>) -> Option<BindingView>
    decreases all.len(),
{
    if all.len() == 0 {
        None
    } else if all.last().capability_id == id {
        Some(all.last())
    } else {
        last_binding_for(all.drop_last(), id)
    }
}

/// The present values of `s`, in order.
pub open spec fn present<T>(s: Seq<Option<T>>) -> Seq<T>
    decreases s.len(),
{
    if s.len() == 0 {
        seq![]
    } else {
        match s[0] {
            Some(x) => seq![x] + present(s.drop_first()),
            None => present(s.drop_first()),
        }
    }
}

/// The value of `o` as a sequence of at most one element.
pub open spec fn opt_seq<T>(o: Option<T>) -> Seq<T> {
    match o {
        Some(x) => seq![x],
        None => seq![],
    }
}

proof fn lemma_present_step<T>(s: Seq<Option<T>>)
    requires
        s.len() > 0,
    ensures
        present(s) == opt_seq(s[0]) + present(s.drop_first()),
{
    match s[0] {
        Some(x) => {},
        None => {
            assert(Seq::<T>::empty() + present(s.drop_first()) =~= present(s.drop_first()));
        },
    }
}

proof fn lemma_present_single<T>(o: Option<T>)
    ensures
        present(seq![o]) == opt_seq(o),
{
    lemma_present_step(seq![o]);
    assert(seq![o].drop_first() =~= Seq::<Option<T>>::empty());
    assert(opt_seq(o) + Seq::<T>::empty() =~= opt_seq(o));
}

/// One binding per known capability, in the known order: a later binding for a capability
/// replaces an earlier one, so the user file's bindings replace the workspace file's.
pub open spec fn merge_bindings(workspace: Seq<BindingView>, user: Seq<BindingView>) -> Seq<BindingView> {
    let all = workspace + user;
    let ids = known_capabilities();
    present(
        seq![
            last_binding_for(all, ids[0]),
            last_binding_for(all, ids[1]),
            last_binding_for(all, ids[2]),
            last_binding_for(all, ids[3]),
        ],
    )
}

proof fn lemma_last_binding_concat(ws: Seq<BindingView>, us: Seq<BindingView>, id: Seq<char>)
    ensures
        last_binding_for(ws + us, id) == match last_binding_for(us, id) {
            Some(b) => Some(b),
            None => last_binding_for(ws, id),
        },
    decreases us.len(),
{
    if us.len() == 0 {
        assert(ws + us =~= ws);
    } else {
        assert((ws + us).drop_last() =~= ws + us.drop_last());
        assert((ws + us).last() == us.last());
        lemma_last_binding_concat(ws, us.drop_last(), id);
    }
}

fn last_binding_index(v: &Vec<CapabilityBindingConfig>, id: &str) -> (r: Option<usize>)
    ensures
        match last_binding_for(bindings_view(v@), id@) {
            Some(b) => r matches Some(i) && i < v@.len() && v@[i as int].view_of() == b,
            None => r is None,
        },
{
    let mut i = v.len();
    proof {
        assert(v@.take(i as int) =~= v@);
    }
    while i > 0
        invariant
            i <= v@.len(),
            last_binding_for(bindings_view(v@), id@) == last_binding_for(
                bindings_view(v@.take(i as int)),
                id@,
            ),
        decreases i,
    {
        proof {
            assert(bindings_view(v@.take(i as int)).drop_last() =~= bindings_view(v@.take(i - 1)));
        }
        if str_eq(v[i - 1].capability_id.as_str(), id) {
            return Some(i - 1);
        }
        i -= 1;
    }
    None
}

/// Takes the binding for `id` from the user file if it has one, else from the workspace file.
fn pick_binding(
    workspace: &Vec<CapabilityBindingConfig>,
    user: &Vec<CapabilityBindingConfig>,
    id: &str,
    out: &mut Vec<CapabilityBindingConfig>,
)
    ensures
        bindings_view(final(out)@) == bindings_view(old(out)@) + present(
            seq![last_binding_for(bindings_view(workspace@) + bindings_view(user@), id@)],
        ),
{
    proof {
        lemma_last_binding_concat(bindings_view(workspace@), bindings_view(user@), id@);
    }
    let ghost before = bindings_view(out@);
    match last_binding_index(user, id) {
        Some(i) => {
            out.push(user[i].clone_binding());
        },
        None => match last_binding_index(workspace, id) {
            Some(i) => {
                out.push(workspace[i].clone_binding());
            },
            None => {},
        },
    }
    proof {
        let o = last_binding_for(bindings_view(workspace@) + bindings_view(user@), id@);
        lemma_present_single(o);
        match o {
            Some(b) => {
                assert(bindings_view(out@) =~= before + seq![b]);
            },
            None => {
                assert(bindings_view(out@) =~= before + Seq::<BindingView>::empty());
            },
        }
    }
}

impl CapabilityBindingConfig {
    /// A copy of this binding.
    pub fn clone_binding(&self) -> (r: Self)
        ensures
            r.view_of() == self.view_of(),
    {
        CapabilityBindingConfig {
            capability_id: self.capability_id.clone(),
            provider_runtime_id: self.provider_runtime_id.clone(),
            binding_model: self.binding_model.clone(),
            target_kind: self.target_kind,
            target: self.target.clone(),
            managed_account_ref: clone_opt_string(&self.managed_account_ref),
            signer_session_ref: clone_opt_string(&self.signer_session_ref),
            source: self.source,
        }
    }
}

/// A copy of an optional string.
pub fn clone_opt_string(o: &Option<String>) -> (r: Option<String>)
    ensures
        opt_str_view(r) == opt_str_view(*o),
{
    match o {
        Some(s) => Some(s.clone()),
        None => None,
    }
}

/// The file bindings a config file declares, as plain values.
pub open spec fn file_bindings_of(c: Option<&CliConfigFile>) -> Option<Seq<crate::bindings::FileBindingView>> {
    match c {
        Some(f) => match f.capability_binding {
            Some(v) => Some(file_bindings_view(v@)),
            None => None,
        },
        None => None,
    }
}

/// The bindings one file resolves to: none when it declares none.
pub open spec fn file_bindings_result(
    bs: Option<Seq<crate::bindings::FileBindingView>>,
    source: CapabilityBindingSource,
) -> Result<Seq<BindingView>, Seq<char>> {
    match bs {
        None => Ok(seq![]),
        Some(v) => resolve_file_bindings_from(v, source, 0, seq![]),
    }
}

/// The bindings the runtime uses: the workspace file's checked first, then the user file's,
/// merged so that the user file wins per capability.
pub open spec fn capability_bindings_result(
    user: Option<Seq<crate::bindings::FileBindingView>>,
    workspace: Option<Seq<crate::bindings::FileBindingView>>,
) -> Result<Seq<BindingView>, Seq<char>> {
    match file_bindings_result(workspace, CapabilityBindingSource::WorkspaceConfig) {
        Err(m) => Err(m),
        Ok(ws) => match file_bindings_result(user, CapabilityBindingSource::UserConfig) {
            Err(m) => Err(m),
            Ok(us) => Ok(merge_bindings(ws, us)),
        },
    }
}

fn file_binding_list(c: Option<&CliConfigFile>) -> (r: Option<&Vec<CapabilityBindingFileConfig>>)
    ensures
        match file_bindings_of(c) {
            Some(v) => r is Some && file_bindings_view(r->0@) == v,
            None => r is None,
        },
{
    match c {
        Some(f) => match &f.capability_binding {
            Some(v) => Some(v),
            None => None,
        },
        None => None,
    }
}

/// Resolves and merges the capability bindings of the user and workspace config files.
pub fn resolve_capability_bindings(
    user_config: Option<&CliConfigFile>,
    workspace_config: Option<&CliConfigFile>,
) -> (r: Result<Vec<CapabilityBindingConfig>, RuntimeError>)
    ensures
        r matches Err(e) ==> e is Config,
        bindings_result_view(r) == capability_bindings_result(
            file_bindings_of(user_config),
            file_bindings_of(workspace_config),
        ),
{
    let workspace = match resolve_file_capability_bindings(
        file_binding_list(workspace_config),
        CapabilityBindingSource::WorkspaceConfig,
    ) {
        Ok(v) => v,
        Err(e) => {
            return Err(e);
        },
    };
    let user = match resolve_file_capability_bindings(
        file_binding_list(user_config),
        CapabilityBindingSource::UserConfig,
    ) {
        Ok(v) => v,
        Err(e) => {
            return Err(e);
        },
    };
    proof {
        if file_bindings_of(workspace_config) is None {
            assert(bindings_view(workspace@) =~= Seq::<BindingView>::empty());
        }
        if file_bindings_of(user_config) is None {
            assert(bindings_view(user@) =~= Seq::<BindingView>::empty());
        }
    }
    let mut merged: Vec<CapabilityBindingConfig> = Vec::new();
    let ghost all = bindings_view(workspace@) + bindings_view(user@);
    let ghost ids = known_capabilities();
    pick_binding(&workspace, &user, "signer.remote_nip46", &mut merged);
    pick_binding(&workspace, &user, "write_plane.trade_jsonrpc", &mut merged);
    pick_binding(&workspace, &user, "workflow.trade", &mut merged);
    pick_binding(&workspace, &user, "inference.hyf_stdio", &mut merged);
    proof {
        let o0 = last_binding_for(all, ids[0]);
        let o1 = last_binding_for(all, ids[1]);
        let o2 = last_binding_for(all, ids[2]);
        let o3 = last_binding_for(all, ids[3]);
        let s = seq![o0, o1, o2, o3];
        lemma_present_step(s);
        lemma_present_step(s.drop_first());
        lemma_present_step(s.drop_first().drop_first());
        lemma_present_step(s.drop_first().drop_first().drop_first());
        assert(s.drop_first().drop_first().drop_first().drop_first() =~= Seq::<Option<BindingView>>::empty());
        lemma_present_single(o0);
        lemma_present_single(o1);
        lemma_present_single(o2);
        lemma_present_single(o3);
        assert(present(s) =~= opt_seq(o0) + opt_seq(o1) + opt_seq(o2) + opt_seq(o3));
        assert(bindings_view(merged@) =~= merge_bindings(bindings_view(workspace@), bindings_view(user@)));
    }
    Ok(merged)
}

/// The relay section of an optional config file.
pub open spec fn relay_section(c: Option<&CliConfigFile>) -> Option<RelayFileConfig> {
    match c {
        Some(f) => f.relay,
        None => None,
    }
}

/// The hyf section of an optional config file.
pub open spec fn hyf_section(c: Option<&CliConfigFile>) -> Option<HyfFileConfig> {
    match c {
        Some(f) => f.hyf,
        None => None,
    }
}

/// The rpc url an optional config file sets.
pub open spec fn rpc_url_of(c: Option<&CliConfigFile>) -> Option<Seq<char>> {
    match c {
        Some(f) => match f.rpc {
            Some(r) => opt_str_view(r.url),
            None => None,
        },
        None => None,
    }
}

/// The publish policy an optional config file sets.
pub open spec fn publish_policy_of(c: Option<&CliConfigFile>) -> Option<Seq<char>> {
    match relay_section(c) {
        Some(r) => opt_str_view(r.publish_policy),
        None => None,
    }
}

/// The relay urls an optional config file sets.
pub open spec fn relay_urls_of(c: Option<&CliConfigFile>) -> Option<Seq<Seq<char>>> {
    match relay_section(c) {
        Some(r) => match r.urls {
            Some(v) => Some(strings_view(v@)),
            None => None,
        },
        None => None,
    }
}

/// Whether hyf is enabled according to an optional config file.
pub open spec fn hyf_enabled_of(c: Option<&CliConfigFile>) -> Option<bool> {
    match hyf_section(c) {
        Some(h) => h.enabled,
        None => None,
    }
}

/// The hyf executable an optional config file sets.
pub open spec fn hyf_executable_of(c: Option<&CliConfigFile>) -> Option<Seq<char>> {
    match hyf_section(c) {
        Some(h) => opt_str_view(h.executable),
        None => None,
    }
}

/// The publish policy the config files choose: the user file's, else the workspace file's.
pub open spec fn relay_publish_policy_result(user: Option<Seq<char>>, workspace: Option<Seq<char>>) -> Result<
    Option<RelayPublishPolicy>,
    Seq<char>,
> {
    match user {
        Some(v) => match publish_policy_result(v) {
            Ok(p) => Ok(Some(p)),
            Err(m) => Err(m),
        },
        None => match workspace {
            Some(v) => match publish_policy_result(v) {
                Ok(p) => Ok(Some(p)),
                Err(m) => Err(m),
            },
            None => Ok(None),
        },
    }
}

fn publish_policy_text(c: Option<&CliConfigFile>) -> (r: Option<&String>)
    ensures
        match publish_policy_of(c) {
            Some(v) => r is Some && r->0@ == v,
            None => r is None,
        },
{
    match c {
        Some(f) => match &f.relay {
            Some(rel) => match &rel.publish_policy {
                Some(v) => Some(v),
                None => None,
            },
            None => None,
        },
        None => None,
    }
}

/// The relay publish policy the config files choose.
pub fn resolve_relay_publish_policy(
    user_config: Option<&CliConfigFile>,
    workspace_config: Option<&CliConfigFile>,
) -> (r: Result<Option<RelayPublishPolicy>, RuntimeError>)
    ensures
        r matches Err(e) ==> e is Config,
        rview(r) == relay_publish_policy_result(
            publish_policy_of(user_config),
            publish_policy_of(workspace_config),
        ),
{
    if let Some(value) = publish_policy_text(user_config) {
        return match parse_relay_publish_policy(value.as_str()) {
            Ok(p) => Ok(Some(p)),
            Err(e) => Err(e),
        };
    }
    if let Some(value) = publish_policy_text(workspace_config) {
        return match parse_relay_publish_policy(value.as_str()) {
            Ok(p) => Ok(Some(p)),
            Err(e) => Err(e),
        };
    }
    Ok(None)
}

/// The relays the runtime uses.
#[derive(Debug, Clone, PartialEq, Eq)]
pub struct RelayConfig {
    pub urls: Vec<String>,
    pub publish_policy: RelayPublishPolicy,
    pub source: RelayConfigSource,
}

/// The plain values of a relay configuration.
pub struct RelayConfigView {
    pub urls: Seq<Seq<char>>,
    pub publish_policy: RelayPublishPolicy,
    pub source: RelayConfigSource,
}

impl RelayConfig {
    pub open spec fn view_of(self) -> RelayConfigView {
        RelayConfigView { urls: strings_view(self.urls@), publish_policy: self.publish_policy, source: self.source }
    }
}

/// A relay list with its policy and source, or the message for the first bad url.
pub open spec fn relay_with(
    urls: Result<Seq<Seq<char>>, Seq<char>>,
    policy: RelayPublishPolicy,
    source: RelayConfigSource,
) -> Result<RelayConfigView, Seq<char>> {
    match urls {
        Ok(u) => Ok(RelayConfigView { urls: u, publish_policy: policy, source }),
        Err(m) => Err(m),
    }
}

/// The relay configuration: `--relay` flags first, then `RADROOTS_RELAYS`, then the user file's
/// urls, then the workspace file's, else none.
pub open spec fn relay_config_result(
    flags: Seq<Seq<char>>,
    env: Seq<(Seq<char>, Seq<char>)>,
    file: Seq<(Seq<char>, Seq<char>)>,
    user: Option<&CliConfigFile>,
    workspace: Option<&CliConfigFile>,
) -> Result<RelayConfigView, Seq<char>> {
    match relay_publish_policy_result(publish_policy_of(user), publish_policy_of(workspace)) {
        Err(m) => Err(m),
        Ok(p) => {
            let policy = match p {
                Some(x) => x,
                None => RelayPublishPolicy::Any,
            };
            if flags.len() > 0 {
                relay_with(normalize_relays(flags, "--relay"@, seq![]), policy, RelayConfigSource::Flags)
            } else {
                match env_entry(env, file, seq!["RADROOTS_RELAYS"@]) {
                    Some(e) => relay_with(
                        relay_env_result(e.1, "RADROOTS_RELAYS"@),
                        policy,
                        RelayConfigSource::Environment,
                    ),
                    None => match relay_urls_of(user) {
                        Some(u) => relay_with(
                            normalize_relays(u, "user config [relay].urls"@, seq![]),
                            policy,
                            RelayConfigSource::UserConfig,
                        ),
                        None => match relay_urls_of(workspace) {
                            Some(u) => relay_with(
                                normalize_relays(u, "workspace config [relay].urls"@, seq![]),
                                policy,
                                RelayConfigSource::WorkspaceConfig,
                            ),
                            None => Ok(
                                RelayConfigView {
                                    urls: seq![],
                                    publish_policy: policy,
                                    source: RelayConfigSource::Defaults,
                                },
                            ),
                        },
                    },
                }
            }
        },
    }
}

/// The view of a relay configuration result.
pub open spec fn relay_result_view(r: Result<RelayConfig, RuntimeError>) -> Result<RelayConfigView, Seq<char>> {
    match r {
        Ok(c) => Ok(c.view_of()),
        Err(e) => Err(e.message_view()),
    }
}

fn relay_urls_list(c: Option<&CliConfigFile>) -> (r: Option<&Vec<String>>)
    ensures
        match relay_urls_of(c) {
            Some(u) => r is Some && strings_view(r->0@) == u,
            None => r is None,
        },
{
    match c {
        Some(f) => match &f.relay {
            Some(rel) => match &rel.urls {
                Some(v) => Some(v),
                None => None,
            },
            None => None,
        },
        None => None,
    }
}

fn clone_strings(v: &Vec<String>) -> (r: Vec<String>)
    ensures
        strings_view(r@) == strings_view(v@),
{
    let mut out: Vec<String> = Vec::new();
    let mut i: usize = 0;
    while i < v.len()
        invariant
            i <= v@.len(),
            strings_view(out@) == strings_view(v@.take(i as int)),
        decreases v@.len() - i,
    {
        out.push(v[i].clone());
        proof {
            assert(strings_view(v@.take(i + 1)) =~= strings_view(v@.take(i as int)).push(v@[i as int]@));
            assert(strings_view(out@) =~= strings_view(v@.take(i + 1)));
        }
        i += 1;
    }
    proof {
        assert(v@.take(v@.len() as int) =~= v@);
    }
    out
}

fn relay_from(urls: Result<Vec<String>, RuntimeError>, policy: RelayPublishPolicy, source: RelayConfigSource) -> (r:
    Result<RelayConfig, RuntimeError>)
    requires
        urls matches Err(e) ==> e is Config,
    ensures
        r matches Err(e) ==> e is Config,
        relay_result_view(r) == relay_with(strings_result_view(urls), policy, source),
{
    match urls {
        Ok(u) => Ok(RelayConfig { urls: u, publish_policy: policy, source }),
        Err(e) => Err(e),
    }
}

/// Chooses the relays: flags, then environment, then the user file, then the workspace file.
pub fn resolve_relay_config(
    relay_flags: &Vec<String>,
    env: &ProcessEnvironment,
    env_file: &EnvFileValues,
    user_config: Option<&CliConfigFile>,
    workspace_config: Option<&CliConfigFile>,
) -> (r: Result<RelayConfig, RuntimeError>)
    ensures
        r matches Err(e) ==> e is Config,
        relay_result_view(r) == relay_config_result(
            strings_view(relay_flags@),
            env.pairs(),
            env_file.pairs(),
            user_config,
            workspace_config,
        ),
{
    let publish_policy = match resolve_relay_publish_policy(user_config, workspace_config) {
        Ok(p) => match p {
            Some(x) => x,
            None => RelayPublishPolicy::Any,
        },
        Err(e) => {
            return Err(e);
        },
    };
    if relay_flags.len() > 0 {
        return relay_from(
            normalize_relay_urls(clone_strings(relay_flags), "--relay"),
            publish_policy,
            RelayConfigSource::Flags,
        );
    }
    let keys: [&str; 1] = ["RADROOTS_RELAYS"];
    proof {
        assert(keys_view(keys@) =~= seq!["RADROOTS_RELAYS"@]);
    }
    if let Some(value) = env_value(env, env_file, &keys) {
        return relay_from(
            parse_relay_env_value(value.as_str(), "RADROOTS_RELAYS"),
            publish_policy,
            RelayConfigSource::Environment,
        );
    }
    if let Some(urls) = relay_urls_list(user_config) {
        return relay_from(
            normalize_relay_urls(clone_strings(urls), "user config [relay].urls"),
            publish_policy,
            RelayConfigSource::UserConfig,
        );
    }
    if let Some(urls) = relay_urls_list(workspace_config) {
        return relay_from(
            normalize_relay_urls(clone_strings(urls), "workspace config [relay].urls"),
            publish_policy,
            RelayConfigSource::WorkspaceConfig,
        );
    }
    let empty: Vec<String> = Vec::new();
    proof {
        assert(strings_view(empty@) =~= Seq::<Seq<char>>::empty());
    }
    Ok(RelayConfig { urls: empty, publish_policy, source: RelayConfigSource::Defaults })
}

/// A one-key list of variable names.
pub open spec fn one_key(k: Seq<char>) -> Seq<Seq<char>> {
    seq![k]
}

/// Whether hyf is enabled: the flags first, then `RADROOTS_HYF_ENABLED`, then the user file,
/// then the workspace file, else off.
pub open spec fn hyf_enabled_result(
    on_flag: bool,
    off_flag: bool,
    env: Seq<(Seq<char>, Seq<char>)>,
    file: Seq<(Seq<char>, Seq<char>)>,
    user: Option<&CliConfigFile>,
    workspace: Option<&CliConfigFile>,
) -> Result<bool, Seq<char>> {
    if on_flag && off_flag {
        Err("flags --hyf-enabled and --no-hyf-enabled cannot be used together"@)
    } else if on_flag {
        Ok(true)
    } else if off_flag {
        Ok(false)
    } else {
        match env_entry(env, file, one_key("RADROOTS_HYF_ENABLED"@)) {
            Some(e) => bool_env_result(e.0, e.1),
            None => match hyf_enabled_of(user) {
                Some(b) => Ok(b),
                None => match hyf_enabled_of(workspace) {
                    Some(b) => Ok(b),
                    None => Ok(false),
                },
            },
        }
    }
}

fn hyf_enabled_value(c: Option<&CliConfigFile>) -> (r: Option<bool>)
    ensures
        r == hyf_enabled_of(c),
{
    match c {
        Some(f) => match &f.hyf {
            Some(h) => h.enabled,
            None => None,
        },
        None => None,
    }
}

/// Decides whether hyf is enabled.
pub fn resolve_hyf_enabled(
    hyf_enabled: bool,
    no_hyf_enabled: bool,
    env: &ProcessEnvironment,
    env_file: &EnvFileValues,
    user_config: Option<&CliConfigFile>,
    workspace_config: Option<&CliConfigFile>,
) -> (r: Result<bool, RuntimeError>)
    ensures
        r matches Err(e) ==> e is Config,
        rview(r) == hyf_enabled_result(
            hyf_enabled,
            no_hyf_enabled,
            env.pairs(),
            env_file.pairs(),
            user_config,
            workspace_config,
        ),
{
    if hyf_enabled && no_hyf_enabled {
        return Err(
            RuntimeError::Config(
                owned("flags --hyf-enabled and --no-hyf-enabled cannot be used together"),
            ),
        );
    }
    if hyf_enabled {
        return Ok(true);
    }
    if no_hyf_enabled {
        return Ok(false);
    }
    let keys: [&str; 1] = ["RADROOTS_HYF_ENABLED"];
    proof {
        assert(keys_view(keys@) =~= one_key("RADROOTS_HYF_ENABLED"@));
    }
    if let Some((key, value)) = env_value_entry(env, env_file, &keys) {
        return parse_bool_env(key.as_str(), value.as_str());
    }
    if let Some(enabled) = hyf_enabled_value(user_config) {
        return Ok(enabled);
    }
    if let Some(enabled) = hyf_enabled_value(workspace_config) {
        return Ok(enabled);
    }
    Ok(false)
}

/// The hyf executable: the flag, then `RADROOTS_HYF_EXECUTABLE`, then the user file, then the
/// workspace file, else `hyfd`.
pub open spec fn hyf_executable_result(
    arg: Option<Seq<char>>,
    env: Seq<(Seq<char>, Seq<char>)>,
    file: Seq<(Seq<char>, Seq<char>)>,
    user: Option<&CliConfigFile>,
    workspace: Option<&CliConfigFile>,
) -> Seq<char> {
    match arg {
        Some(a) => a,
        None => match env_entry(env, file, one_key("RADROOTS_HYF_EXECUTABLE"@)) {
            Some(e) => e.1,
            None => match hyf_executable_of(user) {
                Some(x) => x,
                None => match hyf_executable_of(workspace) {
                    Some(x) => x,
                    None => "hyfd"@,
                },
            },
        },
    }
}

fn hyf_executable_value(c: Option<&CliConfigFile>) -> (r: Option<String>)
    ensures
        opt_str_view(r) == hyf_executable_of(c),
{
    match c {
        Some(f) => match &f.hyf {
            Some(h) => clone_opt_string(&h.executable),
            None => None,
        },
        None => None,
    }
}

/// Chooses the hyf executable.
pub fn resolve_hyf_executable(
    hyf_executable: &Option<String>,
    env: &ProcessEnvironment,
    env_file: &EnvFileValues,
    user_config: Option<&CliConfigFile>,
    workspace_config: Option<&CliConfigFile>,
) -> (r: String)
    ensures
        r@ == hyf_executable_result(
            opt_str_view(*hyf_executable),
            env.pairs(),
            env_file.pairs(),
            user_config,
            workspace_config,
        ),
{
    if let Some(a) = hyf_executable {
        return a.clone();
    }
    let keys: [&str; 1] = ["RADROOTS_HYF_EXECUTABLE"];
    proof {
        assert(keys_view(keys@) =~= one_key("RADROOTS_HYF_EXECUTABLE"@));
    }
    if let Some(v) = env_value(env, env_file, &keys) {
        return v;
    }
    if let Some(v) = hyf_executable_value(user_config) {
        return v;
    }
    if let Some(v) = hyf_executable_value(workspace_config) {
        return v;
    }
    owned("hyfd")
}

/// The daemon rpc settings.
#[derive(Debug, Clone, PartialEq, Eq)]
pub struct RpcConfig {
    pub url: String,
    pub bridge_bearer_token: Option<String>,
}

/// The rpc url before validation: `RADROOTS_RPC_URL`, then the user file, then the workspace
/// file, else the local default.
pub open spec fn rpc_url_choice(
    env: Seq<(Seq<char>, Seq<char>)>,
    file: Seq<(Seq<char>, Seq<char>)>,
    user: Option<&CliConfigFile>,
    workspace: Option<&CliConfigFile>,
) -> Seq<char> {
    match env_entry(env, file, one_key("RADROOTS_RPC_URL"@)) {
        Some(e) => e.1,
        None => match rpc_url_of(user) {
            Some(u) => u,
            None => match rpc_url_of(workspace) {
                Some(u) => u,
                None => "http://127.0.0.1:7070"@,
            },
        },
    }
}

/// The validated rpc url and bearer token, or the message refusing the url.
pub open spec fn rpc_config_result(
    env: Seq<(Seq<char>, Seq<char>)>,
    file: Seq<(Seq<char>, Seq<char>)>,
    user: Option<&CliConfigFile>,
    workspace: Option<&CliConfigFile>,
) -> Result<(Seq<char>, Option<Seq<char>>), Seq<char>> {
    let u = trim(rpc_url_choice(env, file, user, workspace));
    match rpc_url_result(u, url_parse_outcome(u)) {
        Ok(url) => Ok(
            (
                url,
                match env_entry(env, file, one_key("RADROOTS_RPC_BEARER_TOKEN"@)) {
                    Some(e) => Some(e.1),
                    None => None,
                },
            ),
        ),
        Err(m) => Err(m),
    }
}

/// The view of an rpc configuration result.
pub open spec fn rpc_result_view(r: Result<RpcConfig, RuntimeError>) -> Result<
    (Seq<char>, Option<Seq<char>>),
    Seq<char>,
> {
    match r {
        Ok(c) => Ok((c.url@, opt_str_view(c.bridge_bearer_token))),
        Err(e) => Err(e.message_view()),
    }
}

fn rpc_url_value(c: Option<&CliConfigFile>) -> (r: Option<String>)
    ensures
        opt_str_view(r) == rpc_url_of(c),
{
    match c {
        Some(f) => match &f.rpc {
            Some(x) => clone_opt_string(&x.url),
            None => None,
        },
        None => None,
    }
}

/// Chooses and validates the rpc settings.
pub fn resolve_rpc_config(
    env: &ProcessEnvironment,
    env_file: &EnvFileValues,
    user_config: Option<&CliConfigFile>,
    workspace_config: Option<&CliConfigFile>,
) -> (r: Result<RpcConfig, RuntimeError>)
    ensures
        r matches Err(e) ==> e is Config,
        rpc_result_view(r) == rpc_config_result(
            env.pairs(),
            env_file.pairs(),
            user_config,
            workspace_config,
        ),
{
    let url_keys: [&str; 1] = ["RADROOTS_RPC_URL"];
    let token_keys: [&str; 1] = ["RADROOTS_RPC_BEARER_TOKEN"];
    proof {
        assert(keys_view(url_keys@) =~= one_key("RADROOTS_RPC_URL"@));
        assert(keys_view(token_keys@) =~= one_key("RADROOTS_RPC_BEARER_TOKEN"@));
    }
    let url = match env_value(env, env_file, &url_keys) {
        Some(v) => v,
        None => match rpc_url_value(user_config) {
            Some(v) => v,
            None => match rpc_url_value(workspace_config) {
                Some(v) => v,
                None => owned("http://127.0.0.1:7070"),
            },
        },
    };
    let validated = match validate_rpc_url(url.as_str()) {
        Ok(u) => u,
        Err(e) => {
            return Err(e);
        },
    };
    Ok(RpcConfig { url: validated, bridge_bearer_token: env_value(env, env_file, &token_keys) })
}

/// The output format: `--output`, `--json` or `--ndjson` (at most one), then `RADROOTS_OUTPUT`,
/// else human.
pub open spec fn output_format_choice(
    arg: Option<OutputFormat>,
    json: bool,
    ndjson: bool,
    env: Seq<(Seq<char>, Seq<char>)>,
    file: Seq<(Seq<char>, Seq<char>)>,
) -> Result<OutputFormat, Seq<char>> {
    if arg is Some && (json || ndjson) {
        Err("flags --output, --json, and --ndjson cannot be used together"@)
    } else if json && ndjson {
        Err("flags --json and --ndjson cannot be used together"@)
    } else if arg is Some {
        Ok(arg->0)
    } else if json {
        Ok(OutputFormat::Json)
    } else if ndjson {
        Ok(OutputFormat::Ndjson)
    } else {
        match env_entry(env, file, one_key("RADROOTS_OUTPUT"@)) {
            Some(e) => output_format_result(e.1),
            None => Ok(OutputFormat::Human),
        }
    }
}

/// Chooses the output format.
pub fn resolve_output_format(
    output_format: Option<OutputFormat>,
    json: bool,
    ndjson: bool,
    env: &ProcessEnvironment,
    env_file: &EnvFileValues,
) -> (r: Result<OutputFormat, RuntimeError>)
    ensures
        r matches Err(e) ==> e is Config,
        rview(r) == output_format_choice(output_format, json, ndjson, env.pairs(), env_file.pairs()),
{
    if output_format.is_some() && (json || ndjson) {
        return Err(
            RuntimeError::Config(owned("flags --output, --json, and --ndjson cannot be used together")),
        );
    }
    if json && ndjson {
        return Err(RuntimeError::Config(owned("flags --json and --ndjson cannot be used together")));
    }
    if let Some(format) = output_format {
        return Ok(format);
    }
    if json {
        return Ok(OutputFormat::Json);
    }
    if ndjson {
        return Ok(OutputFormat::Ndjson);
    }
    let keys: [&str; 1] = ["RADROOTS_OUTPUT"];
    proof {
        assert(keys_view(keys@) =~= one_key("RADROOTS_OUTPUT"@));
    }
    match env_value(env, env_file, &keys) {
        Some(value) => parse_output_format(value.as_str()),
        None => Ok(OutputFormat::Human),
    }
}

/// A boolean set by a pair of flags or else by the first of `keys` in the environment.
pub open spec fn bool_pair_result(
    positive: bool,
    negative: bool,
    keys: Seq<Seq<char>>,
    default: bool,
    env: Seq<(Seq<char>, Seq<char>)>,
    file: Seq<(Seq<char>, Seq<char>)>,
    positive_label: Seq<char>,
    negative_label: Seq<char>,
) -> Result<bool, Seq<char>> {
    if positive && negative {
        Err("flags "@ + positive_label + " and "@ + negative_label + " cannot be used together"@)
    } else if positive {
        Ok(true)
    } else if negative {
        Ok(false)
    } else {
        match env_entry(env, file, keys) {
            Some(e) => bool_env_result(e.0, e.1),
            None => Ok(default),
        }
    }
}

/// Resolves a boolean from a flag pair, the environment and a default.
pub fn resolve_bool_pair(
    positive_flag: bool,
    negative_flag: bool,
    env_keys: &[&str],
    default: bool,
    env: &ProcessEnvironment,
    env_file: &EnvFileValues,
    positive_label: &str,
    negative_label: &str,
) -> (r: Result<bool, RuntimeError>)
    ensures
        r matches Err(e) ==> e is Config,
        rview(r) == bool_pair_result(
            positive_flag,
            negative_flag,
            keys_view(env_keys@),
            default,
            env.pairs(),
            env_file.pairs(),
            positive_label@,
            negative_label@,
        ),
{
    if positive_flag && negative_flag {
        let mut m = crate::text::concat3("flags ", positive_label, " and ");
        crate::text::append_str(&mut m, negative_label);
        crate::text::append_str(&mut m, " cannot be used together");
        return Err(RuntimeError::Config(m));
    }
    if positive_flag {
        return Ok(true);
    }
    if negative_flag {
        return Ok(false);
    }
    match env_value_entry(env, env_file, env_keys) {
        Some((key, value)) => parse_bool_env(key.as_str(), value.as_str()),
        None => Ok(default),
    }
}

/// The account secret backend chosen by `RADROOTS_ACCOUNT_SECRET_BACKEND`, if set.
pub open spec fn secret_backend_choice(env: Seq<(Seq<char>, Seq<char>)>, file: Seq<(Seq<char>, Seq<char>)>) -> Result<
    Option<AccountSecretBackend>,
    Seq<char>,
> {
    match env_entry(env, file, one_key("RADROOTS_ACCOUNT_SECRET_BACKEND"@)) {
        Some(e) => match secret_backend_result(e.0, e.1) {
            Ok(b) => Ok(Some(b)),
            Err(m) => Err(m),
        },
        None => Ok(None),
    }
}

/// Reads the account secret backend from the environment.
pub fn resolve_account_secret_backend(env: &ProcessEnvironment, env_file: &EnvFileValues) -> (r: Result<
    Option<AccountSecretBackend>,
    RuntimeError,
>)
    ensures
        r matches Err(e) ==> e is Config,
        rview(r) == secret_backend_choice(env.pairs(), env_file.pairs()),
{
    let keys: [&str; 1] = ["RADROOTS_ACCOUNT_SECRET_BACKEND"];
    proof {
        assert(keys_view(keys@) =~= one_key("RADROOTS_ACCOUNT_SECRET_BACKEND"@));
    }
    match env_value_entry(env, env_file, &keys) {
        Some((key, value)) => match parse_account_secret_backend(key.as_str(), value.as_str()) {
            Ok(b) => Ok(Some(b)),
            Err(e) => Err(e),
        },
        None => Ok(None),
    }
}

/// The account secret fallback chosen by `RADROOTS_ACCOUNT_SECRET_FALLBACK`, if set.
pub open spec fn secret_fallback_choice(env: Seq<(Seq<char>, Seq<char>)>, file: Seq<(Seq<char>, Seq<char>)>) -> Result<
    Option<Option<AccountSecretBackend>>,
    Seq<char>,
> {
    match env_entry(env, file, one_key("RADROOTS_ACCOUNT_SECRET_FALLBACK"@)) {
        Some(e) => match secret_fallback_result(e.0, e.1) {
            Ok(b) => Ok(Some(b)),
            Err(m) => Err(m),
        },
        None => Ok(None),
    }
}

/// Reads the account secret fallback from the environment.
pub fn resolve_account_secret_fallback(env: &ProcessEnvironment, env_file: &EnvFileValues) -> (r: Result<
    Option<Option<AccountSecretBackend>>,
    RuntimeError,
>)
    ensures
        r matches Err(e) ==> e is Config,
        rview(r) == secret_fallback_choice(env.pairs(), env_file.pairs()),
{
    let keys: [&str; 1] = ["RADROOTS_ACCOUNT_SECRET_FALLBACK"];
    proof {
        assert(keys_view(keys@) =~= one_key("RADROOTS_ACCOUNT_SECRET_FALLBACK"@));
    }
    match env_value_entry(env, env_file, &keys) {
        Some((key, value)) => match parse_account_secret_fallback(key.as_str(), value.as_str()) {
            Ok(b) => Ok(Some(b)),
            Err(e) => Err(e),
        },
        None => Ok(None),
    }
}

/// The flag values that configuration reads.
#[derive(Debug, Clone, Default)]
pub struct ConfigArgs {
    pub output_format: Option<OutputFormat>,
    pub json: bool,
    pub ndjson: bool,
    pub quiet: bool,
    pub verbose: bool,
    pub trace: bool,
    pub no_color: bool,
    pub dry_run: bool,
    pub log_filter: Option<String>,
    pub log_dir: Option<String>,
    pub log_stdout: bool,
    pub no_log_stdout: bool,
    pub account: Option<String>,
    pub identity_path: Option<String>,
    pub signer: Option<String>,
    pub relay: Vec<String>,
    pub myc_executable: Option<String>,
    pub hyf_enabled: bool,
    pub no_hyf_enabled: bool,
    pub hyf_executable: Option<String>,
    pub no_input: bool,
    pub yes: bool,
}

/// Where the identity file lives.
#[derive(Debug, Clone, PartialEq, Eq)]
pub struct IdentityConfig {
    pub path: String,
}

/// The shared account store and its secret backends.
#[derive(Debug, Clone, PartialEq, Eq)]
pub struct AccountConfig {
    pub selector: Option<String>,
    pub store_path: String,
    pub secrets_dir: String,
    pub secret_backend: AccountSecretBackend,
    pub secret_fallback: Option<AccountSecretBackend>,
}

/// The signer the runtime uses.
#[derive(Debug, Clone, PartialEq, Eq)]
pub struct SignerConfig {
    pub backend: SignerBackend,
}

/// Where the local replica lives.
#[derive(Debug, Clone, PartialEq, Eq)]
pub struct LocalConfig {
    pub root: String,
    pub replica_db_path: String,
    pub backups_dir: String,
    pub exports_dir: String,
}

/// The myc executable.
#[derive(Debug, Clone, PartialEq, Eq)]
pub struct MycConfig {
    pub executable: String,
}

/// Whether hyf runs, and which executable.
#[derive(Debug, Clone, PartialEq, Eq)]
pub struct HyfConfig {
    pub enabled: bool,
    pub executable: String,
}

/// The fully resolved runtime configuration.
#[derive(Debug, Clone, PartialEq, Eq)]
pub struct RuntimeConfig {
    pub output: OutputConfig,
    pub interaction: InteractionConfig,
    pub paths: PathsConfig,
    pub logging: LoggingConfig,
    pub account: AccountConfig,
    pub account_secret_contract: AccountSecretContractConfig,
    pub identity: IdentityConfig,
    pub signer: SignerConfig,
    pub relay: RelayConfig,
    pub local: LocalConfig,
    pub myc: MycConfig,
    pub hyf: HyfConfig,
    pub rpc: RpcConfig,
    pub capability_bindings: Vec<CapabilityBindingConfig>,
}

/// The signer choice: `--signer`, then `RADROOTS_SIGNER`, else local.
pub open spec fn signer_choice(
    arg: Option<Seq<char>>,
    env: Seq<(Seq<char>, Seq<char>)>,
    file: Seq<(Seq<char>, Seq<char>)>,
) -> Result<SignerBackend, Seq<char>> {
    match arg {
        Some(a) => signer_mode_result(a),
        None => match env_entry(env, file, one_key("RADROOTS_SIGNER"@)) {
            Some(e) => signer_mode_result(e.1),
            None => Ok(SignerBackend::Local),
        },
    }
}

/// The keys for the log stdout switch.
pub open spec fn log_stdout_keys() -> Seq<Seq<char>> {
    seq!["RADROOTS_CLI_LOGGING_STDOUT"@, "RADROOTS_LOG_STDOUT"@]
}

/// Whether logging goes to stdout.
pub open spec fn log_stdout_result(
    args: ConfigArgs,
    env: Seq<(Seq<char>, Seq<char>)>,
    file: Seq<(Seq<char>, Seq<char>)>,
) -> Result<bool, Seq<char>> {
    bool_pair_result(
        args.log_stdout,
        args.no_log_stdout,
        log_stdout_keys(),
        false,
        env,
        file,
        "--log-stdout"@,
        "--no-log-stdout"@,
    )
}

/// The first problem resolving the configuration, in the order the runtime checks them.
pub open spec fn config_error(
    args: ConfigArgs,
    env: Seq<(Seq<char>, Seq<char>)>,
    file: Seq<(Seq<char>, Seq<char>)>,
    user: Option<&CliConfigFile>,
    workspace: Option<&CliConfigFile>,
) -> Option<Seq<char>> {
    if secret_backend_choice(env, file) is Err {
        Some(secret_backend_choice(env, file)->Err_0)
    } else if secret_fallback_choice(env, file) is Err {
        Some(secret_fallback_choice(env, file)->Err_0)
    } else if output_format_choice(args.output_format, args.json, args.ndjson, env, file) is Err {
        Some(output_format_choice(args.output_format, args.json, args.ndjson, env, file)->Err_0)
    } else if (args.quiet && args.verbose) || (args.quiet && args.trace) || (args.verbose && args.trace) {
        Some("flags --quiet, --verbose, and --trace are mutually exclusive"@)
    } else if log_stdout_result(args, env, file) is Err {
        Some(log_stdout_result(args, env, file)->Err_0)
    } else if log_stdout_result(args, env, file)->Ok_0 && output_format_choice(
        args.output_format,
        args.json,
        args.ndjson,
        env,
        file,
    )->Ok_0 != OutputFormat::Human {
        Some(
            stdout_logging_error(
                output_format_choice(args.output_format, args.json, args.ndjson, env, file)->Ok_0,
            ),
        )
    } else if capability_bindings_result(file_bindings_of(user), file_bindings_of(workspace)) is Err {
        Some(capability_bindings_result(file_bindings_of(user), file_bindings_of(workspace))->Err_0)
    } else if signer_choice(opt_str_view(args.signer), env, file) is Err {
        Some(signer_choice(opt_str_view(args.signer), env, file)->Err_0)
    } else if relay_config_result(strings_view(args.relay@), env, file, user, workspace) is Err {
        Some(relay_config_result(strings_view(args.relay@), env, file, user, workspace)->Err_0)
    } else if hyf_enabled_result(args.hyf_enabled, args.no_hyf_enabled, env, file, user, workspace) is Err {
        Some(hyf_enabled_result(args.hyf_enabled, args.no_hyf_enabled, env, file, user, workspace)->Err_0)
    } else if rpc_config_result(env, file, user, workspace) is Err {
        Some(rpc_config_result(env, file, user, workspace)->Err_0)
    } else {
        None
    }
}

/// `a` when present, else the value of the first of `keys` in the environment, else `d`.
pub open spec fn arg_env_or(
    a: Option<Seq<char>>,
    env: Seq<(Seq<char>, Seq<char>)>,
    file: Seq<(Seq<char>, Seq<char>)>,
    keys: Seq<Seq<char>>,
    d: Seq<char>,
) -> Seq<char> {
    match a {
        Some(x) => x,
        None => match env_entry(env, file, keys) {
            Some(e) => e.1,
            None => d,
        },
    }
}

/// What every field of a successfully resolved configuration holds.
pub open spec fn config_fields_hold(
    c: RuntimeConfig,
    args: ConfigArgs,
    env: ProcessEnvironment,
    file: Seq<(Seq<char>, Seq<char>)>,
    paths: PathsConfig,
    user: Option<&CliConfigFile>,
    workspace: Option<&CliConfigFile>,
) -> bool {
    let e = env.pairs();
    let backend = match secret_backend_choice(e, file)->Ok_0 {
        Some(b) => b,
        None => AccountSecretBackend::HostVault,
    };
    let data = path_join(paths.app_data_root@, "replica"@);
    &&& c.output.format == output_format_choice(args.output_format, args.json, args.ndjson, e, file)->Ok_0
    &&& c.output.verbosity == (if args.quiet {
        Verbosity::Quiet
    } else if args.trace {
        Verbosity::Trace
    } else if args.verbose {
        Verbosity::Verbose
    } else {
        Verbosity::Normal
    })
    &&& c.output.color == !args.no_color
    &&& c.output.dry_run == args.dry_run
    &&& c.interaction.input_enabled == !args.no_input
    &&& c.interaction.assume_yes == args.yes
    &&& c.interaction.stdin_tty == env.stdin_tty
    &&& c.interaction.stdout_tty == env.stdout_tty
    &&& c.interaction.prompts_allowed == (!args.no_input && env.stdin_tty && env.stdout_tty)
    &&& c.interaction.confirmations_allowed == (!args.no_input && env.stdin_tty && env.stdout_tty
        && !args.yes)
    &&& c.paths.same_as(paths)
    &&& c.logging.filter@ == arg_env_or(
        opt_str_view(args.log_filter),
        e,
        file,
        seq!["RADROOTS_CLI_LOGGING_FILTER"@, "RADROOTS_LOG_FILTER"@],
        "info"@,
    )
    &&& opt_str_view(c.logging.directory) == Some(
        arg_env_or(
            opt_str_view(args.log_dir),
            e,
            file,
            seq!["RADROOTS_CLI_LOGGING_OUTPUT_DIR"@, "RADROOTS_LOG_DIR"@],
            paths.app_logs_root@,
        ),
    )
    &&& c.logging.stdout == log_stdout_result(args, e, file)->Ok_0
    &&& opt_str_view(c.account.selector) == match opt_str_view(args.account) {
        Some(a) => Some(a),
        None => match env_entry(e, file, one_key("RADROOTS_ACCOUNT"@)) {
            Some(x) => Some(x.1),
            None => None,
        },
    }
    &&& c.account.store_path@ == path_join(paths.shared_accounts_data_root@, "store.json"@)
    &&& c.account.secrets_dir@ == paths.shared_accounts_secrets_root@
    &&& c.account.secret_backend == backend
    &&& c.account.secret_fallback == match secret_fallback_choice(e, file)->Ok_0 {
        Some(f) => f,
        None => if backend == AccountSecretBackend::HostVault {
            Some(AccountSecretBackend::EncryptedFile)
        } else {
            None
        },
    }
    &&& c.account_secret_contract.default_backend@ == "host_vault"@
    &&& opt_str_view(c.account_secret_contract.default_fallback) == Some("encrypted_file"@)
    &&& strings_view(c.account_secret_contract.allowed_backends@) == seq![
        "host_vault"@,
        "encrypted_file"@,
        "memory"@,
    ]
    &&& opt_str_view(c.account_secret_contract.host_vault_policy) == Some("desktop"@)
    &&& c.account_secret_contract.uses_protected_store
    &&& c.identity.path@ == arg_env_or(
        opt_str_view(args.identity_path),
        e,
        file,
        one_key("RADROOTS_IDENTITY_PATH"@),
        paths.default_identity_path@,
    )
    &&& c.signer.backend == signer_choice(opt_str_view(args.signer), e, file)->Ok_0
    &&& c.relay.view_of() == relay_config_result(strings_view(args.relay@), e, file, user, workspace)->Ok_0
    &&& c.local.root@ == data
    &&& c.local.replica_db_path@ == path_join(data, "replica.sqlite"@)
    &&& c.local.backups_dir@ == path_join(data, "backups"@)
    &&& c.local.exports_dir@ == path_join(data, "exports"@)
    &&& c.myc.executable@ == arg_env_or(
        opt_str_view(args.myc_executable),
        e,
        file,
        one_key("RADROOTS_MYC_EXECUTABLE"@),
        "myc"@,
    )
    &&& c.hyf.enabled == hyf_enabled_result(args.hyf_enabled, args.no_hyf_enabled, e, file, user, workspace)->Ok_0
    &&& c.hyf.executable@ == hyf_executable_result(opt_str_view(args.hyf_executable), e, file, user, workspace)
    &&& (c.rpc.url@, opt_str_view(c.rpc.bridge_bearer_token)) == rpc_config_result(e, file, user, workspace)->Ok_0
    &&& bindings_view(c.capability_bindings@) == capability_bindings_result(
        file_bindings_of(user),
        file_bindings_of(workspace),
    )->Ok_0
}

fn arg_or_env(
    a: &Option<String>,
    env: &ProcessEnvironment,
    env_file: &EnvFileValues,
    keys: &[&str],
) -> (r: Option<String>)
    ensures
        opt_str_view(r) == match opt_str_view(*a) {
            Some(x) => Some(x),
            None => match env_entry(env.pairs(), env_file.pairs(), keys_view(keys@)) {
                Some(e) => Some(e.1),
                None => None,
            },
        },
{
    match a {
        Some(x) => Some(x.clone()),
        None => env_value(env, env_file, keys),
    }
}

impl RuntimeConfig {
    /// Resolves the runtime configuration from flags, the process environment, an env file,
    /// the resolved paths and the parsed user and workspace config files.
    pub fn resolve_with_env_file(
        args: &ConfigArgs,
        env: &ProcessEnvironment,
        env_file: &EnvFileValues,
        paths: &PathsConfig,
        user_config: Option<&CliConfigFile>,
        workspace_config: Option<&CliConfigFile>,
    ) -> (r: Result<RuntimeConfig, RuntimeError>)
        ensures
            match config_error(*args, env.pairs(), env_file.pairs(), user_config, workspace_config) {
                Some(m) => is_config_err(r, m),
                None => r matches Ok(c) && config_fields_hold(
                    c,
                    *args,
                    *env,
                    env_file.pairs(),
                    *paths,
                    user_config,
                    workspace_config,
                ),
            },
    {
        let backend_choice = match resolve_account_secret_backend(env, env_file) {
            Ok(b) => b,
            Err(e) => {
                return Err(e);
            },
        };
        let account_secret_backend = match backend_choice {
            Some(b) => b,
            None => AccountSecretBackend::HostVault,
        };
        let fallback_choice = match resolve_account_secret_fallback(env, env_file) {
            Ok(f) => f,
            Err(e) => {
                return Err(e);
            },
        };
        let account_secret_fallback = match fallback_choice {
            Some(f) => f,
            None => if account_secret_backend == AccountSecretBackend::HostVault {
                Some(AccountSecretBackend::EncryptedFile)
            } else {
                None
            },
        };
        let format = match resolve_output_format(args.output_format, args.json, args.ndjson, env, env_file) {
            Ok(f) => f,
            Err(e) => {
                return Err(e);
            },
        };
        let verbosity = match resolve_verbosity(args.quiet, args.verbose, args.trace) {
            Ok(v) => v,
            Err(e) => {
                return Err(e);
            },
        };
        let output = OutputConfig { format, verbosity, color: !args.no_color, dry_run: args.dry_run };
        let filter_keys: [&str; 2] = ["RADROOTS_CLI_LOGGING_FILTER", "RADROOTS_LOG_FILTER"];
        let dir_keys: [&str; 2] = ["RADROOTS_CLI_LOGGING_OUTPUT_DIR", "RADROOTS_LOG_DIR"];
        let stdout_keys: [&str; 2] = ["RADROOTS_CLI_LOGGING_STDOUT", "RADROOTS_LOG_STDOUT"];
        let account_keys: [&str; 1] = ["RADROOTS_ACCOUNT"];
        let identity_keys: [&str; 1] = ["RADROOTS_IDENTITY_PATH"];
        let signer_keys: [&str; 1] = ["RADROOTS_SIGNER"];
        let myc_keys: [&str; 1] = ["RADROOTS_MYC_EXECUTABLE"];
        proof {
            assert(keys_view(filter_keys@) =~= seq!["RADROOTS_CLI_LOGGING_FILTER"@, "RADROOTS_LOG_FILTER"@]);
            assert(keys_view(dir_keys@) =~= seq!["RADROOTS_CLI_LOGGING_OUTPUT_DIR"@, "RADROOTS_LOG_DIR"@]);
            assert(keys_view(stdout_keys@) =~= log_stdout_keys());
            assert(keys_view(account_keys@) =~= one_key("RADROOTS_ACCOUNT"@));
            assert(keys_view(identity_keys@) =~= one_key("RADROOTS_IDENTITY_PATH"@));
            assert(keys_view(signer_keys@) =~= one_key("RADROOTS_SIGNER"@));
            assert(keys_view(myc_keys@) =~= one_key("RADROOTS_MYC_EXECUTABLE"@));
        }
        let stdout = match resolve_bool_pair(
            args.log_stdout,
            args.no_log_stdout,
            &stdout_keys,
            false,
            env,
            env_file,
            "--log-stdout",
            "--no-log-stdout",
        ) {
            Ok(b) => b,
            Err(e) => {
                return Err(e);
            },
        };
        let filter = match arg_or_env(&args.log_filter, env, env_file, &filter_keys) {
            Some(f) => f,
            None => owned("info"),
        };
        let directory = match arg_or_env(&args.log_dir, env, env_file, &dir_keys) {
            Some(d) => d,
            None => paths.app_logs_root.clone(),
        };
        let logging = LoggingConfig { filter, directory: Some(directory), stdout };
        match validate_logging_output_contract(&output, &logging) {
            Ok(()) => {},
            Err(e) => {
                return Err(e);
            },
        }
        let capability_bindings = match resolve_capability_bindings(user_config, workspace_config) {
            Ok(b) => b,
            Err(e) => {
                return Err(e);
            },
        };
        let interaction = resolve_interaction_config(args.no_input, args.yes, env.stdin_tty, env.stdout_tty);
        let account = AccountConfig {
            selector: arg_or_env(&args.account, env, env_file, &account_keys),
            store_path: join_path(paths.shared_accounts_data_root.as_str(), "store.json"),
            secrets_dir: paths.shared_accounts_secrets_root.clone(),
            secret_backend: account_secret_backend,
            secret_fallback: account_secret_fallback,
        };
        let mut allowed_backends: Vec<String> = Vec::new();
        allowed_backends.push(owned("host_vault"));
        allowed_backends.push(owned("encrypted_file"));
        allowed_backends.push(owned("memory"));
        proof {
            assert(strings_view(allowed_backends@) =~= seq!["host_vault"@, "encrypted_file"@, "memory"@]);
        }
        let account_secret_contract = AccountSecretContractConfig {
            default_backend: owned("host_vault"),
            default_fallback: Some(owned("encrypted_file")),
            allowed_backends,
            host_vault_policy: Some(owned("desktop")),
            uses_protected_store: true,
        };
        let identity = IdentityConfig {
            path: match arg_or_env(&args.identity_path, env, env_file, &identity_keys) {
                Some(p) => p,
                None => paths.default_identity_path.clone(),
            },
        };
        let signer_text = arg_or_env(&args.signer, env, env_file, &signer_keys);
        let backend = match signer_text {
            Some(t) => match parse_signer_mode(t) {
                Ok(b) => b,
                Err(e) => {
                    return Err(e);
                },
            },
            None => SignerBackend::Local,
        };
        let relay = match resolve_relay_config(&args.relay, env, env_file, user_config, workspace_config) {
            Ok(r) => r,
            Err(e) => {
                return Err(e);
            },
        };
        let root = join_path(paths.app_data_root.as_str(), "replica");
        let local = LocalConfig {
            replica_db_path: join_path(root.as_str(), "replica.sqlite"),
            backups_dir: join_path(root.as_str(), "backups"),
            exports_dir: join_path(root.as_str(), "exports"),
            root,
        };
        let myc = MycConfig {
            executable: match arg_or_env(&args.myc_executable, env, env_file, &myc_keys) {
                Some(x) => x,
                None => owned("myc"),
            },
        };
        let enabled = match resolve_hyf_enabled(
            args.hyf_enabled,
            args.no_hyf_enabled,
            env,
            env_file,
            user_config,
            workspace_config,
        ) {
            Ok(b) => b,
            Err(e) => {
                return Err(e);
            },
        };
        let hyf = HyfConfig {
            enabled,
            executable: resolve_hyf_executable(&args.hyf_executable, env, env_file, user_config, workspace_config),
        };
        let rpc = match resolve_rpc_config(env, env_file, user_config, workspace_config) {
            Ok(r) => r,
            Err(e) => {
                return Err(e);
            },
        };
        Ok(RuntimeConfig {
            output,
            interaction,
            paths: paths.duplicate(),
            logging,
            account,
            account_secret_contract,
            identity,
            signer: SignerConfig { backend },
            relay,
            local,
            myc,
            hyf,
            rpc,
            capability_bindings,
        })
    }
}

/// The first binding for capability `id` in `all`.
pub open spec fn first_binding_for(all: Seq<BindingView>, id: Seq<char>) -> Option<BindingView>
    decreases all.len(),
{
    if all.len() == 0 {
        None
    } else if all[0].capability_id == id {
        Some(all[0])
    } else {
        first_binding_for(all.drop_first(), id)
    }
}

/// How one known capability is bound, as `inspect_capability_bindings` reports it.
#[derive(Debug, Clone, PartialEq, Eq)]
pub struct CapabilityBindingInspection {
    pub capability_id: String,
    pub provider_runtime_id: String,
    pub binding_model: String,
    pub state: CapabilityBindingInspectionState,
    pub source: String,
    pub target_kind: Option<String>,
    pub target: Option<String>,
    pub managed_account_ref: Option<String>,
    pub signer_session_ref: Option<String>,
}

/// The plain values of an inspection.
pub struct InspectionView {
    pub capability_id: Seq<char>,
    pub provider_runtime_id: Seq<char>,
    pub binding_model: Seq<char>,
    pub state: CapabilityBindingInspectionState,
    pub source: Seq<char>,
    pub target_kind: Option<Seq<char>>,
    pub target: Option<Seq<char>>,
    pub managed_account_ref: Option<Seq<char>>,
    pub signer_session_ref: Option<Seq<char>>,
}

impl CapabilityBindingInspection {
    pub open spec fn view_of(self) -> InspectionView {
        InspectionView {
            capability_id: self.capability_id@,
            provider_runtime_id: self.provider_runtime_id@,
            binding_model: self.binding_model@,
            state: self.state,
            source: self.source@,
            target_kind: opt_str_view(self.target_kind),
            target: opt_str_view(self.target),
            managed_account_ref: opt_str_view(self.managed_account_ref),
            signer_session_ref: opt_str_view(self.signer_session_ref),
        }
    }
}

/// The inspection of known capability `id`: its first binding in `bindings` when there is one,
/// else disabled (the remote signer under a local signer, hyf when disabled) or not configured.
pub open spec fn inspection_for(
    bindings: Seq<BindingView>,
    signer: SignerBackend,
    hyf_enabled: bool,
    id: Seq<char>,
) -> InspectionView {
    match first_binding_for(bindings, id) {
        Some(b) => InspectionView {
            capability_id: b.capability_id,
            provider_runtime_id: b.provider_runtime_id,
            binding_model: b.binding_model,
            state: CapabilityBindingInspectionState::Configured,
            source: b.source.name(),
            target_kind: Some(b.target_kind.name()),
            target: Some(b.target),
            managed_account_ref: b.managed_account_ref,
            signer_session_ref: b.signer_session_ref,
        },
        None => {
            let (state, source) = if id == "signer.remote_nip46"@ && signer == SignerBackend::Local {
                (CapabilityBindingInspectionState::Disabled, "independent local signer mode"@)
            } else if id == "inference.hyf_stdio"@ && !hyf_enabled {
                (CapabilityBindingInspectionState::Disabled, "hyf disabled by config"@)
            } else {
                (CapabilityBindingInspectionState::NotConfigured, "no explicit capability binding"@)
            };
            let (provider, model) = match binding_spec(id) {
                Some(p) => p,
                None => (seq![], seq![]),
            };
            InspectionView {
                capability_id: id,
                provider_runtime_id: provider,
                binding_model: model,
                state,
                source,
                target_kind: None,
                target: None,
                managed_account_ref: None,
                signer_session_ref: None,
            }
        },
    }
}

fn first_binding_index(v: &Vec<CapabilityBindingConfig>, id: &str) -> (r: Option<usize>)
    ensures
        match first_binding_for(bindings_view(v@), id@) {
            Some(b) => r matches Some(i) && i < v@.len() && v@[i as int].view_of() == b,
            None => r is None,
        },
{
    let mut i: usize = 0;
    proof {
        assert(v@.skip(0) =~= v@);
    }
    while i < v.len()
        invariant
            i <= v@.len(),
            first_binding_for(bindings_view(v@), id@) == first_binding_for(
                bindings_view(v@.skip(i as int)),
                id@,
            ),
        decreases v@.len() - i,
    {
        proof {
            assert(bindings_view(v@.skip(i as int)).drop_first() =~= bindings_view(v@.skip(i + 1)));
        }
        if str_eq(v[i].capability_id.as_str(), id) {
            return Some(i);
        }
        i += 1;
    }
    None
}

impl RuntimeConfig {
    /// The first configured binding for `capability_id`.
    pub fn capability_binding(&self, capability_id: &str) -> (r: Option<&CapabilityBindingConfig>)
        ensures
            match first_binding_for(bindings_view(self.capability_bindings@), capability_id@) {
                Some(b) => r matches Some(x) && x.view_of() == b,
                None => r is None,
            },
    {
        match first_binding_index(&self.capability_bindings, capability_id) {
            Some(i) => Some(&self.capability_bindings[i]),
            None => None,
        }
    }

    fn inspect_one(&self, spec: CapabilityBindingSpec) -> (r: CapabilityBindingInspection)
        requires
            binding_spec(spec.capability_id@) == Some((spec.provider_runtime_id@, spec.binding_model@)),
        ensures
            r.view_of() == inspection_for(
                bindings_view(self.capability_bindings@),
                self.signer.backend,
                self.hyf.enabled,
                spec.capability_id@,
            ),
    {
        match self.capability_binding(spec.capability_id) {
            Some(binding) => CapabilityBindingInspection {
                capability_id: binding.capability_id.clone(),
                provider_runtime_id: binding.provider_runtime_id.clone(),
                binding_model: binding.binding_model.clone(),
                state: CapabilityBindingInspectionState::Configured,
                source: owned(binding.source.as_str()),
                target_kind: Some(owned(binding.target_kind.as_str())),
                target: Some(binding.target.clone()),
                managed_account_ref: clone_opt_string(&binding.managed_account_ref),
                signer_session_ref: clone_opt_string(&binding.signer_session_ref),
            },
            None => {
                let (state, source) = if str_eq(spec.capability_id, "signer.remote_nip46")
                    && self.signer.backend == SignerBackend::Local {
                    (CapabilityBindingInspectionState::Disabled, owned("independent local signer mode"))
                } else if str_eq(spec.capability_id, "inference.hyf_stdio") && !self.hyf.enabled {
                    (CapabilityBindingInspectionState::Disabled, owned("hyf disabled by config"))
                } else {
                    (CapabilityBindingInspectionState::NotConfigured, owned("no explicit capability binding"))
                };
                CapabilityBindingInspection {
                    capability_id: owned(spec.capability_id),
                    provider_runtime_id: owned(spec.provider_runtime_id),
                    binding_model: owned(spec.binding_model),
                    state,
                    source,
                    target_kind: None,
                    target: None,
                    managed_account_ref: None,
                    signer_session_ref: None,
                }
            },
        }
    }

    /// One inspection per known capability, in the known order.
    pub fn inspect_capability_bindings(&self) -> (r: Vec<CapabilityBindingInspection>)
        ensures
            r@.len() == known_capabilities().len(),
            forall|i: int|
                0 <= i < r@.len() ==> #[trigger] r@[i].view_of() == inspection_for(
                    bindings_view(self.capability_bindings@),
                    self.signer.backend,
                    self.hyf.enabled,
                    known_capabilities()[i],
                ),
    {
        let ids: [&str; 4] = ["signer.remote_nip46", "write_plane.trade_jsonrpc", "workflow.trade", "inference.hyf_stdio"];
        let mut r: Vec<CapabilityBindingInspection> = Vec::new();
        proof {
            reveal_strlit("signer.remote_nip46");
            reveal_strlit("write_plane.trade_jsonrpc");
            reveal_strlit("workflow.trade");
            reveal_strlit("inference.hyf_stdio");
        }
        for k in 0..4usize
            invariant
                r@.len() == k,
                ids@.len() == 4,
                forall|j: int| 0 <= j < 4 ==> #[trigger] ids@[j]@ == known_capabilities()[j],
                forall|i: int|
                    0 <= i < k ==> #[trigger] r@[i].view_of() == inspection_for(
                        bindings_view(self.capability_bindings@),
                        self.signer.backend,
                        self.hyf.enabled,
                        known_capabilities()[i],
                    ),
        {
            let spec = capability_binding_spec(ids[k]);
            match spec {
                Some(sp) => {
                    r.push(self.inspect_one(sp));
                },
                None => {
                    proof {
                        assert(known_capabilities()[k as int] == ids@[k as int]@);
                        assert(false);
                    }
                },
            }
        }
        r
    }
}

} // verus!
