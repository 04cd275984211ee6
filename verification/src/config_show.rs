use vstd::prelude::*;

use crate::bindings::opt_str_view;
use crate::find::{join_strings, join_with};
use crate::render::{
    Table, cells_view, context_text, nl, pairs_text, present_absent, render_pairs, render_table, row,
    rows_view, table_text, write_context, write_line, yes_no,
};
use crate::render_views::{opt_line, push_text_row, text_row, write_line2, write_opt_line, yes_no_text};
use crate::text::{append_str, concat3, decimal, decimal_string, owned, push_char, strings_view};

verus! {

/// The output settings in effect.
#[derive(Debug, Clone, PartialEq, Eq)]
pub struct ConfigOutputView {
    pub format: String,
    pub verbosity: String,
    pub color: bool,
    pub dry_run: bool,
}

/// The interaction settings in effect.
#[derive(Debug, Clone, PartialEq, Eq)]
pub struct ConfigInteractionView {
    pub input_enabled: bool,
    pub assume_yes: bool,
    pub stdin_tty: bool,
    pub stdout_tty: bool,
    pub prompts_allowed: bool,
    pub confirmations_allowed: bool,
}

/// Which configuration files were found.
#[derive(Debug, Clone, PartialEq, Eq)]
pub struct ConfigFilesView {
    pub user_present: bool,
    pub workspace_present: bool,
}

/// The runtime roots and namespaces in effect.
#[derive(Debug, Clone, PartialEq, Eq)]
pub struct ConfigPathsView {
    pub profile: String,
    pub allowed_profiles: Vec<String>,
    pub app_namespace: String,
    pub shared_accounts_namespace: String,
    pub shared_identities_namespace: String,
    pub app_config_path: String,
    pub workspace_config_path: String,
    pub app_data_root: String,
    pub app_logs_root: String,
    pub shared_accounts_data_root: String,
    pub shared_accounts_secrets_root: String,
    pub default_identity_path: String,
}

/// The logging settings in effect.
#[derive(Debug, Clone, PartialEq, Eq)]
pub struct ConfigLoggingView {
    pub filter: String,
    pub stdout: bool,
    pub directory: Option<String>,
    pub current_file: Option<String>,
}

/// The account secret backend: what the contract allows, what is configured, what is in use.
#[derive(Debug, Clone, PartialEq, Eq)]
pub struct ConfigSecretBackendView {
    pub contract_default_backend: String,
    pub contract_default_fallback: Option<String>,
    pub configured_primary: String,
    pub configured_fallback: Option<String>,
    pub allowed_backends: Vec<String>,
    pub host_vault_policy: Option<String>,
    pub uses_protected_store: bool,
    pub state: String,
    pub active_backend: Option<String>,
    pub used_fallback: bool,
    pub reason: Option<String>,
}

/// The account settings in effect.
#[derive(Debug, Clone, PartialEq, Eq)]
pub struct ConfigAccountView {
    pub selector: Option<String>,
    pub store_path: String,
    pub secrets_dir: String,
    pub identity_path: String,
    pub secret_backend: ConfigSecretBackendView,
}

/// A provider resolved for the write plane.
#[derive(Debug, Clone, PartialEq, Eq)]
pub struct ConfigWritePlaneView {
    pub provider_runtime_id: String,
    pub binding_model: String,
    pub state: String,
    pub provenance: String,
    pub source: String,
    pub target_kind: Option<String>,
    pub target: Option<String>,
    pub detail: String,
    pub bridge_auth_configured: bool,
}

/// The provider resolved for workflows.
#[derive(Debug, Clone, PartialEq, Eq)]
pub struct ConfigWorkflowView {
    pub provider_runtime_id: String,
    pub binding_model: String,
    pub state: String,
    pub provenance: String,
    pub source: String,
    pub target_kind: Option<String>,
    pub target: Option<String>,
    pub hyf_helper_state: String,
    pub hyf_helper_detail: String,
}

/// The provider resolved for the hyf inference service.
#[derive(Debug, Clone, PartialEq, Eq)]
pub struct ConfigHyfProviderView {
    pub provider_runtime_id: String,
    pub binding_model: String,
    pub state: String,
    pub provenance: String,
    pub source: String,
    pub target_kind: Option<String>,
    pub target: Option<String>,
    pub executable: String,
    pub reason: Option<String>,
}

/// One capability binding as it stands at run time.
#[derive(Debug, Clone, PartialEq, Eq)]
pub struct CapabilityBindingRuntimeView {
    pub capability_id: String,
    pub provider_runtime_id: String,
    pub state: String,
    pub target_kind: Option<String>,
    pub target: Option<String>,
    pub managed_account_ref: Option<String>,
    pub signer_session_ref: Option<String>,
}

/// One provider as resolved for a capability.
#[derive(Debug, Clone, PartialEq, Eq)]
pub struct ResolvedProviderView {
    pub capability_id: String,
    pub provider_runtime_id: String,
    pub state: String,
    pub provenance: String,
    pub target_kind: Option<String>,
    pub target: Option<String>,
}

/// The effective configuration, as `config show` reports it.
#[derive(Debug, Clone, PartialEq, Eq)]
pub struct ConfigShowView {
    pub output: ConfigOutputView,
    pub interaction: ConfigInteractionView,
    pub config_files: ConfigFilesView,
    pub paths: ConfigPathsView,
    pub logging: ConfigLoggingView,
    pub account: ConfigAccountView,
    pub signer_mode: String,
    pub relay_count: usize,
    pub relay_publish_policy: String,
    pub relay_source: String,
    pub local_root: String,
    pub local_replica_db_path: String,
    pub local_backups_dir: String,
    pub local_exports_dir: String,
    pub myc_executable: String,
    pub write_plane: ConfigWritePlaneView,
    pub workflow: ConfigWorkflowView,
    pub hyf_enabled: bool,
    pub hyf_executable: String,
    pub hyf_provider: ConfigHyfProviderView,
    pub rpc_url: String,
    pub rpc_bridge_auth_configured: bool,
    pub capability_bindings: Vec<CapabilityBindingRuntimeView>,
    pub resolved_providers: Vec<ResolvedProviderView>,
    pub source: String,
}

/// A runtime target: `kind target`, the target alone without a kind, nothing without a target.
pub open spec fn target_text(kind: Option<Seq<char>>, target: Option<Seq<char>>) -> Seq<char> {
    match target {
        None => seq![],
        Some(t) => match kind {
            Some(k) => k + " "@ + t,
            None => t,
        },
    }
}

/// Formats a runtime target.
pub fn format_runtime_target(target_kind: &Option<String>, target: &Option<String>) -> (r: String)
    ensures
        r@ == target_text(opt_str_view(*target_kind), opt_str_view(*target)),
{
    match target {
        None => String::new(),
        Some(t) => match target_kind {
            Some(k) => concat3(k.as_str(), " ", t.as_str()),
            None => t.clone(),
        },
    }
}

/// A binding's target, followed by the account and the signer session it is tied to; nothing
/// when it has no target.
pub open spec fn binding_target_text(b: CapabilityBindingRuntimeView) -> Seq<char> {
    let t = target_text(opt_str_view(b.target_kind), opt_str_view(b.target));
    if t.len() == 0 {
        t
    } else {
        t + (match b.managed_account_ref {
            Some(a) => " · account "@ + a@,
            None => seq![],
        }) + (match b.signer_session_ref {
            Some(s) => " · session "@ + s@,
            None => seq![],
        })
    }
}

/// Formats a binding's target.
pub fn format_capability_binding_target(binding: &CapabilityBindingRuntimeView) -> (r: String)
    ensures
        r@ == binding_target_text(*binding),
{
    let mut rendered = format_runtime_target(&binding.target_kind, &binding.target);
    if rendered.as_str().is_empty() {
        return rendered;
    }
    let ghost t = rendered@;
    if let Some(account_ref) = &binding.managed_account_ref {
        append_str(&mut rendered, " · account ");
        append_str(&mut rendered, account_ref.as_str());
    }
    let ghost with_account = rendered@;
    if let Some(session_ref) = &binding.signer_session_ref {
        append_str(&mut rendered, " · session ");
        append_str(&mut rendered, session_ref.as_str());
    }
    proof {
        let b = *binding;
        let a: Seq<char> = match b.managed_account_ref {
            Some(a) => " · account "@ + a@,
            None => seq![],
        };
        let s: Seq<char> = match b.signer_session_ref {
            Some(s) => " · session "@ + s@,
            None => seq![],
        };
        assert(with_account =~= t + a);
        assert(rendered@ =~= t + a + s);
    }
    rendered
}

/// `present` or `absent`.
pub open spec fn present_absent_text(b: bool) -> Seq<char> {
    if b { "present"@ } else { "absent"@ }
}

/// The rows of the `output` pairs.
pub open spec fn output_rows(v: ConfigShowView) -> Seq<(Seq<char>, Seq<char>)> {
    seq![
        ("format"@, v.output.format@),
        ("verbosity"@, v.output.verbosity@),
        ("color"@, yes_no_text(v.output.color)),
        ("dry run"@, yes_no_text(v.output.dry_run)),
    ]
}

/// The rows of the `interaction` pairs.
pub open spec fn interaction_rows(v: ConfigShowView) -> Seq<(Seq<char>, Seq<char>)> {
    let i = v.interaction;
    seq![
        ("input enabled"@, yes_no_text(i.input_enabled)),
        ("assume yes"@, yes_no_text(i.assume_yes)),
        ("stdin tty"@, yes_no_text(i.stdin_tty)),
        ("stdout tty"@, yes_no_text(i.stdout_tty)),
        ("prompts allowed"@, yes_no_text(i.prompts_allowed)),
        ("confirmations allowed"@, yes_no_text(i.confirmations_allowed)),
    ]
}

/// The rows of the `runtime roots` pairs.
pub open spec fn roots_rows(v: ConfigShowView) -> Seq<(Seq<char>, Seq<char>)> {
    let p = v.paths;
    seq![
        ("profile"@, p.profile@),
        ("allowed profiles"@, join_with(strings_view(p.allowed_profiles@), ", "@)),
        ("app namespace"@, p.app_namespace@),
        ("shared accounts namespace"@, p.shared_accounts_namespace@),
        ("shared identities namespace"@, p.shared_identities_namespace@),
        ("app config"@, present_absent_text(v.config_files.user_present) + " · "@ + p.app_config_path@),
        (
            "workspace config"@,
            present_absent_text(v.config_files.workspace_present) + " · "@ + p.workspace_config_path@,
        ),
        ("app data root"@, p.app_data_root@),
        ("app logs root"@, p.app_logs_root@),
        ("shared accounts data"@, p.shared_accounts_data_root@),
        ("shared accounts secrets"@, p.shared_accounts_secrets_root@),
        ("default identity path"@, p.default_identity_path@),
    ]
}

/// The rows of the `logging` pairs.
pub open spec fn logging_rows(v: ConfigShowView) -> Seq<(Seq<char>, Seq<char>)> {
    seq![("filter"@, v.logging.filter@), ("stdout"@, yes_no_text(v.logging.stdout))]
        + text_row("directory"@, opt_str_view(v.logging.directory))
        + text_row("file"@, opt_str_view(v.logging.current_file))
}

/// The rows of the `account` pairs; the selector, when there is one, comes first.
pub open spec fn account_rows(v: ConfigShowView) -> Seq<(Seq<char>, Seq<char>)> {
    let a = v.account;
    let b = a.secret_backend;
    text_row("selector"@, opt_str_view(a.selector)) + seq![
        ("store path"@, a.store_path@),
        ("secrets dir"@, a.secrets_dir@),
        ("contract default secret backend"@, b.contract_default_backend@),
        ("configured secret backend"@, b.configured_primary@),
        ("identity path"@, a.identity_path@),
    ] + text_row("contract default fallback"@, opt_str_view(b.contract_default_fallback)) + text_row(
        "configured secret fallback"@,
        opt_str_view(b.configured_fallback),
    ) + seq![("allowed secret backends"@, join_with(strings_view(b.allowed_backends@), ", "@))]
        + text_row("host vault policy"@, opt_str_view(b.host_vault_policy)) + seq![
        ("uses protected store"@, yes_no_text(b.uses_protected_store)),
        ("secret status"@, b.state@),
    ] + text_row("active secret backend"@, opt_str_view(b.active_backend)) + seq![
        ("used secret fallback"@, yes_no_text(b.used_fallback)),
    ]
}

/// The settings part: output, interaction and runtime roots.
pub open spec fn settings_text(v: ConfigShowView) -> Seq<char> {
    context_text("config · effective"@) + pairs_text("output"@, output_rows(v)) + pairs_text(
        "interaction"@,
        interaction_rows(v),
    ) + pairs_text("runtime roots"@, roots_rows(v))
}

/// The logging and account part.
pub open spec fn account_text(v: ConfigShowView) -> Seq<char> {
    pairs_text("logging"@, logging_rows(v)) + pairs_text("account"@, account_rows(v)) + opt_line(
        "account secret backend reason: "@,
        opt_str_view(v.account.secret_backend.reason),
    )
}

fn output_pair_rows(v: &ConfigShowView) -> (r: Vec<(String, String)>)
    ensures
        rows_view(r@) == output_rows(*v),
{
    let mut rows: Vec<(String, String)> = Vec::new();
    rows.push(row("format", v.output.format.clone()));
    rows.push(row("verbosity", v.output.verbosity.clone()));
    rows.push(row("color", owned(yes_no(v.output.color))));
    rows.push(row("dry run", owned(yes_no(v.output.dry_run))));
    proof {
        assert(rows_view(rows@) =~= output_rows(*v));
    }
    rows
}

fn interaction_pair_rows(v: &ConfigShowView) -> (r: Vec<(String, String)>)
    ensures
        rows_view(r@) == interaction_rows(*v),
{
    let i = &v.interaction;
    let mut rows: Vec<(String, String)> = Vec::new();
    rows.push(row("input enabled", owned(yes_no(i.input_enabled))));
    rows.push(row("assume yes", owned(yes_no(i.assume_yes))));
    rows.push(row("stdin tty", owned(yes_no(i.stdin_tty))));
    rows.push(row("stdout tty", owned(yes_no(i.stdout_tty))));
    rows.push(row("prompts allowed", owned(yes_no(i.prompts_allowed))));
    rows.push(row("confirmations allowed", owned(yes_no(i.confirmations_allowed))));
    proof {
        assert(rows_view(rows@) =~= interaction_rows(*v));
    }
    rows
}

fn roots_pair_rows(v: &ConfigShowView) -> (r: Vec<(String, String)>)
    ensures
        rows_view(r@) == roots_rows(*v),
{
    let p = &v.paths;
    let user_config = concat3(present_absent(v.config_files.user_present), " · ", p.app_config_path.as_str());
    let workspace_config = concat3(
        present_absent(v.config_files.workspace_present),
        " · ",
        p.workspace_config_path.as_str(),
    );
    let mut rows: Vec<(String, String)> = Vec::new();
    rows.push(row("profile", p.profile.clone()));
    rows.push(row("allowed profiles", join_strings(&p.allowed_profiles, ", ")));
    rows.push(row("app namespace", p.app_namespace.clone()));
    rows.push(row("shared accounts namespace", p.shared_accounts_namespace.clone()));
    rows.push(row("shared identities namespace", p.shared_identities_namespace.clone()));
    rows.push(row("app config", user_config));
    rows.push(row("workspace config", workspace_config));
    rows.push(row("app data root", p.app_data_root.clone()));
    rows.push(row("app logs root", p.app_logs_root.clone()));
    rows.push(row("shared accounts data", p.shared_accounts_data_root.clone()));
    rows.push(row("shared accounts secrets", p.shared_accounts_secrets_root.clone()));
    rows.push(row("default identity path", p.default_identity_path.clone()));
    proof {
        assert(rows_view(rows@) =~= roots_rows(*v));
    }
    rows
}

fn logging_pair_rows(v: &ConfigShowView) -> (r: Vec<(String, String)>)
    ensures
        rows_view(r@) == logging_rows(*v),
{
    let mut rows: Vec<(String, String)> = Vec::new();
    rows.push(row("filter", v.logging.filter.clone()));
    rows.push(row("stdout", owned(yes_no(v.logging.stdout))));
    let ghost base = rows_view(rows@);
    push_text_row(&mut rows, "directory", &v.logging.directory);
    push_text_row(&mut rows, "file", &v.logging.current_file);
    proof {
        assert(base =~= seq![("filter"@, v.logging.filter@), ("stdout"@, yes_no_text(v.logging.stdout))]);
        assert(rows_view(rows@) =~= logging_rows(*v));
    }
    rows
}

fn account_pair_rows(v: &ConfigShowView) -> (r: Vec<(String, String)>)
    ensures
        rows_view(r@) == account_rows(*v),
{
    let a = &v.account;
    let b = &a.secret_backend;
    let mut rows: Vec<(String, String)> = Vec::new();
    push_text_row(&mut rows, "selector", &a.selector);
    let ghost s0 = rows_view(rows@);
    rows.push(row("store path", a.store_path.clone()));
    rows.push(row("secrets dir", a.secrets_dir.clone()));
    rows.push(row("contract default secret backend", b.contract_default_backend.clone()));
    rows.push(row("configured secret backend", b.configured_primary.clone()));
    rows.push(row("identity path", a.identity_path.clone()));
    let ghost s1 = rows_view(rows@);
    push_text_row(&mut rows, "contract default fallback", &b.contract_default_fallback);
    push_text_row(&mut rows, "configured secret fallback", &b.configured_fallback);
    let ghost s2 = rows_view(rows@);
    rows.push(row("allowed secret backends", join_strings(&b.allowed_backends, ", ")));
    let ghost s3 = rows_view(rows@);
    push_text_row(&mut rows, "host vault policy", &b.host_vault_policy);
    let ghost s4 = rows_view(rows@);
    rows.push(row("uses protected store", owned(yes_no(b.uses_protected_store))));
    rows.push(row("secret status", b.state.clone()));
    let ghost s5 = rows_view(rows@);
    push_text_row(&mut rows, "active secret backend", &b.active_backend);
    let ghost s6 = rows_view(rows@);
    rows.push(row("used secret fallback", owned(yes_no(b.used_fallback))));
    proof {
        let av = v.account;
        let bv = av.secret_backend;
        assert(s1 =~= s0 + seq![
            ("store path"@, av.store_path@),
            ("secrets dir"@, av.secrets_dir@),
            ("contract default secret backend"@, bv.contract_default_backend@),
            ("configured secret backend"@, bv.configured_primary@),
            ("identity path"@, av.identity_path@),
        ]);
        assert(s3 =~= s2 + seq![("allowed secret backends"@, join_with(strings_view(bv.allowed_backends@), ", "@))]);
        assert(s5 =~= s4 + seq![
            ("uses protected store"@, yes_no_text(bv.uses_protected_store)),
            ("secret status"@, bv.state@),
        ]);
        assert(rows_view(rows@) =~= s6 + seq![("used secret fallback"@, yes_no_text(bv.used_fallback))]);
        assert(rows_view(rows@) =~= account_rows(*v));
    }
    rows
}

/// Appends the settings part.
fn render_settings(out: &mut String, v: &ConfigShowView)
    ensures
        final(out)@ == old(out)@ + settings_text(*v),
{
    let ghost start = out@;
    write_context(out, "config · effective");
    let rows = output_pair_rows(v);
    render_pairs(out, "output", &rows);
    let rows = interaction_pair_rows(v);
    render_pairs(out, "interaction", &rows);
    let rows = roots_pair_rows(v);
    render_pairs(out, "runtime roots", &rows);
    proof {
        assert(out@ =~= start + settings_text(*v));
    }
}

/// Appends the logging and account part.
fn render_account_part(out: &mut String, v: &ConfigShowView)
    ensures
        final(out)@ == old(out)@ + account_text(*v),
{
    let ghost start = out@;
    let rows = logging_pair_rows(v);
    render_pairs(out, "logging", &rows);
    let rows = account_pair_rows(v);
    render_pairs(out, "account", &rows);
    write_opt_line(out, "account secret backend reason: ", &v.account.secret_backend.reason);
    proof {
        assert(out@ =~= start + account_text(*v));
    }
}

/// The rows of the `write plane` pairs.
pub open spec fn write_plane_rows(v: ConfigShowView) -> Seq<(Seq<char>, Seq<char>)> {
    let w = v.write_plane;
    seq![
        ("provider"@, w.provider_runtime_id@),
        ("binding model"@, w.binding_model@),
        ("state"@, w.state@),
        ("provenance"@, w.provenance@),
        ("source"@, w.source@),
        ("target"@, target_text(opt_str_view(w.target_kind), opt_str_view(w.target))),
        ("detail"@, w.detail@),
        ("bridge auth configured"@, yes_no_text(w.bridge_auth_configured)),
    ]
}

/// The rows of the `workflow` pairs.
pub open spec fn workflow_rows(v: ConfigShowView) -> Seq<(Seq<char>, Seq<char>)> {
    let w = v.workflow;
    seq![
        ("provider"@, w.provider_runtime_id@),
        ("binding model"@, w.binding_model@),
        ("state"@, w.state@),
        ("provenance"@, w.provenance@),
        ("source"@, w.source@),
        ("target"@, target_text(opt_str_view(w.target_kind), opt_str_view(w.target))),
        ("hyf helper"@, w.hyf_helper_state@),
        ("hyf helper detail"@, w.hyf_helper_detail@),
    ]
}

/// The rows of the `hyf provider` pairs.
pub open spec fn hyf_provider_rows(v: ConfigShowView) -> Seq<(Seq<char>, Seq<char>)> {
    let h = v.hyf_provider;
    seq![
        ("provider"@, h.provider_runtime_id@),
        ("binding model"@, h.binding_model@),
        ("state"@, h.state@),
        ("provenance"@, h.provenance@),
        ("source"@, h.source@),
        ("target"@, target_text(opt_str_view(h.target_kind), opt_str_view(h.target))),
        ("executable"@, h.executable@),
    ] + text_row("reason"@, opt_str_view(h.reason))
}

/// The services part: signer, relay, local replica, myc, providers and rpc.
pub open spec fn services_text(v: ConfigShowView) -> Seq<char> {
    pairs_text("signer"@, seq![("mode"@, v.signer_mode@)]) + pairs_text(
        "relay"@,
        seq![
            ("count"@, decimal(v.relay_count as nat)),
            ("publish policy"@, v.relay_publish_policy@),
            ("source"@, v.relay_source@),
        ],
    ) + pairs_text(
        "local"@,
        seq![
            ("root"@, v.local_root@),
            ("replica db"@, v.local_replica_db_path@),
            ("backups dir"@, v.local_backups_dir@),
            ("exports dir"@, v.local_exports_dir@),
        ],
    ) + pairs_text("myc"@, seq![("executable"@, v.myc_executable@)]) + pairs_text(
        "write plane"@,
        write_plane_rows(v),
    ) + pairs_text("workflow"@, workflow_rows(v)) + pairs_text(
        "hyf"@,
        seq![("enabled"@, yes_no_text(v.hyf_enabled)), ("executable"@, v.hyf_executable@)],
    ) + pairs_text("hyf provider"@, hyf_provider_rows(v)) + pairs_text(
        "rpc"@,
        seq![("url"@, v.rpc_url@), ("bridge auth configured"@, yes_no_text(v.rpc_bridge_auth_configured))],
    )
}

fn write_plane_pair_rows(v: &ConfigShowView) -> (r: Vec<(String, String)>)
    ensures
        rows_view(r@) == write_plane_rows(*v),
{
    let w = &v.write_plane;
    let mut rows: Vec<(String, String)> = Vec::new();
    rows.push(row("provider", w.provider_runtime_id.clone()));
    rows.push(row("binding model", w.binding_model.clone()));
    rows.push(row("state", w.state.clone()));
    rows.push(row("provenance", w.provenance.clone()));
    rows.push(row("source", w.source.clone()));
    rows.push(row("target", format_runtime_target(&w.target_kind, &w.target)));
    rows.push(row("detail", w.detail.clone()));
    rows.push(row("bridge auth configured", owned(yes_no(w.bridge_auth_configured))));
    proof {
        assert(rows_view(rows@) =~= write_plane_rows(*v));
    }
    rows
}

fn workflow_pair_rows(v: &ConfigShowView) -> (r: Vec<(String, String)>)
    ensures
        rows_view(r@) == workflow_rows(*v),
{
    let w = &v.workflow;
    let mut rows: Vec<(String, String)> = Vec::new();
    rows.push(row("provider", w.provider_runtime_id.clone()));
    rows.push(row("binding model", w.binding_model.clone()));
    rows.push(row("state", w.state.clone()));
    rows.push(row("provenance", w.provenance.clone()));
    rows.push(row("source", w.source.clone()));
    rows.push(row("target", format_runtime_target(&w.target_kind, &w.target)));
    rows.push(row("hyf helper", w.hyf_helper_state.clone()));
    rows.push(row("hyf helper detail", w.hyf_helper_detail.clone()));
    proof {
        assert(rows_view(rows@) =~= workflow_rows(*v));
    }
    rows
}

fn hyf_provider_pair_rows(v: &ConfigShowView) -> (r: Vec<(String, String)>)
    ensures
        rows_view(r@) == hyf_provider_rows(*v),
{
    let h = &v.hyf_provider;
    let mut rows: Vec<(String, String)> = Vec::new();
    rows.push(row("provider", h.provider_runtime_id.clone()));
    rows.push(row("binding model", h.binding_model.clone()));
    rows.push(row("state", h.state.clone()));
    rows.push(row("provenance", h.provenance.clone()));
    rows.push(row("source", h.source.clone()));
    rows.push(row("target", format_runtime_target(&h.target_kind, &h.target)));
    rows.push(row("executable", h.executable.clone()));
    let ghost base = rows_view(rows@);
    push_text_row(&mut rows, "reason", &h.reason);
    proof {
        let hv = v.hyf_provider;
        assert(base =~= seq![
            ("provider"@, hv.provider_runtime_id@),
            ("binding model"@, hv.binding_model@),
            ("state"@, hv.state@),
            ("provenance"@, hv.provenance@),
            ("source"@, hv.source@),
            ("target"@, target_text(opt_str_view(hv.target_kind), opt_str_view(hv.target))),
            ("executable"@, hv.executable@),
        ]);
        assert(rows_view(rows@) =~= hyf_provider_rows(*v));
    }
    rows
}

fn render_runtime_pairs(out: &mut String, v: &ConfigShowView)
    ensures
        final(out)@ == old(out)@ + pairs_text("signer"@, seq![("mode"@, v.signer_mode@)]) + pairs_text(
            "relay"@,
            seq![
                ("count"@, decimal(v.relay_count as nat)),
                ("publish policy"@, v.relay_publish_policy@),
                ("source"@, v.relay_source@),
            ],
        ) + pairs_text(
            "local"@,
            seq![
                ("root"@, v.local_root@),
                ("replica db"@, v.local_replica_db_path@),
                ("backups dir"@, v.local_backups_dir@),
                ("exports dir"@, v.local_exports_dir@),
            ],
        ) + pairs_text("myc"@, seq![("executable"@, v.myc_executable@)]),
{
    let ghost start = out@;
    let mut signer: Vec<(String, String)> = Vec::new();
    signer.push(row("mode", v.signer_mode.clone()));
    proof {
        assert(rows_view(signer@) =~= seq![("mode"@, v.signer_mode@)]);
    }
    render_pairs(out, "signer", &signer);
    let mut relay: Vec<(String, String)> = Vec::new();
    relay.push(row("count", decimal_string(v.relay_count as u128)));
    relay.push(row("publish policy", v.relay_publish_policy.clone()));
    relay.push(row("source", v.relay_source.clone()));
    proof {
        assert(rows_view(relay@) =~= seq![
            ("count"@, decimal(v.relay_count as nat)),
            ("publish policy"@, v.relay_publish_policy@),
            ("source"@, v.relay_source@),
        ]);
    }
    render_pairs(out, "relay", &relay);
    let mut local: Vec<(String, String)> = Vec::new();
    local.push(row("root", v.local_root.clone()));
    local.push(row("replica db", v.local_replica_db_path.clone()));
    local.push(row("backups dir", v.local_backups_dir.clone()));
    local.push(row("exports dir", v.local_exports_dir.clone()));
    proof {
        assert(rows_view(local@) =~= seq![
            ("root"@, v.local_root@),
            ("replica db"@, v.local_replica_db_path@),
            ("backups dir"@, v.local_backups_dir@),
            ("exports dir"@, v.local_exports_dir@),
        ]);
    }
    render_pairs(out, "local", &local);
    let mut myc: Vec<(String, String)> = Vec::new();
    myc.push(row("executable", v.myc_executable.clone()));
    proof {
        assert(rows_view(myc@) =~= seq![("executable"@, v.myc_executable@)]);
    }
    render_pairs(out, "myc", &myc);
}

/// Appends the services part.
fn render_services(out: &mut String, v: &ConfigShowView)
    ensures
        final(out)@ == old(out)@ + services_text(*v),
{
    let ghost start = out@;
    render_runtime_pairs(out, v);
    let rows = write_plane_pair_rows(v);
    render_pairs(out, "write plane", &rows);
    let rows = workflow_pair_rows(v);
    render_pairs(out, "workflow", &rows);
    let mut hyf: Vec<(String, String)> = Vec::new();
    hyf.push(row("enabled", owned(yes_no(v.hyf_enabled))));
    hyf.push(row("executable", v.hyf_executable.clone()));
    proof {
        assert(rows_view(hyf@) =~= seq![("enabled"@, yes_no_text(v.hyf_enabled)), ("executable"@, v.hyf_executable@)]);
    }
    render_pairs(out, "hyf", &hyf);
    let rows = hyf_provider_pair_rows(v);
    render_pairs(out, "hyf provider", &rows);
    let mut rpc: Vec<(String, String)> = Vec::new();
    rpc.push(row("url", v.rpc_url.clone()));
    rpc.push(row("bridge auth configured", owned(yes_no(v.rpc_bridge_auth_configured))));
    proof {
        assert(rows_view(rpc@) =~= seq![
            ("url"@, v.rpc_url@),
            ("bridge auth configured"@, yes_no_text(v.rpc_bridge_auth_configured)),
        ]);
    }
    render_pairs(out, "rpc", &rpc);
    proof {
        assert(out@ =~= start + services_text(*v));
    }
}

/// The cells of one capability binding.
pub open spec fn binding_cells(b: CapabilityBindingRuntimeView) -> Seq<Seq<char>> {
    seq![b.capability_id@, b.provider_runtime_id@, b.state@, binding_target_text(b)]
}

/// The cells of one resolved provider.
pub open spec fn provider_cells(p: ResolvedProviderView) -> Seq<Seq<char>> {
    seq![
        p.capability_id@,
        p.provider_runtime_id@,
        p.state@,
        p.provenance@,
        target_text(opt_str_view(p.target_kind), opt_str_view(p.target)),
    ]
}

/// The binding table's headers.
pub open spec fn binding_headers() -> Seq<Seq<char>> {
    seq!["capability"@, "provider"@, "state"@, "target"@]
}

/// The provider table's headers.
pub open spec fn provider_headers() -> Seq<Seq<char>> {
    seq!["capability"@, "provider"@, "state"@, "provenance"@, "target"@]
}

/// The two tables and the source line.
pub open spec fn tables_text(v: ConfigShowView) -> Seq<char> {
    seq!['\n'] + nl("capability bindings"@) + table_text(
        binding_headers(),
        v.capability_bindings@.map_values(|b: CapabilityBindingRuntimeView| binding_cells(b)),
    ) + seq!['\n'] + nl("resolved providers"@) + table_text(
        provider_headers(),
        v.resolved_providers@.map_values(|p: ResolvedProviderView| provider_cells(p)),
    ) + nl("source: "@ + v.source@)
}

/// What `config show` writes: the effective settings, the providers and the bindings.
pub open spec fn config_show_text(v: ConfigShowView) -> Seq<char> {
    settings_text(v) + account_text(v) + services_text(v) + tables_text(v)
}

fn binding_row(b: &CapabilityBindingRuntimeView) -> (r: Vec<String>)
    ensures
        strings_view(r@) == binding_cells(*b),
        r@.len() == 4,
{
    let mut r: Vec<String> = Vec::new();
    r.push(b.capability_id.clone());
    r.push(b.provider_runtime_id.clone());
    r.push(b.state.clone());
    r.push(format_capability_binding_target(b));
    proof {
        assert(strings_view(r@) =~= binding_cells(*b));
    }
    r
}

fn provider_row(p: &ResolvedProviderView) -> (r: Vec<String>)
    ensures
        strings_view(r@) == provider_cells(*p),
        r@.len() == 5,
{
    let mut r: Vec<String> = Vec::new();
    r.push(p.capability_id.clone());
    r.push(p.provider_runtime_id.clone());
    r.push(p.state.clone());
    r.push(p.provenance.clone());
    r.push(format_runtime_target(&p.target_kind, &p.target));
    proof {
        assert(strings_view(r@) =~= provider_cells(*p));
    }
    r
}

fn render_binding_table(out: &mut String, v: &ConfigShowView)
    ensures
        final(out)@ == old(out)@ + table_text(
            binding_headers(),
            v.capability_bindings@.map_values(|b: CapabilityBindingRuntimeView| binding_cells(b)),
        ),
{
    let mut rows: Vec<Vec<String>> = Vec::new();
    for i in 0..v.capability_bindings.len()
        invariant
            rows@.len() == i,
            forall|j: int| 0 <= j < i ==> #[trigger] rows@[j]@.len() == 4,
            forall|j: int| 0 <= j < i ==> #[trigger] strings_view(rows@[j]@) == binding_cells(v.capability_bindings@[j]),
    {
        rows.push(binding_row(&v.capability_bindings[i]));
    }
    proof {
        assert(cells_view(rows@) =~= v.capability_bindings@.map_values(
            |b: CapabilityBindingRuntimeView| binding_cells(b),
        ));
    }
    let table = Table { headers: &["capability", "provider", "state", "target"], rows };
    proof {
        reveal_strlit("capability");
        reveal_strlit("provider");
        reveal_strlit("state");
        reveal_strlit("target");
        assert(table.headers@.map_values(|h: &str| h@) =~= binding_headers());
    }
    render_table(out, &table);
}

fn render_provider_table(out: &mut String, v: &ConfigShowView)
    ensures
        final(out)@ == old(out)@ + table_text(
            provider_headers(),
            v.resolved_providers@.map_values(|p: ResolvedProviderView| provider_cells(p)),
        ),
{
    let mut rows: Vec<Vec<String>> = Vec::new();
    for i in 0..v.resolved_providers.len()
        invariant
            rows@.len() == i,
            forall|j: int| 0 <= j < i ==> #[trigger] rows@[j]@.len() == 5,
            forall|j: int| 0 <= j < i ==> #[trigger] strings_view(rows@[j]@) == provider_cells(v.resolved_providers@[j]),
    {
        rows.push(provider_row(&v.resolved_providers[i]));
    }
    proof {
        assert(cells_view(rows@) =~= v.resolved_providers@.map_values(
            |p: ResolvedProviderView| provider_cells(p),
        ));
    }
    let table = Table { headers: &["capability", "provider", "state", "provenance", "target"], rows };
    proof {
        reveal_strlit("capability");
        reveal_strlit("provider");
        reveal_strlit("state");
        reveal_strlit("provenance");
        reveal_strlit("target");
        assert(table.headers@.map_values(|h: &str| h@) =~= provider_headers());
    }
    render_table(out, &table);
}

/// Appends what `config show` writes.
pub fn render_config_show(out: &mut String, view: &ConfigShowView)
    ensures
        final(out)@ == old(out)@ + config_show_text(*view),
{
    let ghost start = out@;
    render_settings(out, view);
    render_account_part(out, view);
    render_services(out, view);
    let ghost s3 = out@;
    push_char(out, '\n');
    write_line(out, "capability bindings");
    render_binding_table(out, view);
    push_char(out, '\n');
    write_line(out, "resolved providers");
    render_provider_table(out, view);
    write_line2(out, "source: ", view.source.as_str());
    proof {
        assert(out@ =~= s3 + tables_text(*view));
        assert(out@ =~= start + config_show_text(*view));
    }
}

} // verus!
