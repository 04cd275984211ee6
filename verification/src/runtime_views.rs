use vstd::prelude::*;

use crate::bindings::opt_str_view;
use crate::find::{join_strings, join_with};
use crate::render::{context_text, nl, pairs_text, render_pairs, row, rows_view, write_context, yes_no};
use crate::render_views::{push_text_row, text_row, write_line2, yes_no_text};
use crate::text::{concat3, owned, str_eq, strings_view};

verus! {

/// Where a managed runtime instance keeps its files.
#[derive(Debug, Clone, PartialEq, Eq)]
pub struct RuntimeInstancePathsView {
    pub install_dir: String,
    pub state_dir: String,
    pub logs_dir: String,
    pub run_dir: String,
    pub secrets_dir: String,
    pub pid_file_path: String,
    pub stdout_log_path: String,
    pub stderr_log_path: String,
    pub metadata_path: String,
}

/// The registry record of a managed runtime instance.
#[derive(Debug, Clone, PartialEq, Eq)]
pub struct RuntimeInstanceRecordView {
    pub management_mode: String,
    pub install_state: String,
    pub binary_path: String,
    pub config_path: String,
    pub logs_path: String,
    pub run_path: String,
    pub installed_version: String,
    pub health_endpoint: Option<String>,
    pub secret_material_ref: Option<String>,
    pub last_started_at: Option<String>,
    pub last_stopped_at: Option<String>,
    pub notes: Option<String>,
}

/// What `runtime status` reports.
#[derive(Debug, Clone, PartialEq, Eq)]
pub struct RuntimeStatusView {
    pub runtime_id: String,
    pub instance_id: String,
    pub instance_source: String,
    pub runtime_group: String,
    pub management_posture: String,
    pub state: String,
    pub install_state: String,
    pub health_state: String,
    pub health_source: String,
    pub registry_path: String,
    pub management_mode: Option<String>,
    pub service_manager_integration: Option<bool>,
    pub uses_absolute_binary_paths: Option<bool>,
    pub preferred_cli_binding: Option<bool>,
    pub detail: String,
    pub instance_paths: Option<RuntimeInstancePathsView>,
    pub instance_record: Option<RuntimeInstanceRecordView>,
    pub lifecycle_actions: Vec<String>,
    pub source: String,
}

/// What the lifecycle commands of a runtime report.
#[derive(Debug, Clone, PartialEq, Eq)]
pub struct RuntimeActionView {
    pub runtime_id: String,
    pub action: String,
    pub instance_id: String,
    pub instance_source: String,
    pub runtime_group: String,
    pub state: String,
    pub mutates_bindings: bool,
    pub detail: String,
    pub next_step: Option<String>,
    pub source: String,
}

/// What `runtime config show` reports.
#[derive(Debug, Clone, PartialEq, Eq)]
pub struct RuntimeManagedConfigView {
    pub runtime_id: String,
    pub instance_id: String,
    pub instance_source: String,
    pub runtime_group: String,
    pub state: String,
    pub config_present: bool,
    pub config_format: Option<String>,
    pub config_path: Option<String>,
    pub requires_bootstrap_secret: Option<bool>,
    pub requires_config_bootstrap: Option<bool>,
    pub requires_signer_provider: Option<bool>,
    pub detail: String,
    pub source: String,
}

/// What `runtime logs` reports.
#[derive(Debug, Clone, PartialEq, Eq)]
pub struct RuntimeLogsView {
    pub runtime_id: String,
    pub instance_id: String,
    pub instance_source: String,
    pub runtime_group: String,
    pub state: String,
    pub stdout_log_present: bool,
    pub stderr_log_present: bool,
    pub stdout_log_path: Option<String>,
    pub stderr_log_path: Option<String>,
    pub detail: String,
    pub source: String,
}

/// A present flag as a `yes`/`no` row.
pub open spec fn flag_row(label: Seq<char>, value: Option<bool>) -> Seq<(Seq<char>, Seq<char>)> {
    match value {
        Some(b) => seq![(label, yes_no_text(b))],
        None => seq![],
    }
}

fn push_flag_row(rows: &mut Vec<(String, String)>, label: &str, value: Option<bool>)
    ensures
        rows_view(final(rows)@) == rows_view(old(rows)@) + flag_row(label@, value),
{
    let ghost before = rows_view(rows@);
    if let Some(b) = value {
        rows.push(row(label, owned(yes_no(b))));
    }
    proof {
        assert(rows_view(rows@) =~= before + flag_row(label@, value));
    }
}

/// The rows of the `runtime status` pairs.
pub open spec fn status_rows(v: RuntimeStatusView) -> Seq<(Seq<char>, Seq<char>)> {
    seq![
        ("runtime"@, v.runtime_id@),
        ("instance"@, v.instance_id@),
        ("instance source"@, v.instance_source@),
        ("group"@, v.runtime_group@),
        ("posture"@, v.management_posture@),
        ("state"@, v.state@),
        ("install state"@, v.install_state@),
        ("health state"@, v.health_state@),
        ("health source"@, v.health_source@),
        ("registry"@, v.registry_path@),
    ] + text_row("management mode"@, opt_str_view(v.management_mode)) + flag_row(
        "service manager integration"@,
        v.service_manager_integration,
    ) + flag_row("uses absolute binary paths"@, v.uses_absolute_binary_paths) + flag_row(
        "preferred cli binding"@,
        v.preferred_cli_binding,
    )
}

/// The rows of the `instance paths` pairs.
pub open spec fn paths_rows(p: RuntimeInstancePathsView) -> Seq<(Seq<char>, Seq<char>)> {
    seq![
        ("install dir"@, p.install_dir@),
        ("state dir"@, p.state_dir@),
        ("logs dir"@, p.logs_dir@),
        ("run dir"@, p.run_dir@),
        ("secrets dir"@, p.secrets_dir@),
        ("pid file"@, p.pid_file_path@),
        ("stdout log"@, p.stdout_log_path@),
        ("stderr log"@, p.stderr_log_path@),
        ("metadata"@, p.metadata_path@),
    ]
}

/// The rows of the `instance record` pairs.
pub open spec fn record_rows(r: RuntimeInstanceRecordView) -> Seq<(Seq<char>, Seq<char>)> {
    seq![
        ("management mode"@, r.management_mode@),
        ("install state"@, r.install_state@),
        ("binary path"@, r.binary_path@),
        ("config path"@, r.config_path@),
        ("logs path"@, r.logs_path@),
        ("run path"@, r.run_path@),
        ("installed version"@, r.installed_version@),
    ] + text_row("health endpoint"@, opt_str_view(r.health_endpoint)) + text_row(
        "secret material ref"@,
        opt_str_view(r.secret_material_ref),
    ) + text_row("last started at"@, opt_str_view(r.last_started_at)) + text_row(
        "last stopped at"@,
        opt_str_view(r.last_stopped_at),
    ) + text_row("notes"@, opt_str_view(r.notes))
}

/// What `runtime status` writes.
pub open spec fn runtime_status_text(v: RuntimeStatusView) -> Seq<char> {
    context_text("runtime · "@ + v.runtime_id@ + " · status"@) + pairs_text("runtime status"@, status_rows(v)) + nl(
        "detail: "@ + v.detail@,
    ) + (match v.instance_paths {
        Some(p) => pairs_text("instance paths"@, paths_rows(p)),
        None => seq![],
    }) + (match v.instance_record {
        Some(r) => pairs_text("instance record"@, record_rows(r)),
        None => seq![],
    }) + (if v.lifecycle_actions@.len() > 0 {
        nl("lifecycle actions: "@ + join_with(strings_view(v.lifecycle_actions@), ", "@))
    } else {
        seq![]
    }) + nl("source: "@ + v.source@)
}

fn status_pair_rows(v: &RuntimeStatusView) -> (r: Vec<(String, String)>)
    ensures
        rows_view(r@) == status_rows(*v),
{
    let mut rows: Vec<(String, String)> = Vec::new();
    rows.push(row("runtime", v.runtime_id.clone()));
    rows.push(row("instance", v.instance_id.clone()));
    rows.push(row("instance source", v.instance_source.clone()));
    rows.push(row("group", v.runtime_group.clone()));
    rows.push(row("posture", v.management_posture.clone()));
    rows.push(row("state", v.state.clone()));
    rows.push(row("install state", v.install_state.clone()));
    rows.push(row("health state", v.health_state.clone()));
    rows.push(row("health source", v.health_source.clone()));
    rows.push(row("registry", v.registry_path.clone()));
    let ghost base = rows_view(rows@);
    push_text_row(&mut rows, "management mode", &v.management_mode);
    push_flag_row(&mut rows, "service manager integration", v.service_manager_integration);
    push_flag_row(&mut rows, "uses absolute binary paths", v.uses_absolute_binary_paths);
    push_flag_row(&mut rows, "preferred cli binding", v.preferred_cli_binding);
    proof {
        assert(base =~= seq![
            ("runtime"@, v.runtime_id@),
            ("instance"@, v.instance_id@),
            ("instance source"@, v.instance_source@),
            ("group"@, v.runtime_group@),
            ("posture"@, v.management_posture@),
            ("state"@, v.state@),
            ("install state"@, v.install_state@),
            ("health state"@, v.health_state@),
            ("health source"@, v.health_source@),
            ("registry"@, v.registry_path@),
        ]);
        assert(rows_view(rows@) =~= status_rows(*v));
    }
    rows
}

fn paths_pair_rows(p: &RuntimeInstancePathsView) -> (r: Vec<(String, String)>)
    ensures
        rows_view(r@) == paths_rows(*p),
{
    let mut rows: Vec<(String, String)> = Vec::new();
    rows.push(row("install dir", p.install_dir.clone()));
    rows.push(row("state dir", p.state_dir.clone()));
    rows.push(row("logs dir", p.logs_dir.clone()));
    rows.push(row("run dir", p.run_dir.clone()));
    rows.push(row("secrets dir", p.secrets_dir.clone()));
    rows.push(row("pid file", p.pid_file_path.clone()));
    rows.push(row("stdout log", p.stdout_log_path.clone()));
    rows.push(row("stderr log", p.stderr_log_path.clone()));
    rows.push(row("metadata", p.metadata_path.clone()));
    proof {
        assert(rows_view(rows@) =~= paths_rows(*p));
    }
    rows
}

fn record_pair_rows(r: &RuntimeInstanceRecordView) -> (out: Vec<(String, String)>)
    ensures
        rows_view(out@) == record_rows(*r),
{
    let mut rows: Vec<(String, String)> = Vec::new();
    rows.push(row("management mode", r.management_mode.clone()));
    rows.push(row("install state", r.install_state.clone()));
    rows.push(row("binary path", r.binary_path.clone()));
    rows.push(row("config path", r.config_path.clone()));
    rows.push(row("logs path", r.logs_path.clone()));
    rows.push(row("run path", r.run_path.clone()));
    rows.push(row("installed version", r.installed_version.clone()));
    let ghost base = rows_view(rows@);
    push_text_row(&mut rows, "health endpoint", &r.health_endpoint);
    push_text_row(&mut rows, "secret material ref", &r.secret_material_ref);
    push_text_row(&mut rows, "last started at", &r.last_started_at);
    push_text_row(&mut rows, "last stopped at", &r.last_stopped_at);
    push_text_row(&mut rows, "notes", &r.notes);
    proof {
        assert(base =~= seq![
            ("management mode"@, r.management_mode@),
            ("install state"@, r.install_state@),
            ("binary path"@, r.binary_path@),
            ("config path"@, r.config_path@),
            ("logs path"@, r.logs_path@),
            ("run path"@, r.run_path@),
            ("installed version"@, r.installed_version@),
        ]);
        assert(rows_view(rows@) =~= record_rows(*r));
    }
    rows
}

/// Appends what `runtime status` writes.
pub fn render_runtime_status(out: &mut String, view: &RuntimeStatusView)
    ensures
        final(out)@ == old(out)@ + runtime_status_text(*view),
{
    let ghost start = out@;
    let context = concat3("runtime · ", view.runtime_id.as_str(), " · status");
    write_context(out, context.as_str());
    let rows = status_pair_rows(view);
    render_pairs(out, "runtime status", &rows);
    write_line2(out, "detail: ", view.detail.as_str());
    let ghost s1 = out@;
    if let Some(p) = &view.instance_paths {
        let rows = paths_pair_rows(p);
        render_pairs(out, "instance paths", &rows);
    }
    let ghost s2 = out@;
    if let Some(r) = &view.instance_record {
        let rows = record_pair_rows(r);
        render_pairs(out, "instance record", &rows);
    }
    let ghost s3 = out@;
    if view.lifecycle_actions.len() > 0 {
        let joined = join_strings(&view.lifecycle_actions, ", ");
        write_line2(out, "lifecycle actions: ", joined.as_str());
    }
    let ghost s4 = out@;
    write_line2(out, "source: ", view.source.as_str());
    proof {
        assert(s2 =~= s1 + (match view.instance_paths {
            Some(p) => pairs_text("instance paths"@, paths_rows(p)),
            None => seq![],
        }));
        assert(s3 =~= s2 + (match view.instance_record {
            Some(r) => pairs_text("instance record"@, record_rows(r)),
            None => seq![],
        }));
        assert(s4 =~= s3 + (if view.lifecycle_actions@.len() > 0 {
            nl("lifecycle actions: "@ + join_with(strings_view(view.lifecycle_actions@), ", "@))
        } else {
            seq![]
        }));
        assert(out@ =~= start + runtime_status_text(*view));
    }
}

/// `s` with each underscore written as a space.
pub open spec fn spaced(s: Seq<char>) -> Seq<char> {
    s.map_values(|c: char| if c == '_' { ' ' } else { c })
}

fn spaced_exec(s: &str) -> (r: String)
    ensures
        r@ == spaced(s@),
{
    let cs = crate::text::chars_of(s);
    let mut out: Vec<char> = Vec::new();
    for i in 0..cs.len()
        invariant
            cs@ == s@,
            out@ == spaced(s@.take(i as int)),
    {
        let c = cs[i];
        out.push(if c == '_' { ' ' } else { c });
        proof {
            assert(s@.take(i + 1) =~= s@.take(i as int).push(s@[i as int]));
            assert(out@ =~= spaced(s@.take(i + 1)));
        }
    }
    proof {
        assert(s@.take(s@.len() as int) =~= s@);
    }
    crate::text::string_of(out.as_slice())
}

/// The command a runtime lifecycle action is reported under.
pub open spec fn action_command_name(action: Seq<char>) -> Seq<char> {
    if action == "install"@ {
        "runtime install"@
    } else if action == "uninstall"@ {
        "runtime uninstall"@
    } else if action == "start"@ {
        "runtime start"@
    } else if action == "stop"@ {
        "runtime stop"@
    } else if action == "restart"@ {
        "runtime restart"@
    } else if action == "config_set"@ {
        "runtime config set"@
    } else {
        "runtime"@
    }
}

/// The command a runtime lifecycle action is reported under.
pub fn runtime_action_command(view: &RuntimeActionView) -> (r: &'static str)
    ensures
        r@ == action_command_name(view.action@),
{
    let a = view.action.as_str();
    if str_eq(a, "install") {
        "runtime install"
    } else if str_eq(a, "uninstall") {
        "runtime uninstall"
    } else if str_eq(a, "start") {
        "runtime start"
    } else if str_eq(a, "stop") {
        "runtime stop"
    } else if str_eq(a, "restart") {
        "runtime restart"
    } else if str_eq(a, "config_set") {
        "runtime config set"
    } else {
        "runtime"
    }
}

/// What a runtime lifecycle action writes.
pub open spec fn runtime_action_text(v: RuntimeActionView) -> Seq<char> {
    context_text("runtime · "@ + v.runtime_id@ + " · "@ + spaced(v.action@)) + pairs_text(
        "runtime"@,
        seq![
            ("runtime"@, v.runtime_id@),
            ("instance"@, v.instance_id@),
            ("instance source"@, v.instance_source@),
            ("group"@, v.runtime_group@),
            ("state"@, v.state@),
            ("mutates bindings"@, yes_no_text(v.mutates_bindings)),
        ],
    ) + nl("detail: "@ + v.detail@) + (match v.next_step {
        Some(n) => nl("next step: "@ + n@),
        None => seq![],
    }) + nl("source: "@ + v.source@)
}

/// Appends what a runtime lifecycle action writes.
pub fn render_runtime_action(out: &mut String, view: &RuntimeActionView)
    ensures
        final(out)@ == old(out)@ + runtime_action_text(*view),
{
    let ghost start = out@;
    let action = spaced_exec(view.action.as_str());
    let mut context = concat3("runtime · ", view.runtime_id.as_str(), " · ");
    crate::text::append_str(&mut context, action.as_str());
    write_context(out, context.as_str());
    let mut rows: Vec<(String, String)> = Vec::new();
    rows.push(row("runtime", view.runtime_id.clone()));
    rows.push(row("instance", view.instance_id.clone()));
    rows.push(row("instance source", view.instance_source.clone()));
    rows.push(row("group", view.runtime_group.clone()));
    rows.push(row("state", view.state.clone()));
    rows.push(row("mutates bindings", owned(yes_no(view.mutates_bindings))));
    proof {
        assert(rows_view(rows@) =~= seq![
            ("runtime"@, view.runtime_id@),
            ("instance"@, view.instance_id@),
            ("instance source"@, view.instance_source@),
            ("group"@, view.runtime_group@),
            ("state"@, view.state@),
            ("mutates bindings"@, yes_no_text(view.mutates_bindings)),
        ]);
    }
    render_pairs(out, "runtime", &rows);
    write_line2(out, "detail: ", view.detail.as_str());
    let ghost s1 = out@;
    if let Some(n) = &view.next_step {
        write_line2(out, "next step: ", n.as_str());
    }
    let ghost s2 = out@;
    write_line2(out, "source: ", view.source.as_str());
    proof {
        assert(s2 =~= s1 + (match view.next_step {
            Some(n) => nl("next step: "@ + n@),
            None => seq![],
        }));
        assert(out@ =~= start + runtime_action_text(*view));
    }
}

/// The rows of the `runtime config` pairs.
pub open spec fn managed_config_rows(v: RuntimeManagedConfigView) -> Seq<(Seq<char>, Seq<char>)> {
    seq![
        ("runtime"@, v.runtime_id@),
        ("instance"@, v.instance_id@),
        ("instance source"@, v.instance_source@),
        ("group"@, v.runtime_group@),
        ("state"@, v.state@),
        ("config present"@, yes_no_text(v.config_present)),
    ] + text_row("config format"@, opt_str_view(v.config_format)) + text_row(
        "config path"@,
        opt_str_view(v.config_path),
    ) + flag_row("requires bootstrap secret"@, v.requires_bootstrap_secret) + flag_row(
        "requires config bootstrap"@,
        v.requires_config_bootstrap,
    ) + flag_row("requires signer provider"@, v.requires_signer_provider)
}

/// What `runtime config show` writes.
pub open spec fn runtime_config_show_text(v: RuntimeManagedConfigView) -> Seq<char> {
    context_text("runtime · "@ + v.runtime_id@ + " · config"@) + pairs_text(
        "runtime config"@,
        managed_config_rows(v),
    ) + nl("detail: "@ + v.detail@) + nl("source: "@ + v.source@)
}

/// Appends what `runtime config show` writes.
pub fn render_runtime_config_show(out: &mut String, view: &RuntimeManagedConfigView)
    ensures
        final(out)@ == old(out)@ + runtime_config_show_text(*view),
{
    let ghost start = out@;
    let context = concat3("runtime · ", view.runtime_id.as_str(), " · config");
    write_context(out, context.as_str());
    let mut rows: Vec<(String, String)> = Vec::new();
    rows.push(row("runtime", view.runtime_id.clone()));
    rows.push(row("instance", view.instance_id.clone()));
    rows.push(row("instance source", view.instance_source.clone()));
    rows.push(row("group", view.runtime_group.clone()));
    rows.push(row("state", view.state.clone()));
    rows.push(row("config present", owned(yes_no(view.config_present))));
    let ghost base = rows_view(rows@);
    push_text_row(&mut rows, "config format", &view.config_format);
    push_text_row(&mut rows, "config path", &view.config_path);
    push_flag_row(&mut rows, "requires bootstrap secret", view.requires_bootstrap_secret);
    push_flag_row(&mut rows, "requires config bootstrap", view.requires_config_bootstrap);
    push_flag_row(&mut rows, "requires signer provider", view.requires_signer_provider);
    proof {
        assert(base =~= seq![
            ("runtime"@, view.runtime_id@),
            ("instance"@, view.instance_id@),
            ("instance source"@, view.instance_source@),
            ("group"@, view.runtime_group@),
            ("state"@, view.state@),
            ("config present"@, yes_no_text(view.config_present)),
        ]);
        assert(rows_view(rows@) =~= managed_config_rows(*view));
    }
    render_pairs(out, "runtime config", &rows);
    write_line2(out, "detail: ", view.detail.as_str());
    write_line2(out, "source: ", view.source.as_str());
    proof {
        assert(out@ =~= start + runtime_config_show_text(*view));
    }
}

/// The rows of the `runtime logs` pairs.
pub open spec fn logs_rows(v: RuntimeLogsView) -> Seq<(Seq<char>, Seq<char>)> {
    seq![
        ("runtime"@, v.runtime_id@),
        ("instance"@, v.instance_id@),
        ("instance source"@, v.instance_source@),
        ("group"@, v.runtime_group@),
        ("state"@, v.state@),
        ("stdout present"@, yes_no_text(v.stdout_log_present)),
        ("stderr present"@, yes_no_text(v.stderr_log_present)),
    ] + text_row("stdout log"@, opt_str_view(v.stdout_log_path)) + text_row(
        "stderr log"@,
        opt_str_view(v.stderr_log_path),
    )
}

/// What `runtime logs` writes.
pub open spec fn runtime_logs_text(v: RuntimeLogsView) -> Seq<char> {
    context_text("runtime · "@ + v.runtime_id@ + " · logs"@) + pairs_text("runtime logs"@, logs_rows(v)) + nl(
        "detail: "@ + v.detail@,
    ) + nl("source: "@ + v.source@)
}

/// Appends what `runtime logs` writes.
pub fn render_runtime_logs(out: &mut String, view: &RuntimeLogsView)
    ensures
        final(out)@ == old(out)@ + runtime_logs_text(*view),
{
    let ghost start = out@;
    let context = concat3("runtime · ", view.runtime_id.as_str(), " · logs");
    write_context(out, context.as_str());
    let mut rows: Vec<(String, String)> = Vec::new();
    rows.push(row("runtime", view.runtime_id.clone()));
    rows.push(row("instance", view.instance_id.clone()));
    rows.push(row("instance source", view.instance_source.clone()));
    rows.push(row("group", view.runtime_group.clone()));
    rows.push(row("state", view.state.clone()));
    rows.push(row("stdout present", owned(yes_no(view.stdout_log_present))));
    rows.push(row("stderr present", owned(yes_no(view.stderr_log_present))));
    let ghost base = rows_view(rows@);
    push_text_row(&mut rows, "stdout log", &view.stdout_log_path);
    push_text_row(&mut rows, "stderr log", &view.stderr_log_path);
    proof {
        assert(base =~= seq![
            ("runtime"@, view.runtime_id@),
            ("instance"@, view.instance_id@),
            ("instance source"@, view.instance_source@),
            ("group"@, view.runtime_group@),
            ("state"@, view.state@),
            ("stdout present"@, yes_no_text(view.stdout_log_present)),
            ("stderr present"@, yes_no_text(view.stderr_log_present)),
        ]);
        assert(rows_view(rows@) =~= logs_rows(*view));
    }
    render_pairs(out, "runtime logs", &rows);
    write_line2(out, "detail: ", view.detail.as_str());
    write_line2(out, "source: ", view.source.as_str());
    proof {
        assert(out@ =~= start + runtime_logs_text(*view));
    }
}

} // verus!
