use vstd::prelude::*;

use crate::accounts::AccountResolutionView;
use crate::bindings::opt_str_view;
use crate::render::{context_text, nl, pairs_text, render_pairs, row, rows_view, write_context, write_line};
use crate::render_views::{
    checklist_sections, local_signer_text, myc_status_text, opt_line, push_text_row,
    render_account_resolution, render_checklist_summary, render_local_signer, render_myc_status,
    render_report_tail, report_tail_text, resolution_text, text_row, write_line2, write_opt_line,
};
use crate::text::{decimal, decimal_string, push_char, str_eq, strings_view};
use crate::views::{LocalSignerStatusView, MycStatusView};

verus! {

/// What `setup` reports: a readiness checklist and how the account resolved.
#[derive(Debug, Clone, PartialEq, Eq)]
pub struct SetupView {
    pub state: String,
    pub source: String,
    pub ready: Vec<String>,
    pub needs_attention: Vec<String>,
    pub next: Vec<String>,
    pub account_resolution: AccountResolutionView,
}

/// What `status` reports: a readiness checklist and how the account resolved.
#[derive(Debug, Clone, PartialEq, Eq)]
pub struct StatusView {
    pub state: String,
    pub source: String,
    pub ready: Vec<String>,
    pub needs_attention: Vec<String>,
    pub next: Vec<String>,
    pub account_resolution: AccountResolutionView,
}

/// What `net status` reports.
#[derive(Debug, Clone, PartialEq, Eq)]
pub struct NetStatusView {
    pub state: String,
    pub source: String,
    pub session: String,
    pub relay_count: usize,
    pub publish_policy: String,
    pub signer_mode: String,
    pub account_resolution: AccountResolutionView,
    pub reason: Option<String>,
    pub actions: Vec<String>,
}

/// How the signer capability is bound to a provider.
#[derive(Debug, Clone, PartialEq, Eq)]
pub struct SignerBindingStatusView {
    pub capability_id: String,
    pub provider_runtime_id: String,
    pub binding_model: String,
    pub state: String,
    pub source: String,
    pub target_kind: Option<String>,
    pub target: Option<String>,
    pub managed_account_ref: Option<String>,
    pub signer_session_ref: Option<String>,
    pub resolved_signer_session_id: Option<String>,
    pub matched_session_count: Option<usize>,
    pub reason: Option<String>,
}

/// What `signer status` reports.
#[derive(Debug, Clone, PartialEq, Eq)]
pub struct SignerStatusView {
    pub state: String,
    pub source: String,
    pub mode: String,
    pub signer_account_id: Option<String>,
    pub account_resolution: AccountResolutionView,
    pub reason: Option<String>,
    pub binding: SignerBindingStatusView,
    pub local: Option<LocalSignerStatusView>,
    pub myc: Option<MycStatusView>,
}

/// A checklist under its headline, a blank line, and the account resolution.
pub open spec fn checklist_with_resolution(
    headline: Seq<char>,
    ready: Seq<Seq<char>>,
    needs: Seq<Seq<char>>,
    next: Seq<Seq<char>>,
    res: AccountResolutionView,
) -> Seq<char> {
    nl(headline) + checklist_sections(ready, needs, next) + seq!['\n'] + resolution_text(res)
}

fn render_checklist_with_resolution(
    out: &mut String,
    headline: &str,
    ready: &Vec<String>,
    needs: &Vec<String>,
    next: &Vec<String>,
    res: &AccountResolutionView,
)
    ensures
        final(out)@ == old(out)@ + checklist_with_resolution(
            headline@,
            strings_view(ready@),
            strings_view(needs@),
            strings_view(next@),
            *res,
        ),
{
    let ghost start = out@;
    render_checklist_summary(out, headline, ready, needs, next);
    push_char(out, '\n');
    render_account_resolution(out, res);
    proof {
        assert(out@ =~= start + checklist_with_resolution(
            headline@,
            strings_view(ready@),
            strings_view(needs@),
            strings_view(next@),
            *res,
        ));
    }
}

/// What `setup` writes.
pub open spec fn setup_text(v: SetupView) -> Seq<char> {
    checklist_with_resolution(
        if v.state@ == "unconfigured"@ {
            "Not ready yet"@
        } else {
            "Setup saved"@
        },
        strings_view(v.ready@),
        strings_view(v.needs_attention@),
        strings_view(v.next@),
        v.account_resolution,
    )
}

/// Appends what `setup` writes.
pub fn render_setup(out: &mut String, view: &SetupView)
    ensures
        final(out)@ == old(out)@ + setup_text(*view),
{
    let headline = if str_eq(view.state.as_str(), "unconfigured") {
        "Not ready yet"
    } else {
        "Setup saved"
    };
    render_checklist_with_resolution(
        out,
        headline,
        &view.ready,
        &view.needs_attention,
        &view.next,
        &view.account_resolution,
    );
}

/// What `status` writes.
pub open spec fn status_summary_text(v: StatusView) -> Seq<char> {
    checklist_with_resolution(
        if v.state@ == "unconfigured"@ {
            "Not ready yet"@
        } else {
            "Status"@
        },
        strings_view(v.ready@),
        strings_view(v.needs_attention@),
        strings_view(v.next@),
        v.account_resolution,
    )
}

/// Appends what `status` writes.
pub fn render_status_summary(out: &mut String, view: &StatusView)
    ensures
        final(out)@ == old(out)@ + status_summary_text(*view),
{
    let headline = if str_eq(view.state.as_str(), "unconfigured") {
        "Not ready yet"
    } else {
        "Status"
    };
    render_checklist_with_resolution(
        out,
        headline,
        &view.ready,
        &view.needs_attention,
        &view.next,
        &view.account_resolution,
    );
}

/// The rows of the `network` pairs.
pub open spec fn net_rows(v: NetStatusView) -> Seq<(Seq<char>, Seq<char>)> {
    seq![
        ("status"@, v.state@),
        ("session"@, v.session@),
        ("relays configured"@, decimal(v.relay_count as nat)),
        ("publish policy"@, v.publish_policy@),
        ("signer mode"@, v.signer_mode@),
    ]
}

/// What `net status` writes.
pub open spec fn net_status_text(v: NetStatusView) -> Seq<char> {
    context_text(
        if v.state@ == "configured"@ {
            "network · configured"@
        } else {
            "network · unconfigured"@
        },
    ) + pairs_text("network"@, net_rows(v)) + seq!['\n'] + resolution_text(v.account_resolution) + report_tail_text(
        opt_str_view(v.reason),
        v.source@,
        strings_view(v.actions@),
    )
}

/// Appends what `net status` writes.
pub fn render_net_status(out: &mut String, view: &NetStatusView)
    ensures
        final(out)@ == old(out)@ + net_status_text(*view),
{
    let ghost start = out@;
    if str_eq(view.state.as_str(), "configured") {
        write_context(out, "network · configured");
    } else {
        write_context(out, "network · unconfigured");
    }
    let mut rows: Vec<(String, String)> = Vec::new();
    rows.push(row("status", view.state.clone()));
    rows.push(row("session", view.session.clone()));
    rows.push(row("relays configured", decimal_string(view.relay_count as u128)));
    rows.push(row("publish policy", view.publish_policy.clone()));
    rows.push(row("signer mode", view.signer_mode.clone()));
    proof {
        assert(rows_view(rows@) =~= net_rows(*view));
    }
    render_pairs(out, "network", &rows);
    push_char(out, '\n');
    render_account_resolution(out, &view.account_resolution);
    render_report_tail(out, &view.reason, &view.source, &view.actions);
    proof {
        assert(out@ =~= start + net_status_text(*view));
    }
}

/// The `signer binding` block.
pub open spec fn signer_binding_text(b: SignerBindingStatusView) -> Seq<char> {
    nl("signer binding"@) + nl("  capability: "@ + b.capability_id@) + nl("  provider: "@ + b.provider_runtime_id@)
        + nl("  model: "@ + b.binding_model@) + nl("  status: "@ + b.state@) + nl("  source: "@ + b.source@)
        + opt_line("  target kind: "@, opt_str_view(b.target_kind)) + opt_line("  target: "@, opt_str_view(b.target))
        + opt_line("  managed account ref: "@, opt_str_view(b.managed_account_ref)) + opt_line(
        "  signer session ref: "@,
        opt_str_view(b.signer_session_ref),
    ) + opt_line("  resolved signer session id: "@, opt_str_view(b.resolved_signer_session_id)) + (
    match b.matched_session_count {
        Some(n) => nl("  matched session count: "@ + decimal(n as nat)),
        None => seq![],
    }) + opt_line("  reason: "@, opt_str_view(b.reason))
}

/// Appends the `signer binding` block.
pub fn render_signer_binding(out: &mut String, binding: &SignerBindingStatusView)
    ensures
        final(out)@ == old(out)@ + signer_binding_text(*binding),
{
    let ghost start = out@;
    write_line(out, "signer binding");
    write_line2(out, "  capability: ", binding.capability_id.as_str());
    write_line2(out, "  provider: ", binding.provider_runtime_id.as_str());
    write_line2(out, "  model: ", binding.binding_model.as_str());
    write_line2(out, "  status: ", binding.state.as_str());
    write_line2(out, "  source: ", binding.source.as_str());
    write_opt_line(out, "  target kind: ", &binding.target_kind);
    write_opt_line(out, "  target: ", &binding.target);
    write_opt_line(out, "  managed account ref: ", &binding.managed_account_ref);
    write_opt_line(out, "  signer session ref: ", &binding.signer_session_ref);
    write_opt_line(out, "  resolved signer session id: ", &binding.resolved_signer_session_id);
    if let Some(n) = binding.matched_session_count {
        let digits = decimal_string(n as u128);
        write_line2(out, "  matched session count: ", digits.as_str());
    }
    write_opt_line(out, "  reason: ", &binding.reason);
    proof {
        assert(out@ =~= start + signer_binding_text(*binding));
    }
}

/// The context line of `signer status`.
pub open spec fn signer_context(state: Seq<char>) -> Seq<char> {
    if state == "ready"@ {
        "signer · active"@
    } else if state == "unconfigured"@ {
        "signer · unconfigured"@
    } else if state == "degraded"@ {
        "signer · degraded"@
    } else if state == "unavailable"@ {
        "signer · unavailable"@
    } else {
        "signer · error"@
    }
}

fn signer_context_exec(state: &str) -> (r: &'static str)
    ensures
        r@ == signer_context(state@),
{
    if str_eq(state, "ready") {
        "signer · active"
    } else if str_eq(state, "unconfigured") {
        "signer · unconfigured"
    } else if str_eq(state, "degraded") {
        "signer · degraded"
    } else if str_eq(state, "unavailable") {
        "signer · unavailable"
    } else {
        "signer · error"
    }
}

/// The rows of the `signer` pairs.
pub open spec fn signer_rows(v: SignerStatusView) -> Seq<(Seq<char>, Seq<char>)> {
    seq![("mode"@, v.mode@), ("status"@, v.state@)] + text_row(
        "signer account id"@,
        opt_str_view(v.signer_account_id),
    )
}

/// The head of `signer status`: the context, the signer pairs, the account resolution, the reason
/// and the source.
pub open spec fn signer_head_text(v: SignerStatusView) -> Seq<char> {
    context_text(signer_context(v.state@)) + pairs_text("signer"@, signer_rows(v)) + seq!['\n'] + resolution_text(
        v.account_resolution,
    ) + (match opt_str_view(v.reason) {
        Some(r) => nl("reason: "@ + r),
        None => seq![],
    }) + nl("source: "@ + v.source@)
}

/// The local signer and myc sections of `signer status`, each after a blank line, when present.
pub open spec fn signer_extras_text(local: Option<LocalSignerStatusView>, myc: Option<MycStatusView>) -> Seq<char> {
    (match local {
        Some(l) => seq!['\n'] + local_signer_text("local account"@, l),
        None => seq![],
    }) + (match myc {
        Some(m) => seq!['\n'] + myc_status_text(m, false),
        None => seq![],
    })
}

/// What `signer status` writes.
pub open spec fn signer_status_text(v: SignerStatusView) -> Seq<char> {
    signer_head_text(v) + seq!['\n'] + signer_binding_text(v.binding) + signer_extras_text(v.local, v.myc)
}

fn render_signer_extras(out: &mut String, local: &Option<LocalSignerStatusView>, myc: &Option<MycStatusView>)
    ensures
        final(out)@ == old(out)@ + signer_extras_text(*local, *myc),
{
    let ghost start = out@;
    if let Some(l) = local {
        push_char(out, '\n');
        render_local_signer(out, "local account", l);
    }
    let ghost mid = out@;
    if let Some(m) = myc {
        push_char(out, '\n');
        render_myc_status(out, m, false);
    }
    proof {
        assert(out@ =~= start + signer_extras_text(*local, *myc));
    }
}

fn render_signer_head(out: &mut String, view: &SignerStatusView)
    ensures
        final(out)@ == old(out)@ + signer_head_text(*view),
{
    let ghost start = out@;
    write_context(out, signer_context_exec(view.state.as_str()));
    let mut rows: Vec<(String, String)> = Vec::new();
    rows.push(row("mode", view.mode.clone()));
    rows.push(row("status", view.state.clone()));
    proof {
        assert(rows_view(rows@) =~= seq![("mode"@, view.mode@), ("status"@, view.state@)]);
    }
    push_text_row(&mut rows, "signer account id", &view.signer_account_id);
    render_pairs(out, "signer", &rows);
    push_char(out, '\n');
    render_account_resolution(out, &view.account_resolution);
    if let Some(r) = &view.reason {
        write_line2(out, "reason: ", r.as_str());
    }
    write_line2(out, "source: ", view.source.as_str());
    proof {
        assert(out@ =~= start + signer_head_text(*view));
    }
}

/// Appends what `signer status` writes.
pub fn render_signer_status(out: &mut String, view: &SignerStatusView)
    ensures
        final(out)@ == old(out)@ + signer_status_text(*view),
{
    let ghost start = out@;
    render_signer_head(out, view);
    push_char(out, '\n');
    render_signer_binding(out, &view.binding);
    render_signer_extras(out, &view.local, &view.myc);
    proof {
        assert(out@ =~= start + signer_status_text(*view));
    }
}

} // verus!
