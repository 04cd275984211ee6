use vstd::prelude::*;

use crate::accounts::AccountResolutionView;
use crate::bindings::opt_str_view;
use crate::daemon::{JobDetailView, JobSummaryView, RpcSessionView, RpcSessionsView, RpcStatusView};
use crate::farm::{delivery_display, display_delivery_method};
use crate::farm_config::non_blank;
use crate::find::{join_strings, join_with};
use crate::job::{
    JobGetView, JobListView, JobWatchFrameView, JobWatchView, as_seconds, format_clock, format_timestamp,
    utc_format,
};
use crate::render::{
    Table, actions_text, cells_view, context_text, field_rows_string, item_section, next_section, nl,
    pairs_text, push_row, pushed_row, render_actions, render_field_rows, render_item_section,
    render_next_section, render_pairs, render_table, row, rows_view, table_text, write_context, write_line,
    yes_no,
};
use crate::sell::{notice_text, render_notice};
use crate::text::{
    append_str, concat2, decimal, decimal_string, owned, push_char, strings_view, trim, trim_string,
};
use crate::views::{
    AccountListView, DoctorCheckView, DoctorView, LocalSignerStatusView, MycCustodyIdentityView,
    MycRemoteSessionView, MycStatusView, RelayEntryView, RelayListView,
};

verus! {

/// A machine label shown as words: `_`-separated pieces capitalized, joined by spaces.
pub fn humanize_machine_label(value: &str) -> (r: String)
    ensures
        r@ == delivery_display(value@),
{
    display_delivery_method(value)
}

/// Appends `a` followed by `b` as one line.
pub fn write_line2(out: &mut String, a: &str, b: &str)
    ensures
        final(out)@ == old(out)@ + nl(a@ + b@),
{
    let ghost start = out@;
    append_str(out, a);
    write_line(out, b);
    proof {
        assert(out@ =~= start + nl(a@ + b@));
    }
}

/// The reason line, the source line and the next steps that close a report.
pub open spec fn report_tail_text(reason: Option<Seq<char>>, source: Seq<char>, actions: Seq<Seq<char>>) -> Seq<char> {
    (match reason {
        Some(r) => nl("reason: "@ + r),
        None => seq![],
    }) + nl("source: "@ + source) + actions_text(actions)
}

/// Appends the reason line, the source line and the next steps that close a report.
pub fn render_report_tail(out: &mut String, reason: &Option<String>, source: &String, actions: &Vec<String>)
    ensures
        final(out)@ == old(out)@ + report_tail_text(opt_str_view(*reason), source@, strings_view(actions@)),
{
    let ghost start = out@;
    if let Some(r) = reason {
        write_line2(out, "reason: ", r.as_str());
    }
    write_line2(out, "source: ", source.as_str());
    render_actions(out, actions);
    proof {
        assert(out@ =~= start + report_tail_text(opt_str_view(*reason), source@, strings_view(actions@)));
    }
}

/// `yes` or `no`, as text.
pub open spec fn yes_no_text(b: bool) -> Seq<char> {
    if b { "yes"@ } else { "no"@ }
}

/// A readiness check as one item: its humanized name, and its trimmed detail when not blank.
pub open spec fn doctor_item_text(check: DoctorCheckView) -> Seq<char> {
    let name = delivery_display(check.name@);
    match non_blank(check.detail@) {
        Some(d) => name + ": "@ + d,
        None => name,
    }
}

/// A readiness check as one item.
pub fn doctor_item(check: &DoctorCheckView) -> (r: String)
    ensures
        r@ == doctor_item_text(*check),
{
    let mut name = humanize_machine_label(check.name.as_str());
    let detail = trim_string(check.detail.as_str());
    if !detail.as_str().is_empty() {
        append_str(&mut name, ": ");
        append_str(&mut name, detail.as_str());
    }
    name
}

/// Whether a check status counts as ready.
pub open spec fn is_ready_status(s: Seq<char>) -> bool {
    s == "ok"@ || s == "ready"@ || s == "healthy"@
}

/// The items of the checks whose readiness is `ready`, in order.
pub open spec fn doctor_items(checks: Seq<DoctorCheckView>, ready: bool) -> Seq<Seq<char>>
    decreases checks.len(),
{
    if checks.len() == 0 {
        seq![]
    } else {
        let rest = doctor_items(checks.drop_last(), ready);
        if is_ready_status(checks.last().status@) == ready {
            rest.push(doctor_item_text(checks.last()))
        } else {
            rest
        }
    }
}

fn collect_doctor_items(checks: &Vec<DoctorCheckView>, ready: bool) -> (r: Vec<String>)
    ensures
        strings_view(r@) == doctor_items(checks@, ready),
{
    let mut r: Vec<String> = Vec::new();
    for i in 0..checks.len()
        invariant
            strings_view(r@) == doctor_items(checks@.take(i as int), ready),
    {
        proof {
            assert(checks@.take(i + 1).drop_last() =~= checks@.take(i as int));
        }
        let status = checks[i].status.as_str();
        let is_ready = crate::text::str_eq(status, "ok") || crate::text::str_eq(status, "ready")
            || crate::text::str_eq(status, "healthy");
        if is_ready == ready {
            let ghost before = strings_view(r@);
            r.push(doctor_item(&checks[i]));
            proof {
                assert(strings_view(r@) =~= before.push(doctor_item_text(checks@[i as int])));
            }
        }
    }
    proof {
        assert(checks@.take(checks@.len() as int) =~= checks@);
    }
    r
}

/// The sections of a checklist: what is ready, what needs attention, and what to do next, each
/// when not empty, separated by blank lines, after a blank line when there is any.
pub open spec fn checklist_sections(
    ready: Seq<Seq<char>>,
    needs: Seq<Seq<char>>,
    next: Seq<Seq<char>>,
) -> Seq<char> {
    (if ready.len() > 0 || needs.len() > 0 || next.len() > 0 {
        seq!['\n']
    } else {
        seq![]
    }) + (if ready.len() > 0 {
        item_section("Ready"@, ready)
    } else {
        seq![]
    }) + (if needs.len() > 0 {
        (if ready.len() > 0 { seq!['\n'] } else { seq![] }) + item_section("Needs attention"@, needs)
    } else {
        seq![]
    }) + (if next.len() > 0 {
        (if ready.len() > 0 || needs.len() > 0 {
            seq!['\n']
        } else {
            seq![]
        }) + item_section("Next"@, next)
    } else {
        seq![]
    })
}

/// Appends a headline and its checklist sections.
pub fn render_checklist_summary(
    out: &mut String,
    headline: &str,
    ready: &Vec<String>,
    needs_attention: &Vec<String>,
    next: &Vec<String>,
)
    ensures
        final(out)@ == old(out)@ + nl(headline@) + checklist_sections(
            strings_view(ready@),
            strings_view(needs_attention@),
            strings_view(next@),
        ),
{
    let ghost start = out@;
    write_line(out, headline);
    let ghost a = out@;
    let mut wrote_section = false;
    if ready.len() > 0 || needs_attention.len() > 0 || next.len() > 0 {
        push_char(out, '\n');
    }
    let ghost b = out@;
    if ready.len() > 0 {
        render_item_section(out, "Ready", ready);
        wrote_section = true;
    }
    let ghost c = out@;
    if needs_attention.len() > 0 {
        if wrote_section {
            push_char(out, '\n');
        }
        render_item_section(out, "Needs attention", needs_attention);
        wrote_section = true;
    }
    let ghost d = out@;
    if next.len() > 0 {
        if wrote_section {
            push_char(out, '\n');
        }
        render_item_section(out, "Next", next);
    }
    proof {
        let r = strings_view(ready@);
        let n = strings_view(needs_attention@);
        let x = strings_view(next@);
        let p1: Seq<char> = if r.len() > 0 || n.len() > 0 || x.len() > 0 { seq!['\n'] } else { seq![] };
        let p2: Seq<char> = if r.len() > 0 { item_section("Ready"@, r) } else { seq![] };
        let p3: Seq<char> = if n.len() > 0 {
            (if r.len() > 0 { seq!['\n'] } else { seq![] }) + item_section("Needs attention"@, n)
        } else {
            seq![]
        };
        let p4: Seq<char> = if x.len() > 0 {
            (if r.len() > 0 || n.len() > 0 { seq!['\n'] } else { seq![] }) + item_section("Next"@, x)
        } else {
            seq![]
        };
        assert(b =~= a + p1);
        assert(c =~= b + p2);
        assert(d =~= c + p3);
        assert(out@ =~= d + p4);
        assert(out@ =~= start + nl(headline@) + checklist_sections(r, n, x));
    }
}

/// The rows of an account resolution.
pub open spec fn resolution_rows(res: AccountResolutionView) -> Seq<(Seq<char>, Seq<char>)> {
    seq![("Source"@, delivery_display(res.source@))] + (match res.resolved_account {
        Some(a) => seq![("Resolved account"@, a.id@)],
        None => seq![],
    }) + (match res.default_account {
        Some(a) => seq![("Default account"@, a.id@)],
        None => seq![],
    })
}

/// An account resolution section.
pub open spec fn resolution_text(res: AccountResolutionView) -> Seq<char> {
    nl("Account resolution"@) + field_rows_string(resolution_rows(res)).push('\n')
}

/// Appends an account resolution section.
pub fn render_account_resolution(out: &mut String, resolution: &AccountResolutionView)
    ensures
        final(out)@ == old(out)@ + resolution_text(*resolution),
{
    let ghost start = out@;
    write_line(out, "Account resolution");
    let mut rows: Vec<(String, String)> = Vec::new();
    rows.push(row("Source", humanize_machine_label(resolution.source.as_str())));
    if let Some(account) = &resolution.resolved_account {
        rows.push(row("Resolved account", account.id.clone()));
    }
    if let Some(account) = &resolution.default_account {
        rows.push(row("Default account", account.id.clone()));
    }
    proof {
        assert(rows_view(rows@) =~= resolution_rows(*resolution));
    }
    render_field_rows(out, &rows);
    proof {
        assert(out@ =~= start + resolution_text(*resolution));
    }
}

/// What `doctor` writes: the readiness checklist, a blank line, and the account resolution.
pub open spec fn doctor_text(view: DoctorView) -> Seq<char> {
    nl("Readiness check"@) + checklist_sections(
        doctor_items(view.checks@, true),
        doctor_items(view.checks@, false),
        strings_view(view.actions@),
    ) + seq!['\n'] + resolution_text(view.account_resolution)
}

/// Appends what `doctor` shows.
pub fn render_doctor(out: &mut String, view: &DoctorView)
    ensures
        final(out)@ == old(out)@ + doctor_text(*view),
{
    let ghost start = out@;
    let ready = collect_doctor_items(&view.checks, true);
    let needs_attention = collect_doctor_items(&view.checks, false);
    render_checklist_summary(out, "Readiness check", &ready, &needs_attention, &view.actions);
    push_char(out, '\n');
    render_account_resolution(out, &view.account_resolution);
    proof {
        assert(out@ =~= start + doctor_text(*view));
    }
}

/// The local signer section, under `heading`.
pub open spec fn local_signer_text(heading: Seq<char>, l: LocalSignerStatusView) -> Seq<char> {
    nl(heading) + nl("  account id: "@ + l.account_id@) + nl(
        "  public key hex: "@ + l.public_identity.public_key_hex@,
    ) + nl("  public key npub: "@ + l.public_identity.public_key_npub@) + nl(
        "  availability: "@ + l.availability@,
    ) + nl("  secret backed: "@ + yes_no_text(l.secret_backed)) + nl("  backend: "@ + l.backend@)
        + nl("  used fallback: "@ + yes_no_text(l.used_fallback))
}

/// Appends the local signer section.
pub fn render_local_signer(out: &mut String, heading: &str, local: &LocalSignerStatusView)
    ensures
        final(out)@ == old(out)@ + local_signer_text(heading@, *local),
{
    let ghost start = out@;
    write_line(out, heading);
    write_line2(out, "  account id: ", local.account_id.as_str());
    write_line2(out, "  public key hex: ", local.public_identity.public_key_hex.as_str());
    write_line2(out, "  public key npub: ", local.public_identity.public_key_npub.as_str());
    write_line2(out, "  availability: ", local.availability.as_str());
    write_line2(out, "  secret backed: ", yes_no(local.secret_backed));
    write_line2(out, "  backend: ", local.backend.as_str());
    write_line2(out, "  used fallback: ", yes_no(local.used_fallback));
    proof {
        assert(out@ =~= start + local_signer_text(heading@, *local));
    }
}

/// One remote session section.
pub open spec fn remote_session_text(s: MycRemoteSessionView) -> Seq<char> {
    nl("myc remote session "@ + s.connection_id@) + nl("  signer id: "@ + s.signer_identity.id@) + nl(
        "  signer npub: "@ + s.signer_identity.public_key_npub@,
    ) + nl("  user id: "@ + s.user_identity.id@) + nl(
        "  user npub: "@ + s.user_identity.public_key_npub@,
    ) + nl("  relay count: "@ + decimal(s.relay_count as nat)) + (if s.permissions@.len() > 0 {
        nl("  permissions: "@ + join_with(strings_view(s.permissions@), ", "@))
    } else {
        seq![]
    })
}

/// Appends one remote session section.
pub fn render_myc_remote_session(out: &mut String, session: &MycRemoteSessionView)
    ensures
        final(out)@ == old(out)@ + remote_session_text(*session),
{
    let ghost start = out@;
    write_line2(out, "myc remote session ", session.connection_id.as_str());
    write_line2(out, "  signer id: ", session.signer_identity.id.as_str());
    write_line2(out, "  signer npub: ", session.signer_identity.public_key_npub.as_str());
    write_line2(out, "  user id: ", session.user_identity.id.as_str());
    write_line2(out, "  user npub: ", session.user_identity.public_key_npub.as_str());
    let count = decimal_string(session.relay_count as u128);
    write_line2(out, "  relay count: ", count.as_str());
    let ghost mid = out@;
    if session.permissions.len() > 0 {
        let joined = join_strings(&session.permissions, ", ");
        write_line2(out, "  permissions: ", joined.as_str());
    }
    proof {
        assert(out@ =~= start + remote_session_text(*session));
    }
}

/// The line `label: value` for a present value.
pub open spec fn opt_line(label: Seq<char>, value: Option<Seq<char>>) -> Seq<char> {
    match value {
        Some(v) => nl(label + v),
        None => seq![],
    }
}

pub(crate) fn write_opt_line(out: &mut String, label: &str, value: &Option<String>)
    ensures
        final(out)@ == old(out)@ + opt_line(label@, opt_str_view(*value)),
{
    match value {
        Some(v) => write_line2(out, label, v.as_str()),
        None => {
            proof {
                assert(out@ =~= out@ + opt_line(label@, opt_str_view(*value)));
            }
        },
    }
}

/// One custody identity section, under `heading`.
pub open spec fn custody_identity_text(heading: Seq<char>, i: MycCustodyIdentityView) -> Seq<char> {
    nl(heading) + nl("  resolved: "@ + yes_no_text(i.resolved)) + opt_line(
        "  selected account id: "@,
        opt_str_view(i.selected_account_id),
    ) + opt_line("  selected account state: "@, opt_str_view(i.selected_account_state)) + opt_line(
        "  identity id: "@,
        opt_str_view(i.identity_id),
    ) + opt_line("  public key hex: "@, opt_str_view(i.public_key_hex)) + opt_line(
        "  error: "@,
        opt_str_view(i.error),
    )
}

/// Appends one custody identity section.
pub fn render_myc_custody_identity(out: &mut String, heading: &str, identity: &MycCustodyIdentityView)
    ensures
        final(out)@ == old(out)@ + custody_identity_text(heading@, *identity),
{
    let ghost start = out@;
    write_line(out, heading);
    write_line2(out, "  resolved: ", yes_no(identity.resolved));
    write_opt_line(out, "  selected account id: ", &identity.selected_account_id);
    write_opt_line(out, "  selected account state: ", &identity.selected_account_state);
    write_opt_line(out, "  identity id: ", &identity.identity_id);
    write_opt_line(out, "  public key hex: ", &identity.public_key_hex);
    write_opt_line(out, "  error: ", &identity.error);
    proof {
        assert(out@ =~= start + custody_identity_text(heading@, *identity));
    }
}

/// The rows of the `myc` pairs.
pub open spec fn myc_rows(v: MycStatusView) -> Seq<(Seq<char>, Seq<char>)> {
    seq![("executable"@, v.executable@), ("status"@, v.state@), ("ready"@, yes_no_text(v.ready))]
        + (match v.service_status {
        Some(s) => seq![("service status"@, s@)],
        None => seq![],
    }) + seq![("remote session count"@, decimal(v.remote_session_count as nat))]
}

/// The remote session sections, each after a blank line.
pub open spec fn sessions_text(sessions: Seq<MycRemoteSessionView>) -> Seq<char>
    decreases sessions.len(),
{
    if sessions.len() == 0 {
        seq![]
    } else {
        sessions_text(sessions.drop_last()) + seq!['\n'] + remote_session_text(sessions.last())
    }
}

/// The first part of `myc status`: context, pairs, reasons and source.
pub open spec fn myc_head_text(v: MycStatusView, standalone: bool) -> Seq<char> {
    (if standalone {
        context_text("myc · "@ + v.state@)
    } else {
        seq![]
    }) + pairs_text("myc"@, myc_rows(v)) + opt_line("reason: "@, opt_str_view(v.reason)) + (if v.reasons@.len()
        > 0 {
        nl("reasons: "@ + join_with(strings_view(v.reasons@), " | "@))
    } else {
        seq![]
    }) + nl("source: "@ + v.source@)
}

/// The custody sections of `myc status`.
pub open spec fn custody_text(v: MycStatusView) -> Seq<char> {
    match v.custody {
        Some(c) => seq!['\n'] + custody_identity_text("myc custody signer"@, c.signer)
            + custody_identity_text("myc custody user"@, c.user) + (match c.discovery_app {
            Some(d) => custody_identity_text("myc custody discovery app"@, d),
            None => seq![],
        }),
        None => seq![],
    }
}

/// The last part of `myc status`: local signer, remote sessions and custody.
pub open spec fn myc_tail_text(v: MycStatusView) -> Seq<char> {
    (match v.local_signer {
        Some(l) => seq!['\n'] + local_signer_text("myc local signer"@, l),
        None => seq![],
    }) + sessions_text(v.remote_sessions@) + custody_text(v)
}

/// What `myc status` writes; the context line only when it stands alone.
pub open spec fn myc_status_text(v: MycStatusView, standalone: bool) -> Seq<char> {
    myc_head_text(v, standalone) + myc_tail_text(v)
}

fn myc_pair_rows(view: &MycStatusView) -> (r: Vec<(String, String)>)
    ensures
        rows_view(r@) == myc_rows(*view),
{
    let mut rows: Vec<(String, String)> = Vec::new();
    rows.push(row("executable", view.executable.clone()));
    rows.push(row("status", view.state.clone()));
    rows.push(row("ready", owned(yes_no(view.ready))));
    if let Some(service_status) = &view.service_status {
        rows.push(row("service status", service_status.clone()));
    }
    rows.push(row("remote session count", decimal_string(view.remote_session_count as u128)));
    proof {
        assert(rows_view(rows@) =~= myc_rows(*view));
    }
    rows
}

#[verifier::rlimit(40)]
fn render_myc_head(out: &mut String, view: &MycStatusView, standalone: bool)
    ensures
        final(out)@ == old(out)@ + myc_head_text(*view, standalone),
{
    let ghost start = out@;
    if standalone {
        let context = concat2("myc · ", view.state.as_str());
        write_context(out, context.as_str());
    }
    let ghost s1 = out@;
    let rows = myc_pair_rows(view);
    render_pairs(out, "myc", &rows);
    write_opt_line(out, "reason: ", &view.reason);
    let ghost s2 = out@;
    if view.reasons.len() > 0 {
        let joined = join_strings(&view.reasons, " | ");
        write_line2(out, "reasons: ", joined.as_str());
    }
    let ghost s3 = out@;
    write_line2(out, "source: ", view.source.as_str());
    proof {
        let v = *view;
        let p0: Seq<char> = if standalone { context_text("myc · "@ + v.state@) } else { seq![] };
        let p3: Seq<char> = if v.reasons@.len() > 0 {
            nl("reasons: "@ + join_with(strings_view(v.reasons@), " | "@))
        } else {
            seq![]
        };
        assert(s1 =~= start + p0);
        assert(s3 =~= s2 + p3);
        assert(out@ =~= start + myc_head_text(v, standalone));
    }
}

fn render_myc_custody(out: &mut String, view: &MycStatusView)
    ensures
        final(out)@ == old(out)@ + custody_text(*view),
{
    let ghost start = out@;
    if let Some(custody) = &view.custody {
        push_char(out, '\n');
        render_myc_custody_identity(out, "myc custody signer", &custody.signer);
        render_myc_custody_identity(out, "myc custody user", &custody.user);
        if let Some(discovery_app) = &custody.discovery_app {
            render_myc_custody_identity(out, "myc custody discovery app", discovery_app);
        }
    }
    proof {
        assert(out@ =~= start + custody_text(*view));
    }
}

fn render_myc_tail(out: &mut String, view: &MycStatusView)
    ensures
        final(out)@ == old(out)@ + myc_tail_text(*view),
{
    let ghost start = out@;
    if let Some(local_signer) = &view.local_signer {
        push_char(out, '\n');
        render_local_signer(out, "myc local signer", local_signer);
    }
    let ghost s5 = out@;
    for i in 0..view.remote_sessions.len()
        invariant
            out@ == s5 + sessions_text(view.remote_sessions@.take(i as int)),
    {
        proof {
            assert(view.remote_sessions@.take(i + 1).drop_last() =~= view.remote_sessions@.take(i as int));
        }
        push_char(out, '\n');
        render_myc_remote_session(out, &view.remote_sessions[i]);
        proof {
            assert(out@ =~= s5 + sessions_text(view.remote_sessions@.take(i + 1)));
        }
    }
    proof {
        assert(view.remote_sessions@.take(view.remote_sessions@.len() as int) =~= view.remote_sessions@);
    }
    let ghost s6 = out@;
    render_myc_custody(out, view);
    proof {
        let v = *view;
        let p5: Seq<char> = match v.local_signer {
            Some(l) => seq!['\n'] + local_signer_text("myc local signer"@, l),
            None => seq![],
        };
        assert(s5 =~= start + p5);
        assert(out@ =~= start + myc_tail_text(v));
    }
}

/// Appends what `myc status` shows.
pub fn render_myc_status(out: &mut String, view: &MycStatusView, standalone: bool)
    ensures
        final(out)@ == old(out)@ + myc_status_text(*view, standalone),
{
    let ghost start = out@;
    render_myc_head(out, view, standalone);
    render_myc_tail(out, view);
    proof {
        assert(out@ =~= start + myc_status_text(*view, standalone));
    }
}

/// `Yes` or `No`.
pub open spec fn yes_no_title(b: bool) -> Seq<char> {
    if b { "Yes"@ } else { "No"@ }
}

pub(crate) fn yes_no_owned(b: bool) -> (r: String)
    ensures
        r@ == yes_no_title(b),
{
    if b { owned("Yes") } else { owned("No") }
}

/// `s` when `n` is not one.
pub open spec fn plural(n: nat) -> Seq<char> {
    if n == 1 { seq![] } else { "s"@ }
}

/// The line `<n> <noun>` or `<n> <noun>s`.
pub open spec fn count_line(n: nat, noun: Seq<char>) -> Seq<char> {
    decimal(n) + " "@ + noun + plural(n)
}

pub(crate) fn count_text(n: usize, noun: &str) -> (r: String)
    ensures
        r@ == count_line(n as nat, noun@),
{
    let mut r = decimal_string(n as u128);
    append_str(&mut r, " ");
    append_str(&mut r, noun);
    if n != 1 {
        append_str(&mut r, "s");
    }
    proof {
        assert(r@ =~= count_line(n as nat, noun@));
    }
    r
}

/// One relay: its url and read and write flags.
pub open spec fn relay_entry_text(r: RelayEntryView) -> Seq<char> {
    nl(r.url@) + field_rows_string(seq![("Read"@, yes_no_title(r.read)), ("Write"@, yes_no_title(r.write))]).push(
        '\n',
    )
}

/// The relays, blank lines between them.
pub open spec fn relay_entries(rs: Seq<RelayEntryView>) -> Seq<char>
    decreases rs.len(),
{
    if rs.len() == 0 {
        seq![]
    } else if rs.len() == 1 {
        relay_entry_text(rs[0])
    } else {
        relay_entries(rs.drop_last()) + seq!['\n'] + relay_entry_text(rs.last())
    }
}

/// What `relay ls` writes.
pub open spec fn relay_list_text(v: RelayListView) -> Seq<char> {
    if v.relays@.len() == 0 {
        nl("Not ready yet"@) + (match v.reason {
            Some(r) => seq!['\n'] + nl(r@),
            None => seq![],
        }) + seq!['\n'] + item_section("Missing"@, seq!["Relay configuration"@]) + next_section(
            strings_view(v.actions@),
        )
    } else {
        nl(count_line(v.count as nat, "relay"@)) + seq!['\n'] + relay_entries(v.relays@) + next_section(
            strings_view(v.actions@),
        )
    }
}

fn render_relay_entry(out: &mut String, relay: &RelayEntryView)
    ensures
        final(out)@ == old(out)@ + relay_entry_text(*relay),
{
    let ghost start = out@;
    write_line(out, relay.url.as_str());
    let mut rows: Vec<(String, String)> = Vec::new();
    rows.push(row("Read", yes_no_owned(relay.read)));
    rows.push(row("Write", yes_no_owned(relay.write)));
    proof {
        assert(rows_view(rows@) =~= seq![("Read"@, yes_no_title(relay.read)), ("Write"@, yes_no_title(relay.write))]);
    }
    render_field_rows(out, &rows);
    proof {
        assert(out@ =~= start + relay_entry_text(*relay));
    }
}

/// Appends what `relay ls` shows.
pub fn render_relay_list(out: &mut String, view: &RelayListView)
    ensures
        final(out)@ == old(out)@ + relay_list_text(*view),
{
    let ghost start = out@;
    if view.relays.len() == 0 {
        write_line(out, "Not ready yet");
        if let Some(reason) = &view.reason {
            push_char(out, '\n');
            write_line(out, reason.as_str());
        }
        let ghost mid = out@;
        push_char(out, '\n');
        let mut missing: Vec<String> = Vec::new();
        missing.push(owned("Relay configuration"));
        proof {
            assert(strings_view(missing@) =~= seq!["Relay configuration"@]);
        }
        render_item_section(out, "Missing", &missing);
        render_next_section(out, &view.actions);
        proof {
            assert(out@ =~= start + relay_list_text(*view));
        }
        return;
    }
    let heading = count_text(view.count, "relay");
    write_line(out, heading.as_str());
    push_char(out, '\n');
    let ghost s1 = out@;
    for i in 0..view.relays.len()
        invariant
            out@ == s1 + relay_entries(view.relays@.take(i as int)),
    {
        proof {
            assert(view.relays@.take(i + 1).drop_last() =~= view.relays@.take(i as int));
        }
        if i > 0 {
            push_char(out, '\n');
        }
        render_relay_entry(out, &view.relays[i]);
        proof {
            if i == 0 {
                assert(view.relays@.take(1)[0] == view.relays@[0]);
            }
            assert(out@ =~= s1 + relay_entries(view.relays@.take(i + 1)));
        }
    }
    proof {
        assert(view.relays@.take(view.relays@.len() as int) =~= view.relays@);
    }
    render_next_section(out, &view.actions);
    proof {
        assert(out@ =~= start + relay_list_text(*view));
    }
}

/// The name an account is listed under: its display name when not blank, else its id.
pub open spec fn account_title(a: crate::accounts::AccountSummaryView) -> Seq<char> {
    match a.display_name {
        Some(n) => if trim(n@).len() > 0 {
            n@
        } else {
            a.id@
        },
        None => a.id@,
    }
}

/// One listed account.
pub open spec fn account_entry_text(a: crate::accounts::AccountSummaryView) -> Seq<char> {
    nl(account_title(a)) + field_rows_string(
        seq![
            ("Account"@, a.id@),
            ("Signer"@, delivery_display(a.signer@)),
            ("Default"@, yes_no_title(a.is_default)),
        ],
    ).push('\n')
}

/// The listed accounts, blank lines between them.
pub open spec fn account_entries(accounts: Seq<crate::accounts::AccountSummaryView>) -> Seq<char>
    decreases accounts.len(),
{
    if accounts.len() == 0 {
        seq![]
    } else if accounts.len() == 1 {
        account_entry_text(accounts[0])
    } else {
        account_entries(accounts.drop_last()) + seq!['\n'] + account_entry_text(accounts.last())
    }
}

/// What `account list` writes.
pub open spec fn account_list_text(v: AccountListView) -> Seq<char> {
    if v.accounts@.len() == 0 {
        nl("No accounts yet"@) + next_section(strings_view(v.actions@))
    } else {
        nl(count_line(v.count as nat, "account"@)) + seq!['\n'] + account_entries(v.accounts@)
            + next_section(strings_view(v.actions@))
    }
}

fn render_account_entry(out: &mut String, account: &crate::accounts::AccountSummaryView)
    ensures
        final(out)@ == old(out)@ + account_entry_text(*account),
{
    let ghost start = out@;
    let title = match &account.display_name {
        Some(n) => if crate::text::is_blank_str(n.as_str()) {
            account.id.as_str()
        } else {
            n.as_str()
        },
        None => account.id.as_str(),
    };
    write_line(out, title);
    let mut rows: Vec<(String, String)> = Vec::new();
    rows.push(row("Account", account.id.clone()));
    rows.push(row("Signer", humanize_machine_label(account.signer.as_str())));
    rows.push(row("Default", yes_no_owned(account.is_default)));
    proof {
        assert(rows_view(rows@) =~= seq![
            ("Account"@, account.id@),
            ("Signer"@, delivery_display(account.signer@)),
            ("Default"@, yes_no_title(account.is_default)),
        ]);
    }
    render_field_rows(out, &rows);
    proof {
        assert(out@ =~= start + account_entry_text(*account));
    }
}

/// Appends what `account list` shows.
pub fn render_account_list(out: &mut String, view: &AccountListView)
    ensures
        final(out)@ == old(out)@ + account_list_text(*view),
{
    let ghost start = out@;
    if view.accounts.len() == 0 {
        write_line(out, "No accounts yet");
        render_next_section(out, &view.actions);
        proof {
            assert(out@ =~= start + account_list_text(*view));
        }
        return;
    }
    let heading = count_text(view.count, "account");
    write_line(out, heading.as_str());
    push_char(out, '\n');
    let ghost s1 = out@;
    for i in 0..view.accounts.len()
        invariant
            out@ == s1 + account_entries(view.accounts@.take(i as int)),
    {
        proof {
            assert(view.accounts@.take(i + 1).drop_last() =~= view.accounts@.take(i as int));
        }
        if i > 0 {
            push_char(out, '\n');
        }
        render_account_entry(out, &view.accounts[i]);
        proof {
            if i == 0 {
                assert(view.accounts@.take(1)[0] == view.accounts@[0]);
            }
            assert(out@ =~= s1 + account_entries(view.accounts@.take(i + 1)));
        }
    }
    proof {
        assert(view.accounts@.take(view.accounts@.len() as int) =~= view.accounts@);
    }
    render_next_section(out, &view.actions);
    proof {
        assert(out@ =~= start + account_list_text(*view));
    }
}

/// `value`'s digits, when present, as a row.
pub open spec fn count_row(label: Seq<char>, value: Option<usize>) -> Seq<(Seq<char>, Seq<char>)> {
    match value {
        Some(n) => seq![(label, decimal(n as nat))],
        None => seq![],
    }
}

/// A present text value as a row.
pub open spec fn text_row(label: Seq<char>, value: Option<Seq<char>>) -> Seq<(Seq<char>, Seq<char>)> {
    match value {
        Some(v) => seq![(label, v)],
        None => seq![],
    }
}

/// The rows of the `rpc` pairs.
pub open spec fn rpc_rows(v: RpcStatusView) -> Seq<(Seq<char>, Seq<char>)> {
    seq![("url"@, v.url@), ("status"@, v.state@)] + text_row("auth mode"@, opt_str_view(v.auth_mode))
        + text_row("signer mode"@, opt_str_view(v.signer_mode)) + text_row(
        "default signer"@,
        opt_str_view(v.default_signer_mode),
    )
}

/// The rows of the `bridge` pairs.
pub open spec fn bridge_rows(v: RpcStatusView) -> Seq<(Seq<char>, Seq<char>)> {
    (match v.bridge_enabled {
        Some(b) => seq![("bridge enabled"@, yes_no_text(b))],
        None => seq![],
    }) + (match v.bridge_ready {
        Some(b) => seq![("bridge ready"@, yes_no_text(b))],
        None => seq![],
    }) + count_row("relay count"@, v.relay_count) + count_row("retained jobs"@, v.retained_jobs)
        + count_row("job retention"@, v.job_status_retention)
}

/// What `rpc status` writes.
pub open spec fn rpc_status_text(v: RpcStatusView) -> Seq<char> {
    context_text("rpc · "@ + v.state@) + pairs_text("rpc"@, rpc_rows(v)) + (if bridge_rows(v).len()
        > 0 {
        pairs_text("bridge"@, bridge_rows(v))
    } else {
        seq![]
    }) + opt_line("reason: "@, opt_str_view(v.reason)) + nl("source: "@ + v.source@) + actions_text(
        strings_view(v.actions@),
    )
}

pub(crate) fn push_text_row(rows: &mut Vec<(String, String)>, label: &str, value: &Option<String>)
    ensures
        rows_view(final(rows)@) == rows_view(old(rows)@) + text_row(label@, opt_str_view(*value)),
{
    let ghost before = rows_view(rows@);
    if let Some(v) = value {
        rows.push(row(label, v.clone()));
    }
    proof {
        assert(rows_view(rows@) =~= before + text_row(label@, opt_str_view(*value)));
    }
}

fn push_count_row(rows: &mut Vec<(String, String)>, label: &str, value: Option<usize>)
    ensures
        rows_view(final(rows)@) == rows_view(old(rows)@) + count_row(label@, value),
{
    let ghost before = rows_view(rows@);
    if let Some(n) = value {
        rows.push(row(label, decimal_string(n as u128)));
    }
    proof {
        assert(rows_view(rows@) =~= before + count_row(label@, value));
    }
}

fn rpc_pair_rows(view: &RpcStatusView) -> (r: Vec<(String, String)>)
    ensures
        rows_view(r@) == rpc_rows(*view),
{
    let mut rows: Vec<(String, String)> = Vec::new();
    rows.push(row("url", view.url.clone()));
    rows.push(row("status", view.state.clone()));
    push_text_row(&mut rows, "auth mode", &view.auth_mode);
    push_text_row(&mut rows, "signer mode", &view.signer_mode);
    push_text_row(&mut rows, "default signer", &view.default_signer_mode);
    proof {
        assert(rows_view(rows@) =~= rpc_rows(*view));
    }
    rows
}

fn bridge_pair_rows(view: &RpcStatusView) -> (r: Vec<(String, String)>)
    ensures
        rows_view(r@) == bridge_rows(*view),
{
    let mut rows: Vec<(String, String)> = Vec::new();
    if let Some(b) = view.bridge_enabled {
        rows.push(row("bridge enabled", owned(yes_no(b))));
    }
    if let Some(b) = view.bridge_ready {
        rows.push(row("bridge ready", owned(yes_no(b))));
    }
    let ghost flags = rows_view(rows@);
    push_count_row(&mut rows, "relay count", view.relay_count);
    push_count_row(&mut rows, "retained jobs", view.retained_jobs);
    push_count_row(&mut rows, "job retention", view.job_status_retention);
    proof {
        let v = *view;
        let f: Seq<(Seq<char>, Seq<char>)> = (match v.bridge_enabled {
            Some(b) => seq![("bridge enabled"@, yes_no_text(b))],
            None => seq![],
        }) + (match v.bridge_ready {
            Some(b) => seq![("bridge ready"@, yes_no_text(b))],
            None => seq![],
        });
        assert(flags =~= f);
        assert(rows_view(rows@) =~= bridge_rows(v));
    }
    rows
}

/// Appends what `rpc status` shows.
#[verifier::rlimit(40)]
pub fn render_rpc_status(out: &mut String, view: &RpcStatusView)
    ensures
        final(out)@ == old(out)@ + rpc_status_text(*view),
{
    let ghost start = out@;
    let context = concat2("rpc · ", view.state.as_str());
    write_context(out, context.as_str());
    let rows = rpc_pair_rows(view);
    render_pairs(out, "rpc", &rows);
    let ghost s1 = out@;
    let bridge = bridge_pair_rows(view);
    if bridge.len() > 0 {
        render_pairs(out, "bridge", &bridge);
    }
    let ghost s2 = out@;
    write_opt_line(out, "reason: ", &view.reason);
    write_line2(out, "source: ", view.source.as_str());
    render_actions(out, &view.actions);
    proof {
        let p: Seq<char> = if bridge_rows(*view).len() > 0 {
            pairs_text("bridge"@, bridge_rows(*view))
        } else {
            seq![]
        };
        assert(s2 =~= s1 + p);
        assert(out@ =~= start + rpc_status_text(*view));
    }
}

/// The context line of `rpc sessions`.
pub open spec fn sessions_context(v: RpcSessionsView) -> Seq<char> {
    if v.state@ == "ready"@ {
        "rpc · "@ + count_line(v.count as nat, "session"@)
    } else if v.state@ == "empty"@ {
        "rpc · no public sessions"@
    } else if v.state@ == "unconfigured"@ {
        "rpc · sessions unconfigured"@
    } else if v.state@ == "unavailable"@ {
        "rpc · sessions unavailable"@
    } else {
        "rpc · sessions error"@
    }
}

/// The table cells of one session.
pub open spec fn session_cells(s: RpcSessionView) -> Seq<Seq<char>> {
    seq![
        s.session_id@,
        s.role@,
        yes_no_text(s.auth_required),
        yes_no_text(s.authorized),
        decimal(s.relay_count as nat),
        match s.expires_in_secs {
            Some(secs) => decimal(secs as nat) + "s"@,
            None => "n/a"@,
        },
    ]
}

/// The session table's headers.
pub open spec fn session_headers() -> Seq<Seq<char>> {
    seq!["session"@, "role"@, "auth"@, "authorized"@, "relays"@, "expires"@]
}

/// What `rpc sessions` writes.
pub open spec fn rpc_sessions_text(v: RpcSessionsView) -> Seq<char> {
    context_text(sessions_context(v)) + (if v.sessions@.len() == 0 {
        match v.reason {
            Some(r) => nl(r@) + seq!['\n'],
            None => seq![],
        }
    } else {
        table_text(session_headers(), v.sessions@.map_values(|s: RpcSessionView| session_cells(s))) + seq![
            '\n',
        ]
    }) + nl("rpc url: "@ + v.url@) + nl("source: "@ + v.source@) + actions_text(strings_view(v.actions@))
}

fn sessions_context_text(view: &RpcSessionsView) -> (r: String)
    ensures
        r@ == sessions_context(*view),
{
    let state = view.state.as_str();
    if crate::text::str_eq(state, "ready") {
        let counted = count_text(view.count, "session");
        concat2("rpc · ", counted.as_str())
    } else if crate::text::str_eq(state, "empty") {
        owned("rpc · no public sessions")
    } else if crate::text::str_eq(state, "unconfigured") {
        owned("rpc · sessions unconfigured")
    } else if crate::text::str_eq(state, "unavailable") {
        owned("rpc · sessions unavailable")
    } else {
        owned("rpc · sessions error")
    }
}

fn session_row(s: &RpcSessionView) -> (r: Vec<String>)
    ensures
        strings_view(r@) == session_cells(*s),
        r@.len() == 6,
{
    let mut r: Vec<String> = Vec::new();
    r.push(s.session_id.clone());
    r.push(s.role.clone());
    r.push(owned(yes_no(s.auth_required)));
    r.push(owned(yes_no(s.authorized)));
    r.push(decimal_string(s.relay_count as u128));
    r.push(match s.expires_in_secs {
        Some(secs) => {
            let digits = decimal_string(secs as u128);
            concat2(digits.as_str(), "s")
        },
        None => owned("n/a"),
    });
    proof {
        assert(strings_view(r@) =~= session_cells(*s));
    }
    r
}

/// Appends what `rpc sessions` shows.
pub fn render_rpc_sessions(out: &mut String, view: &RpcSessionsView)
    ensures
        final(out)@ == old(out)@ + rpc_sessions_text(*view),
{
    let ghost start = out@;
    let context = sessions_context_text(view);
    write_context(out, context.as_str());
    let ghost s1 = out@;
    if view.sessions.len() == 0 {
        if let Some(reason) = &view.reason {
            write_line(out, reason.as_str());
            push_char(out, '\n');
        }
    } else {
        let mut rows: Vec<Vec<String>> = Vec::new();
        for i in 0..view.sessions.len()
            invariant
                rows@.len() == i,
                forall|j: int| 0 <= j < i ==> #[trigger] rows@[j]@.len() == 6,
                forall|j: int| 0 <= j < i ==> #[trigger] strings_view(rows@[j]@) == session_cells(view.sessions@[j]),
        {
            rows.push(session_row(&view.sessions[i]));
        }
        proof {
            assert(cells_view(rows@) =~= view.sessions@.map_values(|s: RpcSessionView| session_cells(s)));
        }
        let table = Table { headers: &["session", "role", "auth", "authorized", "relays", "expires"], rows };
        proof {
            reveal_strlit("session");
            reveal_strlit("role");
            reveal_strlit("auth");
            reveal_strlit("authorized");
            reveal_strlit("relays");
            reveal_strlit("expires");
            assert(table.headers@.map_values(|h: &str| h@) =~= session_headers());
        }
        render_table(out, &table);
        push_char(out, '\n');
    }
    let ghost s2 = out@;
    write_line2(out, "rpc url: ", view.url.as_str());
    write_line2(out, "source: ", view.source.as_str());
    render_actions(out, &view.actions);
    proof {
        let v = *view;
        let mid: Seq<char> = if v.sessions@.len() == 0 {
            match v.reason {
                Some(r) => nl(r@) + seq!['\n'],
                None => seq![],
            }
        } else {
            table_text(session_headers(), v.sessions@.map_values(|s: RpcSessionView| session_cells(s))) + seq![
                '\n',
            ]
        };
        assert(s2 =~= s1 + mid);
        assert(out@ =~= start + rpc_sessions_text(v));
    }
}

/// A unix time as the job views show it.
pub open spec fn timestamp_text(unix: u64) -> Seq<char> {
    match utc_format(as_seconds(unix), "%Y-%m-%d %H:%M:%S UTC"@) {
        Some(t) => t,
        None => decimal(unix as nat),
    }
}

/// The context line of `job ls`.
pub open spec fn job_list_context(v: JobListView) -> Seq<char> {
    if v.state@ == "ready"@ {
        "activity · "@ + count_line(v.count as nat, "job"@)
    } else if v.state@ == "empty"@ {
        "activity · no retained jobs"@
    } else if v.state@ == "unconfigured"@ {
        "activity · jobs unconfigured"@
    } else if v.state@ == "unavailable"@ {
        "activity · jobs unavailable"@
    } else {
        "activity · jobs error"@
    }
}

/// The table cells of one job.
pub open spec fn job_cells(j: JobSummaryView) -> Seq<Seq<char>> {
    seq![
        j.id@,
        j.command@,
        j.state@,
        j.signer@,
        match opt_str_view(j.signer_session_id) {
            Some(s) => s,
            None => seq![],
        },
        timestamp_text(
            match j.completed_at_unix {
                Some(t) => t,
                None => j.requested_at_unix,
            },
        ),
    ]
}

/// The job table's headers.
pub open spec fn job_headers() -> Seq<Seq<char>> {
    seq!["job"@, "type"@, "state"@, "signer"@, "session"@, "updated"@]
}

/// What `job ls` writes.
pub open spec fn job_list_text(v: JobListView) -> Seq<char> {
    context_text(job_list_context(v)) + (if v.jobs@.len() == 0 {
        match v.reason {
            Some(r) => nl(r@) + seq!['\n'],
            None => seq![],
        }
    } else {
        table_text(job_headers(), v.jobs@.map_values(|j: JobSummaryView| job_cells(j))) + seq!['\n']
    }) + nl("rpc url: "@ + v.rpc_url@) + nl("source: "@ + v.source@) + actions_text(
        strings_view(v.actions@),
    )
}

fn job_list_context_text(view: &JobListView) -> (r: String)
    ensures
        r@ == job_list_context(*view),
{
    let state = view.state.as_str();
    if crate::text::str_eq(state, "ready") {
        let counted = count_text(view.count, "job");
        concat2("activity · ", counted.as_str())
    } else if crate::text::str_eq(state, "empty") {
        owned("activity · no retained jobs")
    } else if crate::text::str_eq(state, "unconfigured") {
        owned("activity · jobs unconfigured")
    } else if crate::text::str_eq(state, "unavailable") {
        owned("activity · jobs unavailable")
    } else {
        owned("activity · jobs error")
    }
}

fn job_row(j: &JobSummaryView) -> (r: Vec<String>)
    ensures
        strings_view(r@) == job_cells(*j),
        r@.len() == 6,
{
    let mut r: Vec<String> = Vec::new();
    r.push(j.id.clone());
    r.push(j.command.clone());
    r.push(j.state.clone());
    r.push(j.signer.clone());
    r.push(match &j.signer_session_id {
        Some(s) => s.clone(),
        None => String::new(),
    });
    let updated = match j.completed_at_unix {
        Some(t) => t,
        None => j.requested_at_unix,
    };
    r.push(format_timestamp(updated));
    proof {
        assert(strings_view(r@) =~= job_cells(*j));
    }
    r
}

/// Appends what `job ls` shows.
pub fn render_job_list(out: &mut String, view: &JobListView)
    ensures
        final(out)@ == old(out)@ + job_list_text(*view),
{
    let ghost start = out@;
    let context = job_list_context_text(view);
    write_context(out, context.as_str());
    let ghost s1 = out@;
    if view.jobs.len() == 0 {
        if let Some(reason) = &view.reason {
            write_line(out, reason.as_str());
            push_char(out, '\n');
        }
    } else {
        let mut rows: Vec<Vec<String>> = Vec::new();
        for i in 0..view.jobs.len()
            invariant
                rows@.len() == i,
                forall|j: int| 0 <= j < i ==> #[trigger] rows@[j]@.len() == 6,
                forall|j: int| 0 <= j < i ==> #[trigger] strings_view(rows@[j]@) == job_cells(view.jobs@[j]),
        {
            rows.push(job_row(&view.jobs[i]));
        }
        proof {
            assert(cells_view(rows@) =~= view.jobs@.map_values(|j: JobSummaryView| job_cells(j)));
        }
        let table = Table { headers: &["job", "type", "state", "signer", "session", "updated"], rows };
        proof {
            reveal_strlit("job");
            reveal_strlit("type");
            reveal_strlit("state");
            reveal_strlit("signer");
            reveal_strlit("session");
            reveal_strlit("updated");
            assert(table.headers@.map_values(|h: &str| h@) =~= job_headers());
        }
        render_table(out, &table);
        push_char(out, '\n');
    }
    let ghost s2 = out@;
    write_line2(out, "rpc url: ", view.rpc_url.as_str());
    write_line2(out, "source: ", view.source.as_str());
    render_actions(out, &view.actions);
    proof {
        let v = *view;
        let mid: Seq<char> = if v.jobs@.len() == 0 {
            match v.reason {
                Some(r) => nl(r@) + seq!['\n'],
                None => seq![],
            }
        } else {
            table_text(job_headers(), v.jobs@.map_values(|j: JobSummaryView| job_cells(j))) + seq!['\n']
        };
        assert(s2 =~= s1 + mid);
        assert(out@ =~= start + job_list_text(v));
    }
}

/// The rows of one job's pairs.
pub open spec fn job_rows(j: JobDetailView) -> Seq<(Seq<char>, Seq<char>)> {
    seq![
        ("id"@, j.id@),
        ("type"@, j.command@),
        ("state"@, j.state@),
        ("signer mode"@, j.signer@),
        ("signer session"@, match opt_str_view(j.signer_session_id) {
            Some(s) => s,
            None => "-"@,
        }),
        ("requested"@, timestamp_text(j.requested_at_unix)),
        ("completed"@, match j.completed_at_unix {
            Some(t) => timestamp_text(t),
            None => "pending"@,
        }),
        ("terminal"@, yes_no_text(j.terminal)),
        ("recovered after restart"@, yes_no_text(j.recovered_after_restart)),
        ("delivery policy"@, j.delivery_policy@),
        ("relay outcome"@, j.relay_outcome_summary@),
    ]
}

/// What `job get` writes.
pub open spec fn job_get_text(v: JobGetView) -> Seq<char> {
    context_text("activity · "@ + v.lookup@) + (match v.job {
        Some(j) => pairs_text("job"@, job_rows(j)) + (if j.attempt_summaries@.len() > 0 {
            item_section("attempts"@, strings_view(j.attempt_summaries@)) + seq!['\n']
        } else {
            seq![]
        }),
        None => match v.reason {
            Some(r) => nl(r@) + seq!['\n'],
            None => seq![],
        },
    }) + nl("rpc url: "@ + v.rpc_url@) + nl("source: "@ + v.source@) + actions_text(
        strings_view(v.actions@),
    )
}

fn job_pair_rows(j: &JobDetailView) -> (r: Vec<(String, String)>)
    ensures
        rows_view(r@) == job_rows(*j),
{
    let mut rows: Vec<(String, String)> = Vec::new();
    rows.push(row("id", j.id.clone()));
    rows.push(row("type", j.command.clone()));
    rows.push(row("state", j.state.clone()));
    rows.push(row("signer mode", j.signer.clone()));
    rows.push(row("signer session", match &j.signer_session_id {
        Some(s) => s.clone(),
        None => owned("-"),
    }));
    rows.push(row("requested", format_timestamp(j.requested_at_unix)));
    rows.push(row("completed", match j.completed_at_unix {
        Some(t) => format_timestamp(t),
        None => owned("pending"),
    }));
    rows.push(row("terminal", owned(yes_no(j.terminal))));
    rows.push(row("recovered after restart", owned(yes_no(j.recovered_after_restart))));
    rows.push(row("delivery policy", j.delivery_policy.clone()));
    rows.push(row("relay outcome", j.relay_outcome_summary.clone()));
    proof {
        assert(rows_view(rows@) =~= job_rows(*j));
    }
    rows
}

/// Appends what `job get` shows.
pub fn render_job_get(out: &mut String, view: &JobGetView)
    ensures
        final(out)@ == old(out)@ + job_get_text(*view),
{
    let ghost start = out@;
    let context = concat2("activity · ", view.lookup.as_str());
    write_context(out, context.as_str());
    let ghost s1 = out@;
    match &view.job {
        Some(job) => {
            let rows = job_pair_rows(job);
            render_pairs(out, "job", &rows);
            if job.attempt_summaries.len() > 0 {
                render_item_section(out, "attempts", &job.attempt_summaries);
                push_char(out, '\n');
            }
        },
        None => {
            if let Some(reason) = &view.reason {
                write_line(out, reason.as_str());
                push_char(out, '\n');
            }
        },
    }
    let ghost s2 = out@;
    write_line2(out, "rpc url: ", view.rpc_url.as_str());
    write_line2(out, "source: ", view.source.as_str());
    render_actions(out, &view.actions);
    proof {
        let v = *view;
        let mid: Seq<char> = match v.job {
            Some(j) => pairs_text("job"@, job_rows(j)) + (if j.attempt_summaries@.len() > 0 {
                item_section("attempts"@, strings_view(j.attempt_summaries@)) + seq!['\n']
            } else {
                seq![]
            }),
            None => match v.reason {
                Some(r) => nl(r@) + seq!['\n'],
                None => seq![],
            },
        };
        assert(s2 =~= s1 + mid);
        assert(out@ =~= start + job_get_text(v));
    }
}

/// A unix time as the watch frames show it.
pub open spec fn clock_text(unix: u64) -> Seq<char> {
    match utc_format(as_seconds(unix), "%H:%M:%S"@) {
        Some(t) => t,
        None => decimal(unix as nat),
    }
}

/// The rows of one watch frame.
pub open spec fn frame_rows(f: JobWatchFrameView) -> Seq<(Seq<char>, Seq<char>)> {
    pushed_row(
        seq![
            ("State"@, delivery_display(f.state@)),
            ("Summary"@, f.summary@),
            ("Signer"@, delivery_display(f.signer@)),
        ],
        "Session"@,
        opt_str_view(f.signer_session_id),
    ) + (if f.terminal {
        seq![("Terminal"@, "Yes"@)]
    } else {
        seq![]
    })
}

/// One watch frame, after a blank line.
pub open spec fn frame_text(f: JobWatchFrameView) -> Seq<char> {
    seq!['\n'] + nl(clock_text(f.observed_at_unix)) + field_rows_string(frame_rows(f)).push('\n')
}

/// The watch frames.
pub open spec fn frames_text(frames: Seq<JobWatchFrameView>) -> Seq<char>
    decreases frames.len(),
{
    if frames.len() == 0 {
        seq![]
    } else {
        frames_text(frames.drop_last()) + frame_text(frames.last())
    }
}

/// What `job watch` writes.
pub open spec fn job_watch_text(v: JobWatchView) -> Seq<char> {
    let actions = strings_view(v.actions@);
    let reason = opt_str_view(v.reason);
    if v.state@ == "unconfigured"@ {
        notice_text("Not ready yet"@, reason, actions)
    } else if v.state@ == "unavailable"@ {
        notice_text("Unavailable right now"@, reason, actions)
    } else if v.state@ == "error"@ {
        notice_text("Could not complete the command"@, reason, actions)
    } else {
        nl("Watching job "@ + v.job_id@) + (if v.frames@.len() == 0 {
            match reason {
                Some(r) => seq!['\n'] + nl(r),
                None => seq![],
            }
        } else {
            frames_text(v.frames@)
        }) + (if actions.len() > 0 {
            item_section("Next"@, actions)
        } else {
            seq![]
        })
    }
}

fn render_frame(out: &mut String, frame: &JobWatchFrameView)
    ensures
        final(out)@ == old(out)@ + frame_text(*frame),
{
    let ghost start = out@;
    push_char(out, '\n');
    let clock = format_clock(frame.observed_at_unix);
    write_line(out, clock.as_str());
    let mut rows: Vec<(String, String)> = Vec::new();
    rows.push(row("State", humanize_machine_label(frame.state.as_str())));
    rows.push(row("Summary", frame.summary.clone()));
    rows.push(row("Signer", humanize_machine_label(frame.signer.as_str())));
    proof {
        assert(rows_view(rows@) =~= seq![
            ("State"@, delivery_display(frame.state@)),
            ("Summary"@, frame.summary@),
            ("Signer"@, delivery_display(frame.signer@)),
        ]);
    }
    push_row(&mut rows, "Session", crate::runtime_config::clone_opt_string(&frame.signer_session_id));
    let ghost pushed = rows_view(rows@);
    if frame.terminal {
        rows.push(row("Terminal", owned("Yes")));
    }
    proof {
        assert(rows_view(rows@) =~= frame_rows(*frame));
    }
    render_field_rows(out, &rows);
    proof {
        assert(out@ =~= start + frame_text(*frame));
    }
}

/// Appends what `job watch` shows.
pub fn render_job_watch(out: &mut String, view: &JobWatchView)
    ensures
        final(out)@ == old(out)@ + job_watch_text(*view),
{
    let ghost start = out@;
    let state = view.state.as_str();
    if crate::text::str_eq(state, "unconfigured") {
        render_notice(out, "Not ready yet", &view.reason, &view.actions);
        return;
    }
    if crate::text::str_eq(state, "unavailable") {
        render_notice(out, "Unavailable right now", &view.reason, &view.actions);
        return;
    }
    if crate::text::str_eq(state, "error") {
        render_notice(out, "Could not complete the command", &view.reason, &view.actions);
        return;
    }
    write_line2(out, "Watching job ", view.job_id.as_str());
    let ghost s1 = out@;
    if view.frames.len() == 0 {
        if let Some(reason) = &view.reason {
            push_char(out, '\n');
            write_line(out, reason.as_str());
        }
    } else {
        for i in 0..view.frames.len()
            invariant
                out@ == s1 + frames_text(view.frames@.take(i as int)),
        {
            proof {
                assert(view.frames@.take(i + 1).drop_last() =~= view.frames@.take(i as int));
            }
            render_frame(out, &view.frames[i]);
        }
        proof {
            assert(view.frames@.take(view.frames@.len() as int) =~= view.frames@);
        }
    }
    let ghost s2 = out@;
    if view.actions.len() > 0 {
        render_item_section(out, "Next", &view.actions);
    }
    proof {
        let v = *view;
        let mid: Seq<char> = if v.frames@.len() == 0 {
            match opt_str_view(v.reason) {
                Some(r) => seq!['\n'] + nl(r),
                None => seq![],
            }
        } else {
            frames_text(v.frames@)
        };
        assert(s2 =~= s1 + mid);
        assert(out@ =~= start + job_watch_text(v));
    }
}

} // verus!
