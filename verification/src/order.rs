use vstd::prelude::*;

use crate::bindings::opt_str_view;
use crate::farm::delivery_display;
use crate::render::{
    Table, actions_text, cells_view, context_text, field_rows_string, next_text, nl, pairs_text, push_row,
    pushed_row, render_actions, render_field_rows, render_next_text, render_pairs, render_table, row,
    rows_view, table_text, write_context, write_line, yes_no,
};
use crate::render_farm::first_present;
use crate::render_views::{
    count_line, count_text, humanize_machine_label, push_text_row, render_report_tail, report_tail_text, text_row,
    timestamp_text, write_line2, yes_no_text,
};
use crate::sell::{notice_text, render_notice};
use crate::text::{concat3, decimal, decimal_string, owned, push_char, str_eq, strings_view};

verus! {

/// A problem with an order that needs attention: the field and what is wrong.
#[derive(Debug, Clone, PartialEq, Eq)]
pub struct OrderIssueView {
    pub field: String,
    pub message: String,
}

/// The bridge job of an order.
#[derive(Debug, Clone, PartialEq, Eq)]
pub struct OrderJobView {
    pub job_id: String,
    pub state: String,
    pub command: Option<String>,
    pub signer_mode: Option<String>,
    pub signer_session_id: Option<String>,
    pub requested_signer_session_id: Option<String>,
    pub event_id: Option<String>,
    pub event_addr: Option<String>,
    pub reason: Option<String>,
}

/// What `order submit` reports.
#[derive(Debug, Clone, PartialEq, Eq)]
pub struct OrderSubmitView {
    pub state: String,
    pub source: String,
    pub order_id: String,
    pub listing_lookup: Option<String>,
    pub listing_addr: Option<String>,
    pub buyer_account_id: Option<String>,
    pub buyer_pubkey: Option<String>,
    pub signer_mode: Option<String>,
    pub requested_signer_session_id: Option<String>,
    pub idempotency_key: Option<String>,
    pub job: Option<OrderJobView>,
    pub issues: Vec<OrderIssueView>,
    pub reason: Option<String>,
    pub actions: Vec<String>,
}

/// Whether a submission state shows the order's own state row.
pub open spec fn shows_state(state: Seq<char>) -> bool {
    !(state == "dry_run"@ || state == "missing"@ || state == "unconfigured"@)
}

/// The rows of the `Order` section.
pub open spec fn order_rows(v: OrderSubmitView) -> Seq<(Seq<char>, Seq<char>)> {
    let r0 = seq![("ID"@, v.order_id@)];
    let r1 = pushed_row(r0, "Listing"@, first_present(opt_str_view(v.listing_lookup), opt_str_view(v.listing_addr)));
    let r2 = pushed_row(r1, "Buyer"@, first_present(opt_str_view(v.buyer_account_id), opt_str_view(v.buyer_pubkey)));
    if shows_state(v.state@) {
        r2.push(("State"@, delivery_display(v.state@)))
    } else {
        r2
    }
}

/// The `Order` section: its heading and rows.
pub open spec fn order_section_text(v: OrderSubmitView) -> Seq<char> {
    nl("Order"@) + field_rows_string(order_rows(v)).push('\n')
}

/// The rows of the `Job` section.
pub open spec fn job_rows(j: OrderJobView) -> Seq<(Seq<char>, Seq<char>)> {
    pushed_row(seq![("Job"@, j.job_id@), ("State"@, delivery_display(j.state@))], "Event"@, opt_str_view(j.event_id))
}

/// The rows under `Needs attention`.
pub open spec fn issue_rows(issues: Seq<OrderIssueView>) -> Seq<(Seq<char>, Seq<char>)> {
    issues.map_values(|i: OrderIssueView| (i.field@, i.message@))
}

/// The headline of a submitted order.
pub open spec fn submitted_headline(state: Seq<char>) -> Seq<char> {
    if state == "already_submitted"@ {
        "Order already submitted"@
    } else if state == "deduplicated"@ {
        "Order already in progress"@
    } else {
        "Order submitted"@
    }
}

/// What `order submit` writes.
pub open spec fn order_submit_text(v: OrderSubmitView) -> Seq<char> {
    let state = v.state@;
    let actions = strings_view(v.actions@);
    let reason = opt_str_view(v.reason);
    if state == "dry_run"@ {
        nl("Dry run only"@) + seq!['\n'] + nl("Order would be submitted."@) + seq!['\n'] + order_section_text(v) + nl(
            "Nothing was written."@,
        )
    } else if state == "missing"@ {
        notice_text("Not found"@, reason, actions)
    } else if state == "unconfigured"@ {
        unconfigured_order_text(v)
    } else if state == "unavailable"@ {
        notice_text("Unavailable right now"@, reason, actions)
    } else if state == "error"@ {
        notice_text("Could not complete the command"@, reason, actions)
    } else {
        submitted_order_text(v)
    }
}

/// What `--quiet` prints for an order submission that went through.
pub open spec fn order_submit_quiet(v: OrderSubmitView) -> Option<Seq<char>> {
    let state = v.state@;
    if state == "accepted"@ || state == "submitted"@ || state == "already_submitted"@ || state == "deduplicated"@ {
        Some("Order submitted: "@ + v.order_id@)
    } else {
        None
    }
}

/// What `--quiet` prints for an order submission that went through.
pub fn order_submit_quiet_line(view: &OrderSubmitView) -> (r: Option<String>)
    ensures
        opt_str_view(r) == order_submit_quiet(*view),
{
    let state = view.state.as_str();
    if str_eq(state, "accepted") || str_eq(state, "submitted") || str_eq(state, "already_submitted") || str_eq(
        state,
        "deduplicated",
    ) {
        Some(crate::text::concat2("Order submitted: ", view.order_id.as_str()))
    } else {
        None
    }
}

/// The details a verbose render of an order submission adds.
pub open spec fn order_submit_details(v: OrderSubmitView) -> Seq<(Seq<char>, Seq<char>)> {
    pushed_row(
        pushed_row(
            pushed_row(seq![("Source"@, v.source@)], "Signer mode"@, opt_str_view(v.signer_mode)),
            "Requested session"@,
            opt_str_view(v.requested_signer_session_id),
        ),
        "Idempotency key"@,
        opt_str_view(v.idempotency_key),
    )
}

/// The details a verbose render of an order submission adds.
pub fn order_submit_detail_rows(view: &OrderSubmitView) -> (r: Vec<(String, String)>)
    ensures
        rows_view(r@) == order_submit_details(*view),
{
    let mut rows: Vec<(String, String)> = Vec::new();
    rows.push(row("Source", view.source.clone()));
    proof {
        assert(rows_view(rows@) =~= seq![("Source"@, view.source@)]);
    }
    push_row(&mut rows, "Signer mode", crate::runtime_config::clone_opt_string(&view.signer_mode));
    push_row(
        &mut rows,
        "Requested session",
        crate::runtime_config::clone_opt_string(&view.requested_signer_session_id),
    );
    push_row(&mut rows, "Idempotency key", crate::runtime_config::clone_opt_string(&view.idempotency_key));
    rows
}

pub(crate) fn first_present_text(a: &Option<String>, b: &Option<String>) -> (r: Option<String>)
    ensures
        opt_str_view(r) == first_present(opt_str_view(*a), opt_str_view(*b)),
{
    match crate::farm_config::opt_non_blank_str(a) {
        Some(v) => Some(v),
        None => crate::farm_config::opt_non_blank_str(b),
    }
}

/// Appends the `Order` section.
pub fn render_order_submit_section(out: &mut String, view: &OrderSubmitView)
    ensures
        final(out)@ == old(out)@ + order_section_text(*view),
{
    let ghost start = out@;
    write_line(out, "Order");
    let mut rows: Vec<(String, String)> = Vec::new();
    rows.push(row("ID", view.order_id.clone()));
    proof {
        assert(rows_view(rows@) =~= seq![("ID"@, view.order_id@)]);
    }
    push_row(&mut rows, "Listing", first_present_text(&view.listing_lookup, &view.listing_addr));
    push_row(&mut rows, "Buyer", first_present_text(&view.buyer_account_id, &view.buyer_pubkey));
    let state = view.state.as_str();
    if !(str_eq(state, "dry_run") || str_eq(state, "missing") || str_eq(state, "unconfigured")) {
        let ghost before = rows_view(rows@);
        rows.push(row("State", humanize_machine_label(state)));
        proof {
            assert(rows_view(rows@) =~= before.push(("State"@, delivery_display(view.state@))));
        }
    }
    render_field_rows(out, &rows);
    proof {
        assert(out@ =~= start + order_section_text(*view));
    }
}

fn submitted_headline_exec(state: &str) -> (r: &'static str)
    ensures
        r@ == submitted_headline(state@),
{
    if str_eq(state, "already_submitted") {
        "Order already submitted"
    } else if str_eq(state, "deduplicated") {
        "Order already in progress"
    } else {
        "Order submitted"
    }
}

/// The unconfigured part of `order submit`.
pub open spec fn unconfigured_order_text(v: OrderSubmitView) -> Seq<char> {
    nl("Not ready yet"@) + (match opt_str_view(v.reason) {
        Some(r) => seq!['\n'] + nl(r),
        None => seq![],
    }) + (if v.issues@.len() > 0 {
        seq!['\n'] + nl("Needs attention"@) + field_rows_string(issue_rows(v.issues@)).push('\n')
    } else {
        seq![]
    }) + next_text(strings_view(v.actions@))
}

/// The submitted part of `order submit`.
pub open spec fn submitted_order_text(v: OrderSubmitView) -> Seq<char> {
    nl(submitted_headline(v.state@)) + seq!['\n'] + order_section_text(v) + (match v.job {
        Some(j) => seq!['\n'] + nl("Job"@) + field_rows_string(job_rows(j)).push('\n'),
        None => seq![],
    }) + next_text(strings_view(v.actions@))
}

fn render_unconfigured_order(out: &mut String, view: &OrderSubmitView)
    ensures
        final(out)@ == old(out)@ + unconfigured_order_text(*view),
{
    let ghost start = out@;
    write_line(out, "Not ready yet");
    let ghost s1 = out@;
    if let Some(r) = &view.reason {
        push_char(out, '\n');
        write_line(out, r.as_str());
    }
    let ghost s2 = out@;
    if view.issues.len() > 0 {
        push_char(out, '\n');
        write_line(out, "Needs attention");
        let mut rows: Vec<(String, String)> = Vec::new();
        for i in 0..view.issues.len()
            invariant
                rows_view(rows@) == issue_rows(view.issues@.take(i as int)),
        {
            let ghost before = rows_view(rows@);
            let issue = &view.issues[i];
            rows.push(row(issue.field.as_str(), issue.message.clone()));
            proof {
                assert(view.issues@.take(i + 1) =~= view.issues@.take(i as int).push(view.issues@[i as int]));
                assert(rows_view(rows@) =~= before.push((issue.field@, issue.message@)));
                assert(issue_rows(view.issues@.take(i + 1)) =~= issue_rows(view.issues@.take(i as int)).push(
                    (issue.field@, issue.message@),
                ));
                assert(rows_view(rows@) =~= issue_rows(view.issues@.take(i + 1)));
            }
        }
        proof {
            assert(view.issues@.take(view.issues@.len() as int) =~= view.issues@);
        }
        render_field_rows(out, &rows);
    }
    let ghost s3 = out@;
    render_next_text(out, &view.actions);
    proof {
        assert(s2 =~= s1 + (match opt_str_view(view.reason) {
            Some(r) => seq!['\n'] + nl(r),
            None => seq![],
        }));
        assert(s3 =~= s2 + (if view.issues@.len() > 0 {
            seq!['\n'] + nl("Needs attention"@) + field_rows_string(issue_rows(view.issues@)).push('\n')
        } else {
            seq![]
        }));
    }
    proof {
        assert(out@ =~= start + unconfigured_order_text(*view));
    }
}

fn render_submitted_order(out: &mut String, view: &OrderSubmitView)
    ensures
        final(out)@ == old(out)@ + submitted_order_text(*view),
{
    let ghost start = out@;
    let state = view.state.as_str();
        write_line(out, submitted_headline_exec(state));
    push_char(out, '\n');
    render_order_submit_section(out, view);
    let ghost s1 = out@;
    if let Some(job) = &view.job {
        push_char(out, '\n');
        write_line(out, "Job");
        let mut rows: Vec<(String, String)> = Vec::new();
        rows.push(row("Job", job.job_id.clone()));
        rows.push(row("State", humanize_machine_label(job.state.as_str())));
        proof {
            assert(rows_view(rows@) =~= seq![("Job"@, job.job_id@), ("State"@, delivery_display(job.state@))]);
        }
        push_row(&mut rows, "Event", crate::runtime_config::clone_opt_string(&job.event_id));
        render_field_rows(out, &rows);
    }
    let ghost s2 = out@;
    render_next_text(out, &view.actions);
    proof {
        assert(s2 =~= s1 + (match view.job {
            Some(j) => seq!['\n'] + nl("Job"@) + field_rows_string(job_rows(j)).push('\n'),
            None => seq![],
        }));
    }
    proof {
        assert(out@ =~= start + submitted_order_text(*view));
    }
}

/// Appends what `order submit` writes.
pub fn render_order_submit(out: &mut String, view: &OrderSubmitView)
    ensures
        final(out)@ == old(out)@ + order_submit_text(*view),
{
    let ghost start = out@;
    let state = view.state.as_str();
    if str_eq(state, "dry_run") {
        write_line(out, "Dry run only");
        push_char(out, '\n');
        write_line(out, "Order would be submitted.");
        push_char(out, '\n');
        render_order_submit_section(out, view);
        write_line(out, "Nothing was written.");
    } else if str_eq(state, "missing") {
        render_notice(out, "Not found", &view.reason, &view.actions);
    } else if str_eq(state, "unconfigured") {
        render_unconfigured_order(out, view);
    } else if str_eq(state, "unavailable") {
        render_notice(out, "Unavailable right now", &view.reason, &view.actions);
    } else if str_eq(state, "error") {
        render_notice(out, "Could not complete the command", &view.reason, &view.actions);
    } else {
        render_submitted_order(out, view);
    }
    proof {
        assert(out@ =~= start + order_submit_text(*view));
    }
}

/// One line item of an order draft: the bin and how many.
#[derive(Debug, Clone, PartialEq, Eq)]
pub struct OrderDraftItemView {
    pub bin_id: String,
    pub bin_count: u32,
}

/// The trade workflow an order belongs to.
#[derive(Debug, Clone, PartialEq, Eq)]
pub struct OrderWorkflowView {
    pub state: String,
    pub order_id: String,
    pub listing_addr: Option<String>,
    pub validated_listing_event_id: Option<String>,
    pub root_event_id: Option<String>,
    pub last_event_id: Option<String>,
    pub reason: Option<String>,
    pub source: String,
}

/// What `order get` reports.
#[derive(Debug, Clone, PartialEq, Eq)]
pub struct OrderGetView {
    pub state: String,
    pub source: String,
    pub lookup: String,
    pub order_id: Option<String>,
    pub file: Option<String>,
    pub ready_for_submit: bool,
    pub listing_lookup: Option<String>,
    pub listing_addr: Option<String>,
    pub buyer_account_id: Option<String>,
    pub buyer_pubkey: Option<String>,
    pub seller_pubkey: Option<String>,
    pub updated_at_unix: Option<u64>,
    pub items: Vec<OrderDraftItemView>,
    pub job: Option<OrderJobView>,
    pub workflow: Option<OrderWorkflowView>,
    pub issues: Vec<OrderIssueView>,
    pub reason: Option<String>,
    pub actions: Vec<String>,
}

/// What `order cancel` reports.
#[derive(Debug, Clone, PartialEq, Eq)]
pub struct OrderCancelView {
    pub state: String,
    pub source: String,
    pub lookup: String,
    pub order_id: Option<String>,
    pub job: Option<OrderJobView>,
    pub reason: Option<String>,
    pub actions: Vec<String>,
}

/// The rows of the `job` pairs.
pub open spec fn order_job_rows(j: OrderJobView) -> Seq<(Seq<char>, Seq<char>)> {
    seq![("job id"@, j.job_id@), ("state"@, j.state@)] + text_row("command"@, opt_str_view(j.command)) + text_row(
        "signer mode"@,
        opt_str_view(j.signer_mode),
    ) + text_row("signer session"@, opt_str_view(j.signer_session_id)) + text_row(
        "requested signer session"@,
        opt_str_view(j.requested_signer_session_id),
    ) + text_row("event id"@, opt_str_view(j.event_id)) + text_row("event addr"@, opt_str_view(j.event_addr))
}

/// The `job` block of an order.
pub open spec fn order_job_text(j: OrderJobView) -> Seq<char> {
    pairs_text("job"@, order_job_rows(j)) + (match j.reason {
        Some(r) => nl("job reason: "@ + r@),
        None => seq![],
    })
}

/// Appends the `job` block of an order.
pub fn render_order_job(out: &mut String, job: &OrderJobView)
    ensures
        final(out)@ == old(out)@ + order_job_text(*job),
{
    let ghost start = out@;
    let mut rows: Vec<(String, String)> = Vec::new();
    rows.push(row("job id", job.job_id.clone()));
    rows.push(row("state", job.state.clone()));
    let ghost base = rows_view(rows@);
    push_text_row(&mut rows, "command", &job.command);
    push_text_row(&mut rows, "signer mode", &job.signer_mode);
    push_text_row(&mut rows, "signer session", &job.signer_session_id);
    push_text_row(&mut rows, "requested signer session", &job.requested_signer_session_id);
    push_text_row(&mut rows, "event id", &job.event_id);
    push_text_row(&mut rows, "event addr", &job.event_addr);
    proof {
        assert(base =~= seq![("job id"@, job.job_id@), ("state"@, job.state@)]);
        assert(rows_view(rows@) =~= order_job_rows(*job));
    }
    render_pairs(out, "job", &rows);
    let ghost s1 = out@;
    if let Some(r) = &job.reason {
        write_line2(out, "job reason: ", r.as_str());
    }
    proof {
        assert(out@ =~= s1 + (match job.reason {
            Some(r) => nl("job reason: "@ + r@),
            None => seq![],
        }));
        assert(out@ =~= start + order_job_text(*job));
    }
}

/// The rows of the `workflow` pairs.
pub open spec fn workflow_rows(w: OrderWorkflowView) -> Seq<(Seq<char>, Seq<char>)> {
    seq![("state"@, w.state@), ("order id"@, w.order_id@)] + text_row("listing addr"@, opt_str_view(w.listing_addr))
        + text_row("validated listing event"@, opt_str_view(w.validated_listing_event_id)) + text_row(
        "root event id"@,
        opt_str_view(w.root_event_id),
    ) + text_row("last event id"@, opt_str_view(w.last_event_id))
}

/// The `workflow` block of an order.
pub open spec fn order_workflow_text(w: OrderWorkflowView) -> Seq<char> {
    pairs_text("workflow"@, workflow_rows(w)) + (match w.reason {
        Some(r) => nl("workflow reason: "@ + r@),
        None => seq![],
    }) + nl("workflow source: "@ + w.source@)
}

/// Appends the `workflow` block of an order.
pub fn render_order_workflow(out: &mut String, workflow: &OrderWorkflowView)
    ensures
        final(out)@ == old(out)@ + order_workflow_text(*workflow),
{
    let ghost start = out@;
    let mut rows: Vec<(String, String)> = Vec::new();
    rows.push(row("state", workflow.state.clone()));
    rows.push(row("order id", workflow.order_id.clone()));
    let ghost base = rows_view(rows@);
    push_text_row(&mut rows, "listing addr", &workflow.listing_addr);
    push_text_row(&mut rows, "validated listing event", &workflow.validated_listing_event_id);
    push_text_row(&mut rows, "root event id", &workflow.root_event_id);
    push_text_row(&mut rows, "last event id", &workflow.last_event_id);
    proof {
        assert(base =~= seq![("state"@, workflow.state@), ("order id"@, workflow.order_id@)]);
        assert(rows_view(rows@) =~= workflow_rows(*workflow));
    }
    render_pairs(out, "workflow", &rows);
    let ghost s1 = out@;
    if let Some(r) = &workflow.reason {
        write_line2(out, "workflow reason: ", r.as_str());
    }
    let ghost s2 = out@;
    write_line2(out, "workflow source: ", workflow.source.as_str());
    proof {
        assert(s2 =~= s1 + (match workflow.reason {
            Some(r) => nl("workflow reason: "@ + r@),
            None => seq![],
        }));
        assert(out@ =~= start + order_workflow_text(*workflow));
    }
}

/// The cells of one line item.
pub open spec fn item_cells(i: OrderDraftItemView) -> Seq<Seq<char>> {
    seq![i.bin_id@, decimal(i.bin_count as nat)]
}

/// The line items: a table of bins and quantities, or a note that there are none.
pub open spec fn order_items_text(items: Seq<OrderDraftItemView>) -> Seq<char> {
    if items.len() == 0 {
        nl("items: no line items yet"@) + seq!['\n']
    } else {
        table_text(seq!["bin"@, "qty"@], items.map_values(|i: OrderDraftItemView| item_cells(i))) + seq!['\n']
    }
}

/// Appends the line items.
pub fn render_order_items(out: &mut String, items: &Vec<OrderDraftItemView>)
    ensures
        final(out)@ == old(out)@ + order_items_text(items@),
{
    let ghost start = out@;
    if items.len() == 0 {
        write_line(out, "items: no line items yet");
        push_char(out, '\n');
        proof {
            assert(out@ =~= start + order_items_text(items@));
        }
        return;
    }
    let mut rows: Vec<Vec<String>> = Vec::new();
    for i in 0..items.len()
        invariant
            rows@.len() == i,
            forall|j: int| 0 <= j < i ==> #[trigger] rows@[j]@.len() == 2,
            forall|j: int| 0 <= j < i ==> #[trigger] strings_view(rows@[j]@) == item_cells(items@[j]),
    {
        let mut cells: Vec<String> = Vec::new();
        cells.push(items[i].bin_id.clone());
        cells.push(decimal_string(items[i].bin_count as u128));
        proof {
            assert(strings_view(cells@) =~= item_cells(items@[i as int]));
        }
        rows.push(cells);
    }
    proof {
        assert(cells_view(rows@) =~= items@.map_values(|i: OrderDraftItemView| item_cells(i)));
    }
    let table = Table { headers: &["bin", "qty"], rows };
    proof {
        reveal_strlit("bin");
        reveal_strlit("qty");
        assert(table.headers@.map_values(|h: &str| h@) =~= seq!["bin"@, "qty"@]);
    }
    render_table(out, &table);
    push_char(out, '\n');
    proof {
        assert(out@ =~= start + order_items_text(items@));
    }
}

/// The issues of an order, each as `field  message`, then a blank line; nothing without issues.
pub open spec fn order_issues_text(issues: Seq<OrderIssueView>) -> Seq<char> {
    if issues.len() == 0 {
        seq![]
    } else {
        nl("issues"@) + issue_lines(issues) + seq!['\n']
    }
}

/// Each issue as an indented `field  message` line.
pub open spec fn issue_lines(issues: Seq<OrderIssueView>) -> Seq<char>
    decreases issues.len(),
{
    if issues.len() == 0 {
        seq![]
    } else {
        issue_lines(issues.drop_last()) + nl("  "@ + issues.last().field@ + "  "@ + issues.last().message@)
    }
}

/// Appends the issues of an order.
pub fn render_order_issues(out: &mut String, issues: &Vec<OrderIssueView>)
    ensures
        final(out)@ == old(out)@ + order_issues_text(issues@),
{
    let ghost start = out@;
    if issues.len() == 0 {
        proof {
            assert(out@ =~= start + order_issues_text(issues@));
        }
        return;
    }
    write_line(out, "issues");
    let ghost s1 = out@;
    for i in 0..issues.len()
        invariant
            out@ == s1 + issue_lines(issues@.take(i as int)),
    {
        let line = concat3("  ", issues[i].field.as_str(), "  ");
        write_line2(out, line.as_str(), issues[i].message.as_str());
        proof {
            assert(issues@.take(i + 1).drop_last() =~= issues@.take(i as int));
            assert(out@ =~= s1 + issue_lines(issues@.take(i + 1)));
        }
    }
    proof {
        assert(issues@.take(issues@.len() as int) =~= issues@);
    }
    push_char(out, '\n');
    proof {
        assert(out@ =~= start + order_issues_text(issues@));
    }
}

/// The context line of `order get`.
pub open spec fn order_get_context(v: OrderGetView) -> Seq<char> {
    let state = v.state@;
    let lookup = v.lookup@;
    if state == "missing"@ || state == "submitted"@ || state == "ready"@ || state == "draft"@ || state == "error"@ {
        "order · "@ + lookup + " "@ + state
    } else {
        "order · "@ + lookup
    }
}

/// The rows of the `order` pairs of `order get`.
pub open spec fn order_get_rows(v: OrderGetView) -> Seq<(Seq<char>, Seq<char>)> {
    text_row("order id"@, opt_str_view(v.order_id)) + text_row("file"@, opt_str_view(v.file)) + seq![
        ("ready for submit"@, yes_no_text(v.ready_for_submit)),
    ] + text_row("listing"@, opt_str_view(v.listing_lookup)) + text_row("listing addr"@, opt_str_view(v.listing_addr))
        + text_row("buyer account"@, opt_str_view(v.buyer_account_id)) + text_row(
        "buyer pubkey"@,
        opt_str_view(v.buyer_pubkey),
    ) + text_row("seller pubkey"@, opt_str_view(v.seller_pubkey))
}

/// The reason line, the file line and the source of an order that was not found or failed.
pub open spec fn order_get_failure_text(v: OrderGetView) -> Seq<char> {
    (match v.reason {
        Some(r) => nl(r@) + seq!['\n'],
        None => seq![],
    }) + (match v.file {
        Some(f) => nl("file: "@ + f@),
        None => seq![],
    }) + nl("source: "@ + v.source@) + actions_text(strings_view(v.actions@))
}

/// The body of `order get` for an order that was found.
pub open spec fn order_get_found_text(v: OrderGetView) -> Seq<char> {
    order_get_head_text(v) + order_get_tail_text(v)
}

/// The order, its update time and its items.
pub open spec fn order_get_head_text(v: OrderGetView) -> Seq<char> {
    pairs_text("order"@, order_get_rows(v)) + (match v.updated_at_unix {
        Some(t) => nl("updated: "@ + timestamp_text(t)),
        None => seq![],
    }) + order_items_text(v.items@)
}

/// The job, workflow, issues, reason, source and next steps of an order.
pub open spec fn order_get_tail_text(v: OrderGetView) -> Seq<char> {
    (match v.job {
        Some(j) => order_job_text(j),
        None => seq![],
    }) + (match v.workflow {
        Some(w) => order_workflow_text(w),
        None => seq![],
    }) + order_issues_text(v.issues@) + report_tail_text(opt_str_view(v.reason), v.source@, strings_view(v.actions@))
}

/// What `order get` writes.
pub open spec fn order_get_text(v: OrderGetView) -> Seq<char> {
    context_text(order_get_context(v)) + (if v.state@ == "missing"@ || v.state@ == "error"@ {
        order_get_failure_text(v)
    } else {
        order_get_found_text(v)
    })
}

fn order_get_context_exec(v: &OrderGetView) -> (r: String)
    ensures
        r@ == order_get_context(*v),
{
    let state = v.state.as_str();
    if str_eq(state, "missing") || str_eq(state, "submitted") || str_eq(state, "ready") || str_eq(state, "draft")
        || str_eq(state, "error") {
        let mut r = concat3("order · ", v.lookup.as_str(), " ");
        crate::text::append_str(&mut r, state);
        r
    } else {
        crate::text::concat2("order · ", v.lookup.as_str())
    }
}

fn render_order_get_failure(out: &mut String, view: &OrderGetView)
    ensures
        final(out)@ == old(out)@ + order_get_failure_text(*view),
{
    let ghost start = out@;
    if let Some(r) = &view.reason {
        write_line(out, r.as_str());
        push_char(out, '\n');
    }
    let ghost s1 = out@;
    if let Some(f) = &view.file {
        write_line2(out, "file: ", f.as_str());
    }
    let ghost s2 = out@;
    write_line2(out, "source: ", view.source.as_str());
    render_actions(out, &view.actions);
    proof {
        assert(s1 =~= start + (match view.reason {
            Some(r) => nl(r@) + seq!['\n'],
            None => seq![],
        }));
        assert(s2 =~= s1 + (match view.file {
            Some(f) => nl("file: "@ + f@),
            None => seq![],
        }));
        assert(out@ =~= start + order_get_failure_text(*view));
    }
}

fn order_get_pair_rows(v: &OrderGetView) -> (r: Vec<(String, String)>)
    ensures
        rows_view(r@) == order_get_rows(*v),
{
    let mut rows: Vec<(String, String)> = Vec::new();
    proof {
        assert(rows_view(rows@) =~= Seq::<(Seq<char>, Seq<char>)>::empty());
    }
    push_text_row(&mut rows, "order id", &v.order_id);
    push_text_row(&mut rows, "file", &v.file);
    let ghost before = rows_view(rows@);
    rows.push(row("ready for submit", owned(yes_no(v.ready_for_submit))));
    proof {
        assert(rows_view(rows@) =~= before + seq![("ready for submit"@, yes_no_text(v.ready_for_submit))]);
    }
    push_text_row(&mut rows, "listing", &v.listing_lookup);
    push_text_row(&mut rows, "listing addr", &v.listing_addr);
    push_text_row(&mut rows, "buyer account", &v.buyer_account_id);
    push_text_row(&mut rows, "buyer pubkey", &v.buyer_pubkey);
    push_text_row(&mut rows, "seller pubkey", &v.seller_pubkey);
    proof {
        assert(rows_view(rows@) =~= order_get_rows(*v));
    }
    rows
}

fn render_order_get_head(out: &mut String, view: &OrderGetView)
    ensures
        final(out)@ == old(out)@ + order_get_head_text(*view),
{
    let ghost start = out@;
    let rows = order_get_pair_rows(view);
    render_pairs(out, "order", &rows);
    let ghost s1 = out@;
    if let Some(t) = view.updated_at_unix {
        let stamp = crate::job::format_timestamp(t);
        write_line2(out, "updated: ", stamp.as_str());
    }
    let ghost s2 = out@;
    render_order_items(out, &view.items);
    proof {
        assert(s2 =~= s1 + (match view.updated_at_unix {
            Some(t) => nl("updated: "@ + timestamp_text(t)),
            None => seq![],
        }));
        assert(out@ =~= start + order_get_head_text(*view));
    }
}

fn render_order_get_tail(out: &mut String, view: &OrderGetView)
    ensures
        final(out)@ == old(out)@ + order_get_tail_text(*view),
{
    let ghost s3 = out@;
    if let Some(j) = &view.job {
        render_order_job(out, j);
    }
    let ghost s4 = out@;
    if let Some(w) = &view.workflow {
        render_order_workflow(out, w);
    }
    let ghost s5 = out@;
    render_order_issues(out, &view.issues);
    render_report_tail(out, &view.reason, &view.source, &view.actions);
    proof {
        assert(s4 =~= s3 + (match view.job {
            Some(j) => order_job_text(j),
            None => seq![],
        }));
        assert(s5 =~= s4 + (match view.workflow {
            Some(w) => order_workflow_text(w),
            None => seq![],
        }));
        assert(out@ =~= s3 + order_get_tail_text(*view));
    }
}

fn render_order_get_found(out: &mut String, view: &OrderGetView)
    ensures
        final(out)@ == old(out)@ + order_get_found_text(*view),
{
    let ghost start = out@;
    render_order_get_head(out, view);
    render_order_get_tail(out, view);
    proof {
        assert(out@ =~= start + order_get_found_text(*view));
    }
}

/// Appends what `order get` writes.
pub fn render_order_get(out: &mut String, view: &OrderGetView)
    ensures
        final(out)@ == old(out)@ + order_get_text(*view),
{
    let ghost start = out@;
    let context = order_get_context_exec(view);
    write_context(out, context.as_str());
    if str_eq(view.state.as_str(), "missing") || str_eq(view.state.as_str(), "error") {
        render_order_get_failure(out, view);
    } else {
        render_order_get_found(out, view);
    }
    proof {
        assert(out@ =~= start + order_get_text(*view));
    }
}

/// The context line of `order cancel`.
pub open spec fn order_cancel_context(v: OrderCancelView) -> Seq<char> {
    let state = v.state@;
    let prefix = "order · "@ + v.lookup@;
    if state == "missing"@ {
        prefix + " missing"@
    } else if state == "not_submitted"@ {
        prefix + " not submitted"@
    } else if state == "unconfigured"@ || state == "unavailable"@ {
        prefix + " cancel unavailable"@
    } else if state == "error"@ {
        prefix + " cancel error"@
    } else {
        prefix + " cancel"@
    }
}

/// What `order cancel` writes.
pub open spec fn order_cancel_text(v: OrderCancelView) -> Seq<char> {
    context_text(order_cancel_context(v)) + pairs_text(
        "order"@,
        seq![("lookup"@, v.lookup@)] + text_row("order id"@, opt_str_view(v.order_id)),
    ) + (match v.job {
        Some(j) => order_job_text(j),
        None => seq![],
    }) + report_tail_text(opt_str_view(v.reason), v.source@, strings_view(v.actions@))
}

fn order_cancel_context_exec(v: &OrderCancelView) -> (r: String)
    ensures
        r@ == order_cancel_context(*v),
{
    let state = v.state.as_str();
    let suffix = if str_eq(state, "missing") {
        " missing"
    } else if str_eq(state, "not_submitted") {
        " not submitted"
    } else if str_eq(state, "unconfigured") || str_eq(state, "unavailable") {
        " cancel unavailable"
    } else if str_eq(state, "error") {
        " cancel error"
    } else {
        " cancel"
    };
    concat3("order · ", v.lookup.as_str(), suffix)
}

/// Appends what `order cancel` writes.
pub fn render_order_cancel(out: &mut String, view: &OrderCancelView)
    ensures
        final(out)@ == old(out)@ + order_cancel_text(*view),
{
    let ghost start = out@;
    let context = order_cancel_context_exec(view);
    write_context(out, context.as_str());
    let mut rows: Vec<(String, String)> = Vec::new();
    rows.push(row("lookup", view.lookup.clone()));
    let ghost base = rows_view(rows@);
    push_text_row(&mut rows, "order id", &view.order_id);
    proof {
        assert(base =~= seq![("lookup"@, view.lookup@)]);
    }
    render_pairs(out, "order", &rows);
    let ghost s1 = out@;
    if let Some(j) = &view.job {
        render_order_job(out, j);
    }
    let ghost s2 = out@;
    render_report_tail(out, &view.reason, &view.source, &view.actions);
    proof {
        assert(s2 =~= s1 + (match view.job {
            Some(j) => order_job_text(j),
            None => seq![],
        }));
        assert(out@ =~= start + order_cancel_text(*view));
    }
}

/// What `order create` reports.
#[derive(Debug, Clone, PartialEq, Eq)]
pub struct OrderNewView {
    pub source: String,
    pub order_id: String,
    pub file: String,
    pub ready_for_submit: bool,
    pub listing_lookup: Option<String>,
    pub listing_addr: Option<String>,
    pub buyer_account_id: Option<String>,
    pub buyer_pubkey: Option<String>,
    pub seller_pubkey: Option<String>,
    pub items: Vec<OrderDraftItemView>,
    pub issues: Vec<OrderIssueView>,
    pub actions: Vec<String>,
}

/// The rows of the `draft` pairs.
pub open spec fn order_new_rows(v: OrderNewView) -> Seq<(Seq<char>, Seq<char>)> {
    seq![
        ("order id"@, v.order_id@),
        ("file"@, v.file@),
        ("ready for submit"@, yes_no_text(v.ready_for_submit)),
    ] + text_row("listing"@, opt_str_view(v.listing_lookup)) + text_row("listing addr"@, opt_str_view(v.listing_addr))
        + text_row("buyer account"@, opt_str_view(v.buyer_account_id)) + text_row(
        "buyer pubkey"@,
        opt_str_view(v.buyer_pubkey),
    ) + text_row("seller pubkey"@, opt_str_view(v.seller_pubkey))
}

/// What `order create` writes.
pub open spec fn order_new_text(v: OrderNewView) -> Seq<char> {
    context_text("order · draft created"@) + pairs_text("draft"@, order_new_rows(v)) + order_items_text(v.items@)
        + order_issues_text(v.issues@) + nl("source: "@ + v.source@) + actions_text(strings_view(v.actions@))
}

/// Appends what `order create` writes.
pub fn render_order_new(out: &mut String, view: &OrderNewView)
    ensures
        final(out)@ == old(out)@ + order_new_text(*view),
{
    let ghost start = out@;
    write_context(out, "order · draft created");
    let mut rows: Vec<(String, String)> = Vec::new();
    rows.push(row("order id", view.order_id.clone()));
    rows.push(row("file", view.file.clone()));
    rows.push(row("ready for submit", owned(yes_no(view.ready_for_submit))));
    let ghost base = rows_view(rows@);
    push_text_row(&mut rows, "listing", &view.listing_lookup);
    push_text_row(&mut rows, "listing addr", &view.listing_addr);
    push_text_row(&mut rows, "buyer account", &view.buyer_account_id);
    push_text_row(&mut rows, "buyer pubkey", &view.buyer_pubkey);
    push_text_row(&mut rows, "seller pubkey", &view.seller_pubkey);
    proof {
        assert(base =~= seq![
            ("order id"@, view.order_id@),
            ("file"@, view.file@),
            ("ready for submit"@, yes_no_text(view.ready_for_submit)),
        ]);
        assert(rows_view(rows@) =~= order_new_rows(*view));
    }
    render_pairs(out, "draft", &rows);
    render_order_items(out, &view.items);
    render_order_issues(out, &view.issues);
    write_line2(out, "source: ", view.source.as_str());
    render_actions(out, &view.actions);
    proof {
        assert(out@ =~= start + order_new_text(*view));
    }
}

/// One local order draft as `order list` shows it.
#[derive(Debug, Clone, PartialEq, Eq)]
pub struct OrderSummaryView {
    pub id: String,
    pub state: String,
    pub ready_for_submit: bool,
    pub listing_lookup: Option<String>,
    pub listing_addr: Option<String>,
    pub job: Option<OrderJobView>,
    pub updated_at_unix: u64,
}

/// What `order list` reports.
#[derive(Debug, Clone, PartialEq, Eq)]
pub struct OrderListView {
    pub state: String,
    pub source: String,
    pub count: usize,
    pub orders: Vec<OrderSummaryView>,
    pub actions: Vec<String>,
}

/// The context line of `order list`.
pub open spec fn order_list_context(v: OrderListView) -> Seq<char> {
    if v.state@ == "empty"@ {
        "orders · no local drafts"@
    } else if v.state@ == "degraded"@ {
        "orders · "@ + decimal(v.count as nat) + " local drafts with issues"@
    } else {
        "orders · "@ + count_line(v.count as nat, "local draft"@)
    }
}

/// The cells of one order draft.
pub open spec fn order_cells(o: OrderSummaryView) -> Seq<Seq<char>> {
    seq![
        o.id@,
        match opt_str_view(o.listing_lookup) {
            Some(l) => l,
            None => match opt_str_view(o.listing_addr) {
                Some(a) => a,
                None => seq![],
            },
        },
        o.state@,
        yes_no_text(o.ready_for_submit),
        match o.job {
            Some(j) => j.state@,
            None => seq![],
        },
        timestamp_text(o.updated_at_unix),
    ]
}

/// The headers of the order table.
pub open spec fn order_headers() -> Seq<Seq<char>> {
    seq!["order"@, "listing"@, "state"@, "ready"@, "job"@, "updated"@]
}

/// What `order list` writes.
pub open spec fn order_list_text(v: OrderListView) -> Seq<char> {
    context_text(order_list_context(v)) + (if v.orders@.len() == 0 {
        nl("no order drafts found"@) + seq!['\n']
    } else {
        table_text(order_headers(), v.orders@.map_values(|o: OrderSummaryView| order_cells(o))) + seq!['\n']
    }) + nl("source: "@ + v.source@) + actions_text(strings_view(v.actions@))
}

fn order_list_context_exec(v: &OrderListView) -> (r: String)
    ensures
        r@ == order_list_context(*v),
{
    if str_eq(v.state.as_str(), "empty") {
        owned("orders · no local drafts")
    } else if str_eq(v.state.as_str(), "degraded") {
        let digits = decimal_string(v.count as u128);
        concat3("orders · ", digits.as_str(), " local drafts with issues")
    } else {
        let counted = count_text(v.count, "local draft");
        crate::text::concat2("orders · ", counted.as_str())
    }
}

fn order_row(o: &OrderSummaryView) -> (r: Vec<String>)
    ensures
        strings_view(r@) == order_cells(*o),
        r@.len() == 6,
{
    let listing = match &o.listing_lookup {
        Some(l) => l.clone(),
        None => match &o.listing_addr {
            Some(a) => a.clone(),
            None => String::new(),
        },
    };
    let job = match &o.job {
        Some(j) => j.state.clone(),
        None => String::new(),
    };
    let mut r: Vec<String> = Vec::new();
    r.push(o.id.clone());
    r.push(listing);
    r.push(o.state.clone());
    r.push(owned(yes_no(o.ready_for_submit)));
    r.push(job);
    r.push(crate::job::format_timestamp(o.updated_at_unix));
    proof {
        assert(strings_view(r@) =~= order_cells(*o));
    }
    r
}

/// Appends what `order list` writes.
pub fn render_order_list(out: &mut String, view: &OrderListView)
    ensures
        final(out)@ == old(out)@ + order_list_text(*view),
{
    let ghost start = out@;
    let context = order_list_context_exec(view);
    write_context(out, context.as_str());
    let ghost s1 = out@;
    if view.orders.len() == 0 {
        write_line(out, "no order drafts found");
        push_char(out, '\n');
    } else {
        let mut rows: Vec<Vec<String>> = Vec::new();
        for i in 0..view.orders.len()
            invariant
                rows@.len() == i,
                forall|j: int| 0 <= j < i ==> #[trigger] rows@[j]@.len() == 6,
                forall|j: int| 0 <= j < i ==> #[trigger] strings_view(rows@[j]@) == order_cells(view.orders@[j]),
        {
            rows.push(order_row(&view.orders[i]));
        }
        proof {
            assert(cells_view(rows@) =~= view.orders@.map_values(|o: OrderSummaryView| order_cells(o)));
        }
        let table = Table { headers: &["order", "listing", "state", "ready", "job", "updated"], rows };
        proof {
            reveal_strlit("order");
            reveal_strlit("listing");
            reveal_strlit("state");
            reveal_strlit("ready");
            reveal_strlit("job");
            reveal_strlit("updated");
            assert(table.headers@.map_values(|h: &str| h@) =~= order_headers());
        }
        render_table(out, &table);
        push_char(out, '\n');
    }
    let ghost s2 = out@;
    write_line2(out, "source: ", view.source.as_str());
    render_actions(out, &view.actions);
    proof {
        assert(s2 =~= s1 + (if view.orders@.len() == 0 {
            nl("no order drafts found"@) + seq!['\n']
        } else {
            table_text(order_headers(), view.orders@.map_values(|o: OrderSummaryView| order_cells(o))) + seq!['\n']
        }));
        assert(out@ =~= start + order_list_text(*view));
    }
}

} // verus!
