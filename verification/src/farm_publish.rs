use vstd::prelude::*;

use crate::bindings::opt_str_view;
use crate::render::{
    context_text, item_section, nl, pairs_text, render_item_section, render_pairs, row, rows_view,
    write_context, write_line,
};
use crate::render_views::{push_text_row, render_report_tail, report_tail_text, text_row, yes_no_text};
use crate::text::{concat2, decimal, decimal_string, owned, push_char, str_eq, strings_view};

verus! {

/// One event of a farm publication (the profile or the farm record) and what became of it.
#[derive(Debug, Clone, PartialEq, Eq)]
pub struct FarmPublishComponentView {
    pub state: String,
    pub rpc_method: String,
    pub event_kind: u32,
    pub deduplicated: bool,
    pub job_id: Option<String>,
    pub job_status: Option<String>,
    pub signer_mode: Option<String>,
    pub event_id: Option<String>,
    pub event_addr: Option<String>,
    pub idempotency_key: Option<String>,
    pub reason: Option<String>,
}

/// What `farm publish` reports.
#[derive(Debug, Clone, PartialEq, Eq)]
pub struct FarmPublishView {
    pub state: String,
    pub source: String,
    pub scope: String,
    pub path: String,
    pub config_present: bool,
    pub dry_run: bool,
    pub selected_account_id: String,
    pub selected_account_pubkey: String,
    pub farm_d_tag: String,
    pub profile: FarmPublishComponentView,
    pub farm: FarmPublishComponentView,
    pub missing: Vec<String>,
    pub reason: Option<String>,
    pub actions: Vec<String>,
}

/// The rows of one component's pairs.
pub open spec fn component_rows(c: FarmPublishComponentView) -> Seq<(Seq<char>, Seq<char>)> {
    seq![("state"@, c.state@), ("rpc method"@, c.rpc_method@), ("event kind"@, decimal(c.event_kind as nat))]
        + text_row("job id"@, opt_str_view(c.job_id)) + text_row("job status"@, opt_str_view(c.job_status)) + text_row(
        "event id"@,
        opt_str_view(c.event_id),
    ) + text_row("event addr"@, opt_str_view(c.event_addr)) + text_row("reason"@, opt_str_view(c.reason))
}

/// One component under its label.
pub open spec fn component_text(label: Seq<char>, c: FarmPublishComponentView) -> Seq<char> {
    pairs_text(label, component_rows(c))
}

/// Appends one component under its label.
pub fn render_farm_publish_component(out: &mut String, label: &str, component: &FarmPublishComponentView)
    ensures
        final(out)@ == old(out)@ + component_text(label@, *component),
{
    let mut rows: Vec<(String, String)> = Vec::new();
    rows.push(row("state", component.state.clone()));
    rows.push(row("rpc method", component.rpc_method.clone()));
    rows.push(row("event kind", decimal_string(component.event_kind as u128)));
    proof {
        assert(rows_view(rows@) =~= seq![
            ("state"@, component.state@),
            ("rpc method"@, component.rpc_method@),
            ("event kind"@, decimal(component.event_kind as nat)),
        ]);
    }
    push_text_row(&mut rows, "job id", &component.job_id);
    push_text_row(&mut rows, "job status", &component.job_status);
    push_text_row(&mut rows, "event id", &component.event_id);
    push_text_row(&mut rows, "event addr", &component.event_addr);
    push_text_row(&mut rows, "reason", &component.reason);
    proof {
        assert(rows_view(rows@) =~= component_rows(*component));
    }
    render_pairs(out, label, &rows);
}

/// The rows of the `farm` pairs.
pub open spec fn farm_publish_rows(v: FarmPublishView) -> Seq<(Seq<char>, Seq<char>)> {
    seq![
        ("scope"@, v.scope@),
        ("path"@, v.path@),
        ("account id"@, v.selected_account_id@),
        ("account pubkey"@, v.selected_account_pubkey@),
        ("farm d_tag"@, v.farm_d_tag@),
        ("dry run"@, yes_no_text(v.dry_run)),
    ]
}

/// A titled section after a blank line, when it has items.
pub open spec fn spaced_section(title: Seq<char>, items: Seq<Seq<char>>) -> Seq<char> {
    if items.len() > 0 {
        seq!['\n'] + item_section(title, items)
    } else {
        seq![]
    }
}

/// What `farm publish` writes.
pub open spec fn farm_publish_text(v: FarmPublishView) -> Seq<char> {
    if v.state@ == "unconfigured"@ {
        nl("Not ready yet"@) + spaced_section("Missing"@, strings_view(v.missing@)) + spaced_section(
            "Next"@,
            strings_view(v.actions@),
        )
    } else {
        context_text("farm publish · "@ + v.state@) + pairs_text("farm"@, farm_publish_rows(v)) + component_text(
            "profile"@,
            v.profile,
        ) + component_text("farm record"@, v.farm) + report_tail_text(
            opt_str_view(v.reason),
            v.source@,
            strings_view(v.actions@),
        )
    }
}

pub(crate) fn render_spaced_section(out: &mut String, title: &str, items: &Vec<String>)
    ensures
        final(out)@ == old(out)@ + spaced_section(title@, strings_view(items@)),
{
    if items.len() > 0 {
        push_char(out, '\n');
        render_item_section(out, title, items);
    }
}

/// Appends what `farm publish` writes.
pub fn render_farm_publish(out: &mut String, view: &FarmPublishView)
    ensures
        final(out)@ == old(out)@ + farm_publish_text(*view),
{
    let ghost start = out@;
    if str_eq(view.state.as_str(), "unconfigured") {
        write_line(out, "Not ready yet");
        render_spaced_section(out, "Missing", &view.missing);
        render_spaced_section(out, "Next", &view.actions);
        proof {
            assert(out@ =~= start + farm_publish_text(*view));
        }
        return;
    }
    let context = concat2("farm publish · ", view.state.as_str());
    write_context(out, context.as_str());
    let mut rows: Vec<(String, String)> = Vec::new();
    rows.push(row("scope", view.scope.clone()));
    rows.push(row("path", view.path.clone()));
    rows.push(row("account id", view.selected_account_id.clone()));
    rows.push(row("account pubkey", view.selected_account_pubkey.clone()));
    rows.push(row("farm d_tag", view.farm_d_tag.clone()));
    rows.push(row("dry run", owned(crate::render::yes_no(view.dry_run))));
    proof {
        assert(rows_view(rows@) =~= farm_publish_rows(*view));
    }
    render_pairs(out, "farm", &rows);
    render_farm_publish_component(out, "profile", &view.profile);
    render_farm_publish_component(out, "farm record", &view.farm);
    render_report_tail(out, &view.reason, &view.source, &view.actions);
    proof {
        assert(out@ =~= start + farm_publish_text(*view));
    }
}

} // verus!
