use vstd::prelude::*;

use crate::bindings::opt_str_view;
use crate::render::{
    item_section, nl, pairs_text, push_row, pushed_row, render_item_section, render_pairs, row, rows_view,
    write_line,
};
use crate::text::{owned, push_char, str_eq, strings_view};

verus! {

/// What `sell publish`, `sell update` and `sell pause` report.
#[derive(Debug, Clone, PartialEq, Eq)]
pub struct SellMutationView {
    pub state: String,
    pub operation: String,
    pub source: String,
    pub file: String,
    pub product_key: Option<String>,
    pub listing_addr: String,
    pub publish_mode: Option<String>,
    pub job_status: Option<String>,
    pub job_id: Option<String>,
    pub event_id: Option<String>,
    pub reason: Option<String>,
    pub actions: Vec<String>,
}

/// The command a sell mutation is reported under.
pub open spec fn sell_command_name(operation: Seq<char>) -> Seq<char> {
    if operation == "publish"@ {
        "sell publish"@
    } else if operation == "update"@ {
        "sell update"@
    } else if operation == "pause"@ {
        "sell pause"@
    } else {
        "sell"@
    }
}

/// The command a sell mutation is reported under.
pub fn sell_mutation_command(view: &SellMutationView) -> (r: &'static str)
    ensures
        r@ == sell_command_name(view.operation@),
{
    let op = view.operation.as_str();
    if str_eq(op, "publish") {
        "sell publish"
    } else if str_eq(op, "update") {
        "sell update"
    } else if str_eq(op, "pause") {
        "sell pause"
    } else {
        "sell"
    }
}

/// What the listing would become.
pub open spec fn would_be(operation: Seq<char>) -> Seq<char> {
    if operation == "publish"@ {
        "published"@
    } else if operation == "update"@ {
        "updated"@
    } else if operation == "pause"@ {
        "paused"@
    } else {
        "changed"@
    }
}

/// The headline of a finished mutation.
pub open spec fn done_headline(operation: Seq<char>) -> Seq<char> {
    if operation == "publish"@ {
        "Listing published"@
    } else if operation == "pause"@ {
        "Listing paused"@
    } else {
        "Listing updated"@
    }
}

/// A publish mode for people.
pub open spec fn publish_mode_text(mode: Option<Seq<char>>) -> Option<Seq<char>> {
    match mode {
        Some(m) => Some(if m == "runtime_bridge"@ { "Runtime bridge"@ } else { m }),
        None => None,
    }
}

/// The rows of the `Listing` pairs.
pub open spec fn sell_listing_rows(v: SellMutationView) -> Seq<(Seq<char>, Seq<char>)> {
    let r = pushed_row(seq![("File"@, v.file@)], "Listing"@, opt_str_view(v.product_key)).push(
        ("Address"@, v.listing_addr@),
    );
    if v.operation@ == "publish"@ {
        pushed_row(r, "Publish mode"@, publish_mode_text(opt_str_view(v.publish_mode)))
    } else {
        r
    }
}

/// The rows of the `Job` pairs.
pub open spec fn sell_job_rows(v: SellMutationView) -> Seq<(Seq<char>, Seq<char>)> {
    pushed_row(
        pushed_row(pushed_row(seq![], "State"@, opt_str_view(v.job_status)), "Job"@, opt_str_view(v.job_id)),
        "Event"@,
        opt_str_view(v.event_id),
    )
}

/// A headline, then the reason and the next steps, each after a blank line.
pub open spec fn notice_text(headline: Seq<char>, reason: Option<Seq<char>>, actions: Seq<Seq<char>>) -> Seq<char> {
    nl(headline) + (match reason {
        Some(r) => seq!['\n'] + nl(r),
        None => seq![],
    }) + (if actions.len() > 0 {
        seq!['\n'] + item_section("Next"@, actions)
    } else {
        seq![]
    })
}

/// What a sell mutation writes.
pub open spec fn sell_mutation_text(v: SellMutationView) -> Seq<char> {
    let state = v.state@;
    let actions = strings_view(v.actions@);
    if state == "dry_run"@ {
        nl("Dry run only"@) + seq!['\n'] + nl("Listing would be "@ + would_be(v.operation@) + "."@) + seq!['\n']
            + pairs_text("Listing"@, sell_listing_rows(v)) + nl("Nothing was written."@)
    } else if state == "unconfigured"@ {
        notice_text("Not ready yet"@, opt_str_view(v.reason), actions)
    } else if state == "unavailable"@ {
        notice_text("Unavailable right now"@, opt_str_view(v.reason), actions)
    } else if state == "error"@ {
        notice_text("Something went wrong"@, opt_str_view(v.reason), actions)
    } else {
        nl(done_headline(v.operation@)) + seq!['\n'] + pairs_text("Listing"@, sell_listing_rows(v)) + (if sell_job_rows(
            v,
        ).len() > 0 {
            pairs_text("Job"@, sell_job_rows(v))
        } else {
            seq![]
        }) + (if actions.len() > 0 {
            item_section("Next"@, actions)
        } else {
            seq![]
        })
    }
}

/// Appends a headline, then the reason and the next steps, each after a blank line.
pub fn render_notice(out: &mut String, headline: &str, reason: &Option<String>, actions: &Vec<String>)
    ensures
        final(out)@ == old(out)@ + notice_text(headline@, opt_str_view(*reason), strings_view(actions@)),
{
    let ghost start = out@;
    write_line(out, headline);
    let ghost s1 = out@;
    if let Some(r) = reason {
        push_char(out, '\n');
        write_line(out, r.as_str());
    }
    let ghost s2 = out@;
    if actions.len() > 0 {
        push_char(out, '\n');
        render_item_section(out, "Next", actions);
    }
    proof {
        assert(s2 =~= s1 + (match opt_str_view(*reason) {
            Some(r) => seq!['\n'] + nl(r),
            None => seq![],
        }));
        assert(out@ =~= start + notice_text(headline@, opt_str_view(*reason), strings_view(actions@)));
    }
}

fn listing_rows(view: &SellMutationView) -> (r: Vec<(String, String)>)
    ensures
        rows_view(r@) == sell_listing_rows(*view),
{
    let mut rows: Vec<(String, String)> = Vec::new();
    rows.push(row("File", view.file.clone()));
    proof {
        assert(rows_view(rows@) =~= seq![("File"@, view.file@)]);
    }
    push_row(&mut rows, "Listing", crate::runtime_config::clone_opt_string(&view.product_key));
    let ghost before = rows_view(rows@);
    rows.push(row("Address", view.listing_addr.clone()));
    proof {
        assert(rows_view(rows@) =~= before.push(("Address"@, view.listing_addr@)));
    }
    if str_eq(view.operation.as_str(), "publish") {
        let mode = match &view.publish_mode {
            Some(m) => Some(if str_eq(m.as_str(), "runtime_bridge") { owned("Runtime bridge") } else { m.clone() }),
            None => None,
        };
        push_row(&mut rows, "Publish mode", mode);
    }
    rows
}

fn job_rows(view: &SellMutationView) -> (r: Vec<(String, String)>)
    ensures
        rows_view(r@) == sell_job_rows(*view),
{
    let mut rows: Vec<(String, String)> = Vec::new();
    proof {
        assert(rows_view(rows@) =~= Seq::<(Seq<char>, Seq<char>)>::empty());
    }
    push_row(&mut rows, "State", crate::runtime_config::clone_opt_string(&view.job_status));
    push_row(&mut rows, "Job", crate::runtime_config::clone_opt_string(&view.job_id));
    push_row(&mut rows, "Event", crate::runtime_config::clone_opt_string(&view.event_id));
    rows
}

fn would_be_exec(operation: &str) -> (r: &'static str)
    ensures
        r@ == would_be(operation@),
{
    if str_eq(operation, "publish") {
        "published"
    } else if str_eq(operation, "update") {
        "updated"
    } else if str_eq(operation, "pause") {
        "paused"
    } else {
        "changed"
    }
}

fn done_headline_exec(operation: &str) -> (r: &'static str)
    ensures
        r@ == done_headline(operation@),
{
    if str_eq(operation, "publish") {
        "Listing published"
    } else if str_eq(operation, "pause") {
        "Listing paused"
    } else {
        "Listing updated"
    }
}

/// Appends what a sell mutation writes.
pub fn render_sell_mutation(out: &mut String, view: &SellMutationView)
    ensures
        final(out)@ == old(out)@ + sell_mutation_text(*view),
{
    let ghost start = out@;
    let state = view.state.as_str();
    if str_eq(state, "dry_run") {
        write_line(out, "Dry run only");
        push_char(out, '\n');
        let mut line = owned("Listing would be ");
        crate::text::append_str(&mut line, would_be_exec(view.operation.as_str()));
        crate::text::append_str(&mut line, ".");
        write_line(out, line.as_str());
        push_char(out, '\n');
        let rows = listing_rows(view);
        render_pairs(out, "Listing", &rows);
        write_line(out, "Nothing was written.");
    } else if str_eq(state, "unconfigured") {
        render_notice(out, "Not ready yet", &view.reason, &view.actions);
    } else if str_eq(state, "unavailable") {
        render_notice(out, "Unavailable right now", &view.reason, &view.actions);
    } else if str_eq(state, "error") {
        render_notice(out, "Something went wrong", &view.reason, &view.actions);
    } else {
        write_line(out, done_headline_exec(view.operation.as_str()));
        push_char(out, '\n');
        let rows = listing_rows(view);
        render_pairs(out, "Listing", &rows);
        let ghost s1 = out@;
        let jobs = job_rows(view);
        if jobs.len() > 0 {
            render_pairs(out, "Job", &jobs);
        }
        let ghost s2 = out@;
        if view.actions.len() > 0 {
            render_item_section(out, "Next", &view.actions);
        }
        proof {
            assert(s2 =~= s1 + (if sell_job_rows(*view).len() > 0 {
                pairs_text("Job"@, sell_job_rows(*view))
            } else {
                seq![]
            }));
        }
    }
    proof {
        assert(out@ =~= start + sell_mutation_text(*view));
    }
}

} // verus!
