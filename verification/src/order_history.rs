use vstd::prelude::*;

use crate::bindings::opt_str_view;
use crate::order::OrderJobView;
use crate::render::{
    Table, actions_text, cells_view, context_text, nl, render_actions, render_table, table_text,
    write_context, write_line,
};
use crate::render_views::{count_line, count_text, timestamp_text, write_line2};
use crate::text::{owned, push_char, str_eq, strings_view};

verus! {

/// One submitted order as `order history` shows it.
#[derive(Debug, Clone, PartialEq, Eq)]
pub struct OrderHistoryEntryView {
    pub id: String,
    pub state: String,
    pub listing_lookup: Option<String>,
    pub listing_addr: Option<String>,
    pub job: Option<OrderJobView>,
    pub submitted_at_unix: Option<u64>,
    pub updated_at_unix: u64,
}

/// What `order history` reports.
#[derive(Debug, Clone, PartialEq, Eq)]
pub struct OrderHistoryView {
    pub state: String,
    pub source: String,
    pub count: usize,
    pub reason: Option<String>,
    pub orders: Vec<OrderHistoryEntryView>,
    pub actions: Vec<String>,
}

/// The context line of `order history`.
pub open spec fn order_history_context(v: OrderHistoryView) -> Seq<char> {
    if v.state@ == "empty"@ {
        "order history · no submitted orders"@
    } else {
        "order history · "@ + count_line(v.count as nat, "submitted order"@)
    }
}

/// The cells of one submitted order.
pub open spec fn history_cells(o: OrderHistoryEntryView) -> Seq<Seq<char>> {
    seq![
        o.id@,
        match opt_str_view(o.listing_lookup) {
            Some(l) => l,
            None => match opt_str_view(o.listing_addr) {
                Some(a) => a,
                None => seq![],
            },
        },
        o.state@,
        match o.job {
            Some(j) => j.job_id@,
            None => seq![],
        },
        match o.submitted_at_unix {
            Some(t) => timestamp_text(t),
            None => seq![],
        },
        timestamp_text(o.updated_at_unix),
    ]
}

/// The headers of the history table.
pub open spec fn history_headers() -> Seq<Seq<char>> {
    seq!["order"@, "listing"@, "state"@, "job"@, "submitted"@, "updated"@]
}

/// The table or the reason, between the context line and the source.
pub open spec fn order_history_body(v: OrderHistoryView) -> Seq<char> {
    let reason = opt_str_view(v.reason);
    if v.orders@.len() == 0 {
        match reason {
            Some(r) => nl(r) + seq!['\n'],
            None => seq![],
        }
    } else {
        table_text(history_headers(), v.orders@.map_values(|o: OrderHistoryEntryView| history_cells(o))) + seq!['\n']
            + match reason {
            Some(r) => nl("note: "@ + r),
            None => seq![],
        }
    }
}

/// What `order history` writes.
pub open spec fn order_history_text(v: OrderHistoryView) -> Seq<char> {
    context_text(order_history_context(v)) + order_history_body(v) + nl("source: "@ + v.source@) + actions_text(
        strings_view(v.actions@),
    )
}

fn order_history_context_exec(v: &OrderHistoryView) -> (r: String)
    ensures
        r@ == order_history_context(*v),
{
    if str_eq(v.state.as_str(), "empty") {
        owned("order history · no submitted orders")
    } else {
        let counted = count_text(v.count, "submitted order");
        crate::text::concat2("order history · ", counted.as_str())
    }
}

fn history_row(o: &OrderHistoryEntryView) -> (r: Vec<String>)
    ensures
        strings_view(r@) == history_cells(*o),
        r@.len() == 6,
{
    let listing = match &o.listing_lookup {
        Some(l) => l.clone(),
        None => match &o.listing_addr {
            Some(a) => a.clone(),
            None => String::new(),
        },
    };
    let job = match &o.job {
        Some(j) => j.job_id.clone(),
        None => String::new(),
    };
    let submitted = match o.submitted_at_unix {
        Some(t) => crate::job::format_timestamp(t),
        None => String::new(),
    };
    let mut r: Vec<String> = Vec::new();
    r.push(o.id.clone());
    r.push(listing);
    r.push(o.state.clone());
    r.push(job);
    r.push(submitted);
    r.push(crate::job::format_timestamp(o.updated_at_unix));
    proof {
        assert(strings_view(r@) =~= history_cells(*o));
    }
    r
}

fn render_history_table(out: &mut String, orders: &Vec<OrderHistoryEntryView>)
    ensures
        final(out)@ == old(out)@ + table_text(
            history_headers(),
            orders@.map_values(|o: OrderHistoryEntryView| history_cells(o)),
        ),
{
    let mut rows: Vec<Vec<String>> = Vec::new();
    for i in 0..orders.len()
        invariant
            rows@.len() == i,
            forall|j: int| 0 <= j < i ==> #[trigger] rows@[j]@.len() == 6,
            forall|j: int| 0 <= j < i ==> #[trigger] strings_view(rows@[j]@) == history_cells(orders@[j]),
    {
        rows.push(history_row(&orders[i]));
    }
    proof {
        assert(cells_view(rows@) =~= orders@.map_values(|o: OrderHistoryEntryView| history_cells(o)));
    }
    let table = Table { headers: &["order", "listing", "state", "job", "submitted", "updated"], rows };
    proof {
        reveal_strlit("order");
        reveal_strlit("listing");
        reveal_strlit("state");
        reveal_strlit("job");
        reveal_strlit("submitted");
        reveal_strlit("updated");
        assert(table.headers@.map_values(|h: &str| h@) =~= history_headers());
    }
    render_table(out, &table);
}

/// Appends what `order history` writes.
pub fn render_order_history(out: &mut String, view: &OrderHistoryView)
    ensures
        final(out)@ == old(out)@ + order_history_text(*view),
{
    let ghost start = out@;
    let context = order_history_context_exec(view);
    write_context(out, context.as_str());
    let ghost s1 = out@;
    if view.orders.len() == 0 {
        if let Some(reason) = &view.reason {
            write_line(out, reason.as_str());
            push_char(out, '\n');
        }
    } else {
        render_history_table(out, &view.orders);
        push_char(out, '\n');
        if let Some(reason) = &view.reason {
            write_line2(out, "note: ", reason.as_str());
        }
    }
    proof {
        assert(out@ =~= s1 + order_history_body(*view));
    }
    write_line2(out, "source: ", view.source.as_str());
    render_actions(out, &view.actions);
    proof {
        assert(out@ =~= start + order_history_text(*view));
    }
}

} // verus!
