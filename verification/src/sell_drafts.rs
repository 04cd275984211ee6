use vstd::prelude::*;

use crate::bindings::opt_str_view;
use crate::farm::{delivery_display, display_delivery_method};
use crate::listing_views::ListingValidationIssueView;
use crate::render::{
    field_rows_string, next_text, nl, pairs_text, push_row, pushed_row, render_field_rows, render_next_text,
    render_pairs, row, rows_view, write_line,
};
use crate::runtime_config::clone_opt_string;
use crate::text::{push_char, str_eq, strings_view};

verus! {

/// What `sell add` reports.
#[derive(Debug, Clone, PartialEq, Eq)]
pub struct SellAddView {
    pub state: String,
    pub source: String,
    pub file: String,
    pub product_key: Option<String>,
    pub title: Option<String>,
    pub offer: Option<String>,
    pub price: Option<String>,
    pub stock: Option<String>,
    pub farm_name: Option<String>,
    pub delivery_method: Option<String>,
    pub location_primary: Option<String>,
    pub reason: Option<String>,
    pub actions: Vec<String>,
}

/// What `sell show` reports.
#[derive(Debug, Clone, PartialEq, Eq)]
pub struct SellShowView {
    pub state: String,
    pub source: String,
    pub file: String,
    pub product_key: Option<String>,
    pub title: Option<String>,
    pub category: Option<String>,
    pub offer: Option<String>,
    pub price: Option<String>,
    pub stock: Option<String>,
    pub delivery_method: Option<String>,
    pub location_primary: Option<String>,
    pub reason: Option<String>,
    pub actions: Vec<String>,
}

/// What `sell check` reports.
#[derive(Debug, Clone, PartialEq, Eq)]
pub struct SellCheckView {
    pub state: String,
    pub source: String,
    pub file: String,
    pub valid: bool,
    pub product_key: Option<String>,
    pub seller_pubkey: Option<String>,
    pub farm_ref: Option<String>,
    pub issues: Vec<ListingValidationIssueView>,
    pub actions: Vec<String>,
}

/// What `sell reprice` and `sell restock` report.
#[derive(Debug, Clone, PartialEq, Eq)]
pub struct SellDraftMutationView {
    pub state: String,
    pub source: String,
    pub operation: String,
    pub file: String,
    pub product_key: Option<String>,
    pub changed_label: String,
    pub changed_value: String,
    pub actions: Vec<String>,
}

/// A delivery method shown as words, when there is one.
pub open spec fn opt_delivery_display(d: Option<Seq<char>>) -> Option<Seq<char>> {
    match d {
        Some(m) => Some(delivery_display(m)),
        None => None,
    }
}

fn opt_display_delivery_method(d: &Option<String>) -> (r: Option<String>)
    ensures
        opt_str_view(r) == opt_delivery_display(opt_str_view(*d)),
{
    match d {
        Some(m) => Some(display_delivery_method(m.as_str())),
        None => None,
    }
}

/// The reason on a line of its own followed by a blank line, when there is one.
pub open spec fn reason_block(reason: Option<Seq<char>>) -> Seq<char> {
    match reason {
        Some(r) => nl(r) + seq!['\n'],
        None => seq![],
    }
}

fn render_reason_block(out: &mut String, reason: &Option<String>)
    ensures
        final(out)@ == old(out)@ + reason_block(opt_str_view(*reason)),
{
    if let Some(r) = reason {
        write_line(out, r.as_str());
        push_char(out, '\n');
    }
}

/// The `Draft` rows of `sell add`.
pub open spec fn add_draft_rows(v: SellAddView) -> Seq<(Seq<char>, Seq<char>)> {
    let r1 = pushed_row(seq![("File"@, v.file@)], "Listing"@, opt_str_view(v.product_key));
    let r2 = pushed_row(r1, "Title"@, opt_str_view(v.title));
    let r3 = pushed_row(r2, "Offer"@, opt_str_view(v.offer));
    let r4 = pushed_row(r3, "Price"@, opt_str_view(v.price));
    pushed_row(r4, "Stock"@, opt_str_view(v.stock))
}

/// The `Defaults` rows of `sell add`.
pub open spec fn add_default_rows(v: SellAddView) -> Seq<(Seq<char>, Seq<char>)> {
    let r1 = pushed_row(seq![], "Farm"@, opt_str_view(v.farm_name));
    let r2 = pushed_row(r1, "Delivery"@, opt_delivery_display(opt_str_view(v.delivery_method)));
    pushed_row(r2, "Place"@, opt_str_view(v.location_primary))
}

/// What `sell add` writes.
pub open spec fn sell_add_text(v: SellAddView) -> Seq<char> {
    nl("Listing draft saved"@) + seq!['\n'] + nl("The draft is local until you publish it."@) + seq!['\n']
        + pairs_text("Draft"@, add_draft_rows(v)) + (if add_default_rows(v).len() > 0 {
        pairs_text("Defaults"@, add_default_rows(v))
    } else {
        seq![]
    }) + reason_block(opt_str_view(v.reason)) + next_text(strings_view(v.actions@))
}

/// Appends what `sell add` writes.
pub fn render_sell_add(out: &mut String, view: &SellAddView)
    ensures
        final(out)@ == old(out)@ + sell_add_text(*view),
{
    let ghost start = out@;
    write_line(out, "Listing draft saved");
    push_char(out, '\n');
    write_line(out, "The draft is local until you publish it.");
    push_char(out, '\n');
    let mut rows: Vec<(String, String)> = Vec::new();
    rows.push(row("File", view.file.clone()));
    proof {
        assert(rows_view(rows@) =~= seq![("File"@, view.file@)]);
    }
    push_row(&mut rows, "Listing", clone_opt_string(&view.product_key));
    push_row(&mut rows, "Title", clone_opt_string(&view.title));
    push_row(&mut rows, "Offer", clone_opt_string(&view.offer));
    push_row(&mut rows, "Price", clone_opt_string(&view.price));
    push_row(&mut rows, "Stock", clone_opt_string(&view.stock));
    render_pairs(out, "Draft", &rows);
    let mut defaults: Vec<(String, String)> = Vec::new();
    proof {
        assert(rows_view(defaults@) =~= seq![]);
    }
    push_row(&mut defaults, "Farm", clone_opt_string(&view.farm_name));
    push_row(&mut defaults, "Delivery", opt_display_delivery_method(&view.delivery_method));
    push_row(&mut defaults, "Place", clone_opt_string(&view.location_primary));
    if defaults.len() > 0 {
        render_pairs(out, "Defaults", &defaults);
    }
    render_reason_block(out, &view.reason);
    render_next_text(out, &view.actions);
    proof {
        assert(out@ =~= start + sell_add_text(*view));
    }
}

/// The `Draft` rows of `sell show`.
pub open spec fn show_draft_rows(v: SellShowView) -> Seq<(Seq<char>, Seq<char>)> {
    let r1 = pushed_row(seq![("File"@, v.file@)], "Listing"@, opt_str_view(v.product_key));
    let r2 = pushed_row(r1, "Title"@, opt_str_view(v.title));
    let r3 = pushed_row(r2, "Category"@, opt_str_view(v.category));
    let r4 = pushed_row(r3, "Offer"@, opt_str_view(v.offer));
    let r5 = pushed_row(r4, "Price"@, opt_str_view(v.price));
    let r6 = pushed_row(r5, "Stock"@, opt_str_view(v.stock));
    let r7 = pushed_row(r6, "Delivery"@, opt_delivery_display(opt_str_view(v.delivery_method)));
    pushed_row(r7, "Place"@, opt_str_view(v.location_primary))
}

/// What `sell show` writes.
pub open spec fn sell_show_text(v: SellShowView) -> Seq<char> {
    nl("Listing draft"@) + seq!['\n'] + pairs_text("Draft"@, show_draft_rows(v)) + reason_block(
        opt_str_view(v.reason),
    ) + next_text(strings_view(v.actions@))
}

/// Appends what `sell show` writes.
pub fn render_sell_show(out: &mut String, view: &SellShowView)
    ensures
        final(out)@ == old(out)@ + sell_show_text(*view),
{
    let ghost start = out@;
    write_line(out, "Listing draft");
    push_char(out, '\n');
    let mut rows: Vec<(String, String)> = Vec::new();
    rows.push(row("File", view.file.clone()));
    proof {
        assert(rows_view(rows@) =~= seq![("File"@, view.file@)]);
    }
    push_row(&mut rows, "Listing", clone_opt_string(&view.product_key));
    push_row(&mut rows, "Title", clone_opt_string(&view.title));
    push_row(&mut rows, "Category", clone_opt_string(&view.category));
    push_row(&mut rows, "Offer", clone_opt_string(&view.offer));
    push_row(&mut rows, "Price", clone_opt_string(&view.price));
    push_row(&mut rows, "Stock", clone_opt_string(&view.stock));
    push_row(&mut rows, "Delivery", opt_display_delivery_method(&view.delivery_method));
    push_row(&mut rows, "Place", clone_opt_string(&view.location_primary));
    render_pairs(out, "Draft", &rows);
    render_reason_block(out, &view.reason);
    render_next_text(out, &view.actions);
    proof {
        assert(out@ =~= start + sell_show_text(*view));
    }
}

/// The `Draft` rows of a draft that looks ready.
pub open spec fn check_draft_rows(v: SellCheckView) -> Seq<(Seq<char>, Seq<char>)> {
    let r1 = pushed_row(seq![("File"@, v.file@)], "Listing"@, opt_str_view(v.product_key));
    let r2 = pushed_row(r1, "Seller"@, opt_str_view(v.seller_pubkey));
    pushed_row(r2, "Farm"@, opt_str_view(v.farm_ref))
}

/// The rows of the issues of a draft that needs changes.
pub open spec fn check_issue_rows(issues: Seq<ListingValidationIssueView>) -> Seq<(Seq<char>, Seq<char>)> {
    issues.map_values(|i: ListingValidationIssueView| (i.field@, i.message@))
}

/// What `sell check` writes.
pub open spec fn sell_check_text(v: SellCheckView) -> Seq<char> {
    (if v.valid {
        nl("Draft looks ready"@) + seq!['\n'] + pairs_text("Draft"@, check_draft_rows(v))
    } else {
        nl("Draft needs changes"@) + seq!['\n'] + field_rows_string(check_issue_rows(v.issues@)).push('\n')
    }) + next_text(strings_view(v.actions@))
}

/// Appends what `sell check` writes.
pub fn render_sell_check(out: &mut String, view: &SellCheckView)
    ensures
        final(out)@ == old(out)@ + sell_check_text(*view),
{
    let ghost start = out@;
    if view.valid {
        write_line(out, "Draft looks ready");
        push_char(out, '\n');
        let mut rows: Vec<(String, String)> = Vec::new();
        rows.push(row("File", view.file.clone()));
        proof {
            assert(rows_view(rows@) =~= seq![("File"@, view.file@)]);
        }
        push_row(&mut rows, "Listing", clone_opt_string(&view.product_key));
        push_row(&mut rows, "Seller", clone_opt_string(&view.seller_pubkey));
        push_row(&mut rows, "Farm", clone_opt_string(&view.farm_ref));
        render_pairs(out, "Draft", &rows);
    } else {
        write_line(out, "Draft needs changes");
        push_char(out, '\n');
        let mut rows: Vec<(String, String)> = Vec::new();
        for i in 0..view.issues.len()
            invariant
                rows_view(rows@) == check_issue_rows(view.issues@.take(i as int)),
        {
            let issue = &view.issues[i];
            let ghost before = rows_view(rows@);
            rows.push(row(issue.field.as_str(), issue.message.clone()));
            proof {
                assert(rows_view(rows@) =~= before.push((issue.field@, issue.message@)));
                assert(view.issues@.take(i + 1) =~= view.issues@.take(i as int).push(view.issues@[i as int]));
                assert(rows_view(rows@) =~= check_issue_rows(view.issues@.take(i + 1)));
            }
        }
        proof {
            assert(view.issues@.take(view.issues@.len() as int) =~= view.issues@);
        }
        render_field_rows(out, &rows);
    }
    render_next_text(out, &view.actions);
    proof {
        assert(out@ =~= start + sell_check_text(*view));
    }
}

/// What `sell reprice` and `sell restock` write.
pub open spec fn sell_draft_mutation_text(v: SellDraftMutationView) -> Seq<char> {
    nl("Draft updated"@) + seq!['\n'] + pairs_text("Changed"@, seq![(v.changed_label@, v.changed_value@)])
        + pairs_text("Draft"@, pushed_row(seq![("File"@, v.file@)], "Listing"@, opt_str_view(v.product_key)))
        + next_text(strings_view(v.actions@))
}

/// Appends what `sell reprice` and `sell restock` write.
pub fn render_sell_draft_mutation(out: &mut String, view: &SellDraftMutationView)
    ensures
        final(out)@ == old(out)@ + sell_draft_mutation_text(*view),
{
    let ghost start = out@;
    write_line(out, "Draft updated");
    push_char(out, '\n');
    let mut changed: Vec<(String, String)> = Vec::new();
    changed.push(row(view.changed_label.as_str(), view.changed_value.clone()));
    proof {
        assert(rows_view(changed@) =~= seq![(view.changed_label@, view.changed_value@)]);
    }
    render_pairs(out, "Changed", &changed);
    let mut rows: Vec<(String, String)> = Vec::new();
    rows.push(row("File", view.file.clone()));
    proof {
        assert(rows_view(rows@) =~= seq![("File"@, view.file@)]);
    }
    push_row(&mut rows, "Listing", clone_opt_string(&view.product_key));
    render_pairs(out, "Draft", &rows);
    render_next_text(out, &view.actions);
    proof {
        assert(out@ =~= start + sell_draft_mutation_text(*view));
    }
}

/// The command a draft mutation is reported under.
pub open spec fn sell_draft_command_name(operation: Seq<char>) -> Seq<char> {
    if operation == "reprice"@ {
        "sell reprice"@
    } else if operation == "restock"@ {
        "sell restock"@
    } else {
        "sell"@
    }
}

/// The command a draft mutation is reported under.
pub fn sell_draft_command(view: &SellDraftMutationView) -> (r: &'static str)
    ensures
        r@ == sell_draft_command_name(view.operation@),
{
    if str_eq(view.operation.as_str(), "reprice") {
        "sell reprice"
    } else if str_eq(view.operation.as_str(), "restock") {
        "sell restock"
    } else {
        "sell"
    }
}

} // verus!
