use vstd::prelude::*;

use crate::bindings::opt_str_view;
use crate::render::{
    actions_text, context_text, nl, pairs_text, render_actions, render_pairs, row, rows_view, write_context,
    write_line,
};
use crate::render_views::{push_text_row, render_report_tail, report_tail_text, text_row, write_line2};
use crate::text::{append_str, decimal, decimal_string, owned, push_char, str_eq, strings_view};

verus! {

/// A problem found in a listing draft: the field, what is wrong, and the line when known.
#[derive(Debug, Clone, PartialEq, Eq)]
pub struct ListingValidationIssueView {
    pub field: String,
    pub message: String,
    pub line: Option<usize>,
}

/// What `listing new` reports.
#[derive(Debug, Clone, PartialEq, Eq)]
pub struct ListingNewView {
    pub state: String,
    pub source: String,
    pub file: String,
    pub listing_id: String,
    pub key: Option<String>,
    pub selected_account_id: Option<String>,
    pub seller_pubkey: Option<String>,
    pub seller_actor_source: Option<String>,
    pub farm_d_tag: Option<String>,
    pub delivery_method: Option<String>,
    pub location_primary: Option<String>,
    pub reason: Option<String>,
    pub actions: Vec<String>,
}

/// What `listing validate` reports.
#[derive(Debug, Clone, PartialEq, Eq)]
pub struct ListingValidateView {
    pub state: String,
    pub source: String,
    pub file: String,
    pub valid: bool,
    pub listing_id: Option<String>,
    pub seller_account_id: Option<String>,
    pub seller_pubkey: Option<String>,
    pub seller_actor_source: Option<String>,
    pub farm_d_tag: Option<String>,
    pub issues: Vec<ListingValidationIssueView>,
    pub actions: Vec<String>,
}

/// The rows of the `draft` pairs of `listing new`.
pub open spec fn listing_new_rows(v: ListingNewView) -> Seq<(Seq<char>, Seq<char>)> {
    seq![("file"@, v.file@), ("listing id"@, v.listing_id@)] + text_row(
        "account id"@,
        opt_str_view(v.selected_account_id),
    ) + text_row("seller"@, opt_str_view(v.seller_pubkey)) + text_row("farm d_tag"@, opt_str_view(v.farm_d_tag))
        + text_row("delivery"@, opt_str_view(v.delivery_method)) + text_row(
        "location"@,
        opt_str_view(v.location_primary),
    )
}

/// What `listing new` writes.
pub open spec fn listing_new_text(v: ListingNewView) -> Seq<char> {
    context_text("listing · draft created"@) + pairs_text("draft"@, listing_new_rows(v)) + report_tail_text(
        opt_str_view(v.reason),
        v.source@,
        strings_view(v.actions@),
    )
}

/// Appends what `listing new` writes.
pub fn render_listing_new(out: &mut String, view: &ListingNewView)
    ensures
        final(out)@ == old(out)@ + listing_new_text(*view),
{
    let ghost start = out@;
    write_context(out, "listing · draft created");
    let mut rows: Vec<(String, String)> = Vec::new();
    rows.push(row("file", view.file.clone()));
    rows.push(row("listing id", view.listing_id.clone()));
    proof {
        assert(rows_view(rows@) =~= seq![("file"@, view.file@), ("listing id"@, view.listing_id@)]);
    }
    push_text_row(&mut rows, "account id", &view.selected_account_id);
    push_text_row(&mut rows, "seller", &view.seller_pubkey);
    push_text_row(&mut rows, "farm d_tag", &view.farm_d_tag);
    push_text_row(&mut rows, "delivery", &view.delivery_method);
    push_text_row(&mut rows, "location", &view.location_primary);
    proof {
        assert(rows_view(rows@) =~= listing_new_rows(*view));
    }
    render_pairs(out, "draft", &rows);
    render_report_tail(out, &view.reason, &view.source, &view.actions);
    proof {
        assert(out@ =~= start + listing_new_text(*view));
    }
}

/// One issue line: the field and the message, and the line when known.
pub open spec fn issue_line(i: ListingValidationIssueView) -> Seq<char> {
    nl(
        "  "@ + i.field@ + "  "@ + i.message@ + match i.line {
            Some(n) => " (line "@ + decimal(n as nat) + ")"@,
            None => seq![],
        },
    )
}

/// The issue lines.
pub open spec fn issue_lines(issues: Seq<ListingValidationIssueView>) -> Seq<char>
    decreases issues.len(),
{
    if issues.len() == 0 {
        seq![]
    } else {
        issue_lines(issues.drop_last()) + issue_line(issues.last())
    }
}

/// The `issues` block, when there are issues.
pub open spec fn issues_block(issues: Seq<ListingValidationIssueView>) -> Seq<char> {
    if issues.len() > 0 {
        nl("issues"@) + issue_lines(issues) + seq!['\n']
    } else {
        seq![]
    }
}

fn render_issue_line(out: &mut String, issue: &ListingValidationIssueView)
    ensures
        final(out)@ == old(out)@ + issue_line(*issue),
{
    let ghost start = out@;
    append_str(out, "  ");
    append_str(out, issue.field.as_str());
    append_str(out, "  ");
    append_str(out, issue.message.as_str());
    if let Some(n) = issue.line {
        append_str(out, " (line ");
        let digits = decimal_string(n as u128);
        append_str(out, digits.as_str());
        append_str(out, ")");
    }
    push_char(out, '\n');
    proof {
        assert(out@ =~= start + issue_line(*issue));
    }
}

fn render_issues_block(out: &mut String, issues: &Vec<ListingValidationIssueView>)
    ensures
        final(out)@ == old(out)@ + issues_block(issues@),
{
    if issues.len() > 0 {
        write_line(out, "issues");
        let ghost s1 = out@;
        for i in 0..issues.len()
            invariant
                out@ == s1 + issue_lines(issues@.take(i as int)),
        {
            proof {
                assert(issues@.take(i + 1).drop_last() =~= issues@.take(i as int));
            }
            render_issue_line(out, &issues[i]);
        }
        proof {
            assert(issues@.take(issues@.len() as int) =~= issues@);
        }
        push_char(out, '\n');
    }
}

/// The rows of the `validation` pairs.
pub open spec fn listing_validate_rows(v: ListingValidateView) -> Seq<(Seq<char>, Seq<char>)> {
    seq![
        ("file"@, v.file@),
        (
            "status"@,
            if v.valid {
                "ready to publish"@
            } else {
                "needs edits"@
            },
        ),
    ] + text_row("listing id"@, opt_str_view(v.listing_id)) + text_row("seller"@, opt_str_view(v.seller_pubkey))
        + text_row("farm d_tag"@, opt_str_view(v.farm_d_tag))
}

/// What `listing validate` writes.
pub open spec fn listing_validate_text(v: ListingValidateView) -> Seq<char> {
    context_text(
        if v.state@ == "valid"@ {
            "listing · valid"@
        } else {
            "listing · invalid"@
        },
    ) + pairs_text("validation"@, listing_validate_rows(v)) + issues_block(v.issues@) + nl("source: "@ + v.source@)
        + actions_text(strings_view(v.actions@))
}

/// Appends what `listing validate` writes.
pub fn render_listing_validate(out: &mut String, view: &ListingValidateView)
    ensures
        final(out)@ == old(out)@ + listing_validate_text(*view),
{
    let ghost start = out@;
    if str_eq(view.state.as_str(), "valid") {
        write_context(out, "listing · valid");
    } else {
        write_context(out, "listing · invalid");
    }
    let mut rows: Vec<(String, String)> = Vec::new();
    rows.push(row("file", view.file.clone()));
    rows.push(row("status", owned(if view.valid { "ready to publish" } else { "needs edits" })));
    proof {
        assert(rows_view(rows@) =~= seq![
            ("file"@, view.file@),
            (
                "status"@,
                if view.valid {
                    "ready to publish"@
                } else {
                    "needs edits"@
                },
            ),
        ]);
    }
    push_text_row(&mut rows, "listing id", &view.listing_id);
    push_text_row(&mut rows, "seller", &view.seller_pubkey);
    push_text_row(&mut rows, "farm d_tag", &view.farm_d_tag);
    proof {
        assert(rows_view(rows@) =~= listing_validate_rows(*view));
    }
    render_pairs(out, "validation", &rows);
    render_issues_block(out, &view.issues);
    write_line2(out, "source: ", view.source.as_str());
    render_actions(out, &view.actions);
    proof {
        assert(out@ =~= start + listing_validate_text(*view));
    }
}

} // verus!
