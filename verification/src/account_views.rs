use vstd::prelude::*;

use crate::accounts::{AccountResolutionView, AccountSummaryView};
use crate::bindings::opt_str_view;
use crate::farm::delivery_display;
use crate::render::{
    field_rows_string, item_section, next_section, next_text, nl, push_row, pushed_row, render_field_rows,
    render_item_section, render_next_section, render_next_text, row, rows_view, write_line,
};
use crate::render_views::{
    humanize_machine_label, render_account_resolution, resolution_text, yes_no_owned, yes_no_title,
};
use crate::text::{concat2, decimal, decimal_string, owned, push_char, str_eq, strings_view};
use crate::views::PublicIdentityView;

verus! {

/// What `account create` reports.
#[derive(Debug, Clone, PartialEq, Eq)]
pub struct AccountNewView {
    pub state: String,
    pub source: String,
    pub account: AccountSummaryView,
    pub public_identity: PublicIdentityView,
    pub actions: Vec<String>,
}

/// What `account import` reports.
#[derive(Debug, Clone, PartialEq, Eq)]
pub struct AccountImportView {
    pub state: String,
    pub source: String,
    pub account: AccountSummaryView,
    pub public_identity: PublicIdentityView,
    pub actions: Vec<String>,
}

/// What `account remove` reports.
#[derive(Debug, Clone, PartialEq, Eq)]
pub struct AccountRemoveView {
    pub state: String,
    pub source: String,
    pub removed_account: AccountSummaryView,
    pub default_cleared: bool,
    pub remaining_account_count: usize,
    pub actions: Vec<String>,
}

/// What `account clear-default` reports.
#[derive(Debug, Clone, PartialEq, Eq)]
pub struct AccountClearDefaultView {
    pub state: String,
    pub source: String,
    pub cleared_account: Option<AccountSummaryView>,
    pub remaining_account_count: usize,
    pub actions: Vec<String>,
}

/// What `account select` reports.
#[derive(Debug, Clone, PartialEq, Eq)]
pub struct AccountUseView {
    pub state: String,
    pub source: String,
    pub account: AccountSummaryView,
}

/// What `account view` reports.
#[derive(Debug, Clone, PartialEq, Eq)]
pub struct AccountWhoamiView {
    pub state: String,
    pub source: String,
    pub account_resolution: AccountResolutionView,
    pub public_identity: Option<PublicIdentityView>,
    pub reason: Option<String>,
    pub actions: Vec<String>,
}

/// The rows of an account section.
pub open spec fn account_section_rows(a: AccountSummaryView) -> Seq<(Seq<char>, Seq<char>)> {
    pushed_row(seq![], "Name"@, opt_str_view(a.display_name)) + seq![
        ("Account"@, a.id@),
        ("Signer"@, delivery_display(a.signer@)),
        ("Default"@, yes_no_title(a.is_default)),
    ]
}

/// An account section: its heading, rows and a blank line.
pub open spec fn account_section_text(a: AccountSummaryView) -> Seq<char> {
    nl("Account"@) + field_rows_string(account_section_rows(a)).push('\n')
}

/// Appends an account section.
pub fn render_account_section(out: &mut String, account: &AccountSummaryView)
    ensures
        final(out)@ == old(out)@ + account_section_text(*account),
{
    let ghost start = out@;
    write_line(out, "Account");
    let mut rows: Vec<(String, String)> = Vec::new();
    proof {
        assert(rows_view(rows@) =~= seq![]);
    }
    push_row(&mut rows, "Name", crate::runtime_config::clone_opt_string(&account.display_name));
    let ghost named = rows_view(rows@);
    assert(named == pushed_row(seq![], "Name"@, opt_str_view(account.display_name)));
    rows.push(row("Account", account.id.clone()));
    rows.push(row("Signer", humanize_machine_label(account.signer.as_str())));
    rows.push(row("Default", yes_no_owned(account.is_default)));
    proof {
        assert(rows_view(rows@) =~= account_section_rows(*account));
    }
    render_field_rows(out, &rows);
    proof {
        assert(out@ =~= start + account_section_text(*account));
    }
}

/// The `Identity` section: the npub, aligned, and a blank line.
pub open spec fn identity_text(i: PublicIdentityView) -> Seq<char> {
    nl("Identity"@) + field_rows_string(seq![("npub"@, i.public_key_npub@)]).push('\n')
}

fn render_identity(out: &mut String, identity: &PublicIdentityView)
    ensures
        final(out)@ == old(out)@ + identity_text(*identity),
{
    let ghost start = out@;
    write_line(out, "Identity");
    let mut rows: Vec<(String, String)> = Vec::new();
    rows.push(row("npub", identity.public_key_npub.clone()));
    proof {
        assert(rows_view(rows@) =~= seq![("npub"@, identity.public_key_npub@)]);
    }
    render_field_rows(out, &rows);
    proof {
        assert(out@ =~= start + identity_text(*identity));
    }
}

/// The remaining-account count, aligned, and a blank line.
pub open spec fn remaining_text(n: usize) -> Seq<char> {
    field_rows_string(seq![("Remaining accounts"@, decimal(n as nat))]).push('\n')
}

fn render_remaining(out: &mut String, n: usize)
    ensures
        final(out)@ == old(out)@ + remaining_text(n),
{
    let mut rows: Vec<(String, String)> = Vec::new();
    rows.push(row("Remaining accounts", decimal_string(n as u128)));
    proof {
        assert(rows_view(rows@) =~= seq![("Remaining accounts"@, decimal(n as nat))]);
    }
    render_field_rows(out, &rows);
}

/// The headline of `account create`.
pub open spec fn account_new_headline(state: Seq<char>) -> Seq<char> {
    if state == "migrated"@ {
        "Account migrated"@
    } else {
        "Account created"@
    }
}

fn account_new_headline_exec(state: &str) -> (r: &'static str)
    ensures
        r@ == account_new_headline(state@),
{
    if str_eq(state, "migrated") {
        "Account migrated"
    } else {
        "Account created"
    }
}

/// What `account create` writes.
pub open spec fn account_new_text(v: AccountNewView) -> Seq<char> {
    nl(account_new_headline(v.state@)) + seq!['\n'] + account_section_text(v.account) + seq!['\n'] + identity_text(
        v.public_identity,
    ) + next_text(strings_view(v.actions@))
}

/// Appends what `account create` writes.
pub fn render_account_new(out: &mut String, view: &AccountNewView)
    ensures
        final(out)@ == old(out)@ + account_new_text(*view),
{
    let ghost start = out@;
    write_line(out, account_new_headline_exec(view.state.as_str()));
    push_char(out, '\n');
    render_account_section(out, &view.account);
    push_char(out, '\n');
    render_identity(out, &view.public_identity);
    render_next_text(out, &view.actions);
    proof {
        assert(out@ =~= start + account_new_text(*view));
    }
}

/// What `account import` writes.
pub open spec fn account_import_text(v: AccountImportView) -> Seq<char> {
    nl("Watch-only account imported"@) + seq!['\n'] + account_section_text(v.account) + seq!['\n'] + identity_text(
        v.public_identity,
    ) + next_text(strings_view(v.actions@))
}

/// Appends what `account import` writes.
pub fn render_account_import(out: &mut String, view: &AccountImportView)
    ensures
        final(out)@ == old(out)@ + account_import_text(*view),
{
    let ghost start = out@;
    write_line(out, "Watch-only account imported");
    push_char(out, '\n');
    render_account_section(out, &view.account);
    push_char(out, '\n');
    render_identity(out, &view.public_identity);
    render_next_text(out, &view.actions);
    proof {
        assert(out@ =~= start + account_import_text(*view));
    }
}

/// What `account remove` writes.
pub open spec fn account_remove_text(v: AccountRemoveView) -> Seq<char> {
    nl(
        if v.default_cleared {
            "Default account removed"@
        } else {
            "Account removed"@
        },
    ) + seq!['\n'] + account_section_text(v.removed_account) + seq!['\n'] + remaining_text(v.remaining_account_count)
        + next_section(strings_view(v.actions@))
}

/// Appends what `account remove` writes.
pub fn render_account_remove(out: &mut String, view: &AccountRemoveView)
    ensures
        final(out)@ == old(out)@ + account_remove_text(*view),
{
    let ghost start = out@;
    if view.default_cleared {
        write_line(out, "Default account removed");
    } else {
        write_line(out, "Account removed");
    }
    push_char(out, '\n');
    render_account_section(out, &view.removed_account);
    push_char(out, '\n');
    render_remaining(out, view.remaining_account_count);
    render_next_section(out, &view.actions);
    proof {
        assert(out@ =~= start + account_remove_text(*view));
    }
}

/// What `account clear-default` writes.
pub open spec fn account_clear_default_text(v: AccountClearDefaultView) -> Seq<char> {
    nl(
        if v.state@ == "cleared"@ {
            "Default account cleared"@
        } else {
            "No default account configured"@
        },
    ) + (match v.cleared_account {
        Some(a) => seq!['\n'] + account_section_text(a),
        None => seq![],
    }) + seq!['\n'] + remaining_text(v.remaining_account_count) + next_section(strings_view(v.actions@))
}

/// Appends what `account clear-default` writes.
pub fn render_account_clear_default(out: &mut String, view: &AccountClearDefaultView)
    ensures
        final(out)@ == old(out)@ + account_clear_default_text(*view),
{
    let ghost start = out@;
    if str_eq(view.state.as_str(), "cleared") {
        write_line(out, "Default account cleared");
    } else {
        write_line(out, "No default account configured");
    }
    if let Some(account) = &view.cleared_account {
        push_char(out, '\n');
        render_account_section(out, account);
    }
    push_char(out, '\n');
    render_remaining(out, view.remaining_account_count);
    render_next_section(out, &view.actions);
    proof {
        assert(out@ =~= start + account_clear_default_text(*view));
    }
}

/// What `account select` writes.
pub open spec fn account_use_text(v: AccountUseView) -> Seq<char> {
    nl("Default account selected"@) + seq!['\n'] + account_section_text(v.account)
}

/// Appends what `account select` writes.
pub fn render_account_use(out: &mut String, view: &AccountUseView)
    ensures
        final(out)@ == old(out)@ + account_use_text(*view),
{
    write_line(out, "Default account selected");
    push_char(out, '\n');
    render_account_section(out, &view.account);
}

/// What `account view` writes.
pub open spec fn account_whoami_text(v: AccountWhoamiView) -> Seq<char> {
    if v.state@ == "ready"@ {
        nl("Resolved account"@) + seq!['\n'] + (match v.account_resolution.resolved_account {
            Some(a) => account_section_text(a),
            None => seq![],
        }) + seq!['\n'] + resolution_text(v.account_resolution) + (match v.public_identity {
            Some(i) => seq!['\n'] + identity_text(i),
            None => seq![],
        })
    } else {
        nl("Not ready yet"@) + (match opt_str_view(v.reason) {
            Some(r) => seq!['\n'] + nl(r),
            None => seq![],
        }) + seq!['\n'] + resolution_text(v.account_resolution) + seq!['\n'] + item_section(
            "Missing"@,
            seq!["Resolved account"@],
        ) + next_section(strings_view(v.actions@))
    }
}

/// Appends what `account view` writes.
pub fn render_account_whoami(out: &mut String, view: &AccountWhoamiView)
    ensures
        final(out)@ == old(out)@ + account_whoami_text(*view),
{
    let ghost start = out@;
    if str_eq(view.state.as_str(), "ready") {
        write_line(out, "Resolved account");
        push_char(out, '\n');
        if let Some(account) = &view.account_resolution.resolved_account {
            render_account_section(out, account);
        }
        push_char(out, '\n');
        render_account_resolution(out, &view.account_resolution);
        if let Some(identity) = &view.public_identity {
            push_char(out, '\n');
            render_identity(out, identity);
        }
    } else {
        write_line(out, "Not ready yet");
        if let Some(reason) = &view.reason {
            push_char(out, '\n');
            write_line(out, reason.as_str());
        }
        push_char(out, '\n');
        render_account_resolution(out, &view.account_resolution);
        push_char(out, '\n');
        let mut missing: Vec<String> = Vec::new();
        missing.push(owned("Resolved account"));
        proof {
            assert(strings_view(missing@) =~= seq!["Resolved account"@]);
        }
        render_item_section(out, "Missing", &missing);
        render_next_section(out, &view.actions);
    }
    proof {
        assert(out@ =~= start + account_whoami_text(*view));
    }
}

/// The one line `--quiet` prints for an account command that has one.
pub open spec fn account_quiet(v: crate::output::CommandView) -> Option<Seq<char>> {
    match v {
        crate::output::CommandView::AccountClearDefault(c) => Some(
            match c.cleared_account {
                Some(a) => "Default account cleared: "@ + a.id@,
                None => "No default account configured"@,
            },
        ),
        crate::output::CommandView::AccountImport(i) => Some("Account imported: "@ + i.account.id@),
        crate::output::CommandView::AccountNew(n) => Some(account_new_headline(n.state@) + ": "@ + n.account.id@),
        crate::output::CommandView::AccountRemove(r) => Some("Account removed: "@ + r.removed_account.id@),
        _ => None,
    }
}

/// The one line `--quiet` prints for an account command that has one.
pub fn account_quiet_line(v: &crate::output::CommandView) -> (r: Option<String>)
    ensures
        opt_str_view(r) == account_quiet(*v),
{
    match v {
        crate::output::CommandView::AccountClearDefault(c) => Some(
            match &c.cleared_account {
                Some(a) => concat2("Default account cleared: ", a.id.as_str()),
                None => owned("No default account configured"),
            },
        ),
        crate::output::CommandView::AccountImport(i) => Some(concat2("Account imported: ", i.account.id.as_str())),
        crate::output::CommandView::AccountNew(n) => Some(
            crate::text::concat3(account_new_headline_exec(n.state.as_str()), ": ", n.account.id.as_str()),
        ),
        crate::output::CommandView::AccountRemove(r) => Some(
            concat2("Account removed: ", r.removed_account.id.as_str()),
        ),
        _ => None,
    }
}

} // verus!
