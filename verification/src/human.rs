use vstd::prelude::*;
use crate::market_views::{listing_detail_rows, listing_details, search_detail_rows, search_details, search_quiet, search_quiet_line};
use crate::market_views::{market_view_text, render_market_view};
use crate::market_views::{market_search_text, render_market_search};

use crate::account_views::{
    account_clear_default_text, account_import_text, account_new_text, account_quiet, account_quiet_line,
    account_remove_text, account_use_text, account_whoami_text, render_account_clear_default,
    render_account_import, render_account_new, render_account_remove, render_account_use,
    render_account_whoami,
};
use crate::config::{OutputConfig, OutputFormat, Verbosity};
use crate::config_show::{config_show_text, render_config_show};
use crate::envfile::{lines, lines_of, vecs_view};
use crate::error::{RuntimeError, is_config_err};
use crate::farm_publish::{farm_publish_text, render_farm_publish};
use crate::find::{join_strings, join_with};
use crate::listing_views::{
    listing_new_text, listing_validate_text, render_listing_new, render_listing_validate,
};
use crate::local_store::{
    local_backup_text, local_export_text, local_init_text, local_status_text, render_local_backup,
    render_local_export, render_local_init, render_local_status,
};
use crate::order::{
    order_cancel_text, order_get_text, order_list_text, order_new_text, order_submit_detail_rows,
    order_submit_details, order_submit_quiet, order_submit_quiet_line, order_submit_text, render_order_cancel,
    render_order_get, render_order_list, render_order_new, render_order_submit,
};
use crate::order_history::{order_history_text, render_order_history};
use crate::order_watch::{
    order_submit_watch_detail_rows, order_submit_watch_details, order_submit_watch_text, order_watch_text,
    render_order_submit_watch, render_order_watch,
};
use crate::output::{CommandOutput, CommandView};
use crate::render::{
    field_rows_string, indented, nl, render_field_rows_string, row, rows_view, write_indented,
};
use crate::render_farm::{
    farm_get_text, farm_set_text, farm_setup_text, farm_status_text, render_farm_get, render_farm_set,
    render_farm_setup, render_farm_status,
};
use crate::render_views::{
    account_list_text, doctor_text, job_get_text, job_list_text, job_watch_text, myc_status_text,
    relay_list_text, render_account_list, render_doctor, render_job_get, render_job_list, render_job_watch,
    render_myc_status, render_relay_list, render_rpc_sessions, render_rpc_status, rpc_sessions_text,
    rpc_status_text,
};
use crate::runtime_views::{
    action_command_name, render_runtime_action, render_runtime_config_show, render_runtime_logs,
    render_runtime_status, runtime_action_command, runtime_action_text, runtime_config_show_text,
    runtime_logs_text, runtime_status_text,
};
use crate::sell::{render_sell_mutation, sell_command_name, sell_mutation_command, sell_mutation_text};
use crate::sell_drafts::{
    render_sell_add, render_sell_check, render_sell_draft_mutation, render_sell_show, sell_add_text,
    sell_check_text, sell_draft_command, sell_draft_command_name, sell_draft_mutation_text, sell_show_text,
};
use crate::status_views::{
    net_status_text, render_net_status, render_setup, render_signer_status, render_status_summary, setup_text,
    signer_status_text, status_summary_text,
};
use crate::sync_views::{
    market_update_text, render_market_update, render_sync_action, render_sync_status, render_sync_watch,
    sync_action_text, sync_status_text, sync_watch_text,
};
use crate::text::{
    append_str, chars_is, chars_of, concat3, decimal, decimal_string, owned, push_char, string_of,
    strings_view, strip_prefix, strip_prefix_chars, trim, trim_end, trim_end_chars, trim_start,
    trim_start_chars,
};

verus! {

/// The command name a view is reported under.
pub open spec fn command_name(view: CommandView) -> Seq<char> {
    match view {
        CommandView::RpcStatus(_) => "rpc status"@,
        CommandView::RpcSessions(_) => "rpc sessions"@,
        CommandView::JobList(_) => "job ls"@,
        CommandView::JobGet(_) => "job get"@,
        CommandView::JobWatch(_) => "job watch"@,
        CommandView::Doctor(_) => "doctor"@,
        CommandView::MycStatus(_) => "myc status"@,
        CommandView::RelayList(_) => "relay ls"@,
        CommandView::AccountList(_) => "account list"@,
        CommandView::ConfigShow(_) => "config show"@,
        CommandView::MarketView(_) => "market view"@,
        CommandView::ListingGet(_) => "listing get"@,
        CommandView::MarketSearch(_) => "market search"@,
        CommandView::Find(_) => "find"@,
        CommandView::MarketUpdate(_) => "market update"@,
        CommandView::FarmPublish(_) => "farm publish"@,
        CommandView::SignerStatus(_) => "signer status"@,
        CommandView::NetStatus(_) => "net status"@,
        CommandView::Status(_) => "status"@,
        CommandView::Setup(_) => "setup"@,
        CommandView::LocalExport(_) => "local export"@,
        CommandView::LocalBackup(_) => "local backup"@,
        CommandView::LocalInit(_) => "local init"@,
        CommandView::LocalStatus(_) => "local status"@,
        CommandView::ListingValidate(_) => "listing validate"@,
        CommandView::ListingNew(_) => "listing new"@,
        CommandView::SellDraftMutation(v) => sell_draft_command_name(v.operation@),
        CommandView::SellCheck(_) => "sell check"@,
        CommandView::SellShow(_) => "sell show"@,
        CommandView::SellAdd(_) => "sell add"@,
        CommandView::AccountWhoami(_) => "account view"@,
        CommandView::AccountUse(_) => "account select"@,
        CommandView::AccountClearDefault(_) => "account clear-default"@,
        CommandView::AccountRemove(_) => "account remove"@,
        CommandView::AccountImport(_) => "account import"@,
        CommandView::AccountNew(_) => "account create"@,
        CommandView::SyncWatch(_) => "sync watch"@,
        CommandView::SyncPush(_) => "sync push"@,
        CommandView::SyncPull(_) => "sync pull"@,
        CommandView::SyncStatus(_) => "sync status"@,
        CommandView::OrderHistory(_) => "order history"@,
        CommandView::OrderSubmitWatch(_) => "order submit --watch"@,
        CommandView::OrderWatch(_) => "order watch"@,
        CommandView::OrderList(_) => "order list"@,
        CommandView::OrderNew(_) => "order create"@,
        CommandView::OrderCancel(_) => "order cancel"@,
        CommandView::OrderGet(_) => "order view"@,
        CommandView::RuntimeLogs(_) => "runtime logs"@,
        CommandView::RuntimeConfigShow(_) => "runtime config show"@,
        CommandView::RuntimeAction(v) => action_command_name(v.action@),
        CommandView::RuntimeStatus(_) => "runtime status"@,
        CommandView::FarmGet(_) => "farm show"@,
        CommandView::FarmStatus(_) => "farm check"@,
        CommandView::FarmSetup(v) => if v.state@ == "saved"@ {
            "farm init"@
        } else {
            "farm setup"@
        },
        CommandView::FarmSet(_) => "farm set"@,
        CommandView::SellMutation(v) => sell_command_name(v.operation@),
        CommandView::OrderSubmit(_) => "order submit"@,
    }
}

/// The command name a view is reported under.
pub fn human_command_name(view: &CommandView) -> (r: &'static str)
    ensures
        r@ == command_name(*view),
{
    match view {
        CommandView::RpcStatus(_) => "rpc status",
        CommandView::RpcSessions(_) => "rpc sessions",
        CommandView::JobList(_) => "job ls",
        CommandView::JobGet(_) => "job get",
        CommandView::JobWatch(_) => "job watch",
        CommandView::Doctor(_) => "doctor",
        CommandView::MycStatus(_) => "myc status",
        CommandView::RelayList(_) => "relay ls",
        CommandView::AccountList(_) => "account list",
        CommandView::ConfigShow(_) => "config show",
        CommandView::MarketView(_) => "market view",
        CommandView::ListingGet(_) => "listing get",
        CommandView::MarketSearch(_) => "market search",
        CommandView::Find(_) => "find",
        CommandView::MarketUpdate(_) => "market update",
        CommandView::FarmPublish(_) => "farm publish",
        CommandView::SignerStatus(_) => "signer status",
        CommandView::NetStatus(_) => "net status",
        CommandView::Status(_) => "status",
        CommandView::Setup(_) => "setup",
        CommandView::LocalExport(_) => "local export",
        CommandView::LocalBackup(_) => "local backup",
        CommandView::LocalInit(_) => "local init",
        CommandView::LocalStatus(_) => "local status",
        CommandView::ListingValidate(_) => "listing validate",
        CommandView::ListingNew(_) => "listing new",
        CommandView::SellDraftMutation(v) => sell_draft_command(v),
        CommandView::SellCheck(_) => "sell check",
        CommandView::SellShow(_) => "sell show",
        CommandView::SellAdd(_) => "sell add",
        CommandView::AccountWhoami(_) => "account view",
        CommandView::AccountUse(_) => "account select",
        CommandView::AccountClearDefault(_) => "account clear-default",
        CommandView::AccountRemove(_) => "account remove",
        CommandView::AccountImport(_) => "account import",
        CommandView::AccountNew(_) => "account create",
        CommandView::SyncWatch(_) => "sync watch",
        CommandView::SyncPush(_) => "sync push",
        CommandView::SyncPull(_) => "sync pull",
        CommandView::SyncStatus(_) => "sync status",
        CommandView::OrderHistory(_) => "order history",
        CommandView::OrderSubmitWatch(_) => "order submit --watch",
        CommandView::OrderWatch(_) => "order watch",
        CommandView::OrderList(_) => "order list",
        CommandView::OrderNew(_) => "order create",
        CommandView::OrderCancel(_) => "order cancel",
        CommandView::OrderGet(_) => "order view",
        CommandView::RuntimeLogs(_) => "runtime logs",
        CommandView::RuntimeConfigShow(_) => "runtime config show",
        CommandView::RuntimeAction(v) => runtime_action_command(v),
        CommandView::RuntimeStatus(_) => "runtime status",
        CommandView::FarmGet(_) => "farm show",
        CommandView::FarmStatus(_) => "farm check",
        CommandView::FarmSetup(v) => if crate::text::str_eq(v.state.as_str(), "saved") {
            "farm init"
        } else {
            "farm setup"
        },
        CommandView::FarmSet(_) => "farm set",
        CommandView::SellMutation(v) => sell_mutation_command(v),
        CommandView::OrderSubmit(_) => "order submit",
    }
}

/// The details a verbose render adds for a view.
pub open spec fn detail_rows(view: CommandView) -> Seq<(Seq<char>, Seq<char>)> {
    match view {
        CommandView::AccountList(v) => seq![("Source"@, v.source@)],
        CommandView::AccountClearDefault(v) => seq![
            ("Source"@, v.source@),
            ("Remaining accounts"@, decimal(v.remaining_account_count as nat)),
        ],
        CommandView::AccountImport(v) => seq![("Source"@, v.source@)],
        CommandView::AccountNew(v) => seq![("Source"@, v.source@)],
        CommandView::AccountRemove(v) => seq![
            ("Source"@, v.source@),
            ("Remaining accounts"@, decimal(v.remaining_account_count as nat)),
        ],
        CommandView::AccountUse(v) => seq![("Source"@, v.source@)],
        CommandView::AccountWhoami(v) => seq![("Source"@, v.source@)],
        CommandView::Doctor(v) => seq![("Source"@, v.source@)],
        CommandView::Find(v) => search_details(v),
        CommandView::MarketSearch(v) => search_details(v),
        CommandView::ListingGet(v) => listing_details(v),
        CommandView::MarketView(v) => listing_details(v),
        CommandView::RelayList(v) => seq![
            ("Source"@, v.source@),
            ("Relay count"@, decimal(v.count as nat)),
            ("Publish policy"@, v.publish_policy@),
        ],
        CommandView::OrderSubmit(v) => order_submit_details(v),
        CommandView::OrderSubmitWatch(v) => order_submit_watch_details(v.submit),
        _ => seq![],
    }
}

/// The details a verbose render adds for a view.
pub fn verbose_details(output: &CommandOutput) -> (r: Vec<(String, String)>)
    ensures
        rows_view(r@) == detail_rows(output.view),
{
    let mut r: Vec<(String, String)> = Vec::new();
    match output.view() {
        CommandView::OrderSubmit(v) => {
            return order_submit_detail_rows(v);
        },
        CommandView::OrderSubmitWatch(v) => {
            return order_submit_watch_detail_rows(&v.submit);
        },
        CommandView::AccountList(v) => {
            r.push(row("Source", v.source.clone()));
        },
        CommandView::AccountClearDefault(v) => {
            r.push(row("Source", v.source.clone()));
            r.push(row("Remaining accounts", decimal_string(v.remaining_account_count as u128)));
        },
        CommandView::AccountImport(v) => {
            r.push(row("Source", v.source.clone()));
        },
        CommandView::AccountNew(v) => {
            r.push(row("Source", v.source.clone()));
        },
        CommandView::AccountRemove(v) => {
            r.push(row("Source", v.source.clone()));
            r.push(row("Remaining accounts", decimal_string(v.remaining_account_count as u128)));
        },
        CommandView::AccountUse(v) => {
            r.push(row("Source", v.source.clone()));
        },
        CommandView::AccountWhoami(v) => {
            r.push(row("Source", v.source.clone()));
        },
        CommandView::Doctor(v) => {
            r.push(row("Source", v.source.clone()));
        },
        CommandView::Find(v) => {
            return search_detail_rows(v);
        },
        CommandView::MarketSearch(v) => {
            return search_detail_rows(v);
        },
        CommandView::ListingGet(v) => {
            return listing_detail_rows(v);
        },
        CommandView::MarketView(v) => {
            return listing_detail_rows(v);
        },
        CommandView::RelayList(v) => {
            r.push(row("Source", v.source.clone()));
            r.push(row("Relay count", decimal_string(v.count as u128)));
            r.push(row("Publish policy", v.publish_policy.clone()));
        },
        _ => {},
    }
    proof {
        assert(rows_view(r@) =~= detail_rows(output.view));
    }
    r
}

/// What the human renderer writes for a view, before it is cleaned up.
pub open spec fn view_text(view: CommandView) -> Seq<char> {
    match view {
        CommandView::RpcStatus(v) => rpc_status_text(v),
        CommandView::RpcSessions(v) => rpc_sessions_text(v),
        CommandView::JobList(v) => job_list_text(v),
        CommandView::JobGet(v) => job_get_text(v),
        CommandView::JobWatch(v) => job_watch_text(v),
        CommandView::Doctor(v) => doctor_text(v),
        CommandView::MycStatus(v) => myc_status_text(v, true),
        CommandView::RelayList(v) => relay_list_text(v),
        CommandView::AccountList(v) => account_list_text(v),
        CommandView::ConfigShow(v) => config_show_text(v),
        CommandView::MarketView(v) => market_view_text(v),
        CommandView::ListingGet(v) => market_view_text(v),
        CommandView::MarketSearch(v) => market_search_text(v),
        CommandView::Find(v) => market_search_text(v),
        CommandView::MarketUpdate(v) => market_update_text(v),
        CommandView::FarmPublish(v) => farm_publish_text(v),
        CommandView::SignerStatus(v) => signer_status_text(v),
        CommandView::NetStatus(v) => net_status_text(v),
        CommandView::Status(v) => status_summary_text(v),
        CommandView::Setup(v) => setup_text(v),
        CommandView::LocalExport(v) => local_export_text(v),
        CommandView::LocalBackup(v) => local_backup_text(v),
        CommandView::LocalInit(v) => local_init_text(v),
        CommandView::LocalStatus(v) => local_status_text(v),
        CommandView::ListingValidate(v) => listing_validate_text(v),
        CommandView::ListingNew(v) => listing_new_text(v),
        CommandView::SellDraftMutation(v) => sell_draft_mutation_text(v),
        CommandView::SellCheck(v) => sell_check_text(v),
        CommandView::SellShow(v) => sell_show_text(v),
        CommandView::SellAdd(v) => sell_add_text(v),
        CommandView::AccountWhoami(v) => account_whoami_text(v),
        CommandView::AccountUse(v) => account_use_text(v),
        CommandView::AccountClearDefault(v) => account_clear_default_text(v),
        CommandView::AccountRemove(v) => account_remove_text(v),
        CommandView::AccountImport(v) => account_import_text(v),
        CommandView::AccountNew(v) => account_new_text(v),
        CommandView::SyncWatch(v) => sync_watch_text(v),
        CommandView::SyncPush(v) => sync_action_text(v),
        CommandView::SyncPull(v) => sync_action_text(v),
        CommandView::SyncStatus(v) => sync_status_text(v),
        CommandView::OrderHistory(v) => order_history_text(v),
        CommandView::OrderSubmitWatch(v) => order_submit_watch_text(v),
        CommandView::OrderWatch(v) => order_watch_text(v),
        CommandView::OrderList(v) => order_list_text(v),
        CommandView::OrderNew(v) => order_new_text(v),
        CommandView::OrderCancel(v) => order_cancel_text(v),
        CommandView::OrderGet(v) => order_get_text(v),
        CommandView::RuntimeLogs(v) => runtime_logs_text(v),
        CommandView::RuntimeConfigShow(v) => runtime_config_show_text(v),
        CommandView::RuntimeAction(v) => runtime_action_text(v),
        CommandView::RuntimeStatus(v) => runtime_status_text(v),
        CommandView::FarmGet(v) => farm_get_text(v),
        CommandView::FarmStatus(v) => farm_status_text(v),
        CommandView::FarmSetup(v) => farm_setup_text(v),
        CommandView::FarmSet(v) => farm_set_text(v),
        CommandView::SellMutation(v) => sell_mutation_text(v),
        CommandView::OrderSubmit(v) => order_submit_text(v),
    }
}

/// Writes a view for people, before it is cleaned up.
pub fn render_human_view(output: &CommandOutput) -> (r: String)
    ensures
        r@ == view_text(output.view),
{
    let mut out = String::new();
    match output.view() {
        CommandView::RpcStatus(v) => render_rpc_status(&mut out, v),
        CommandView::RpcSessions(v) => render_rpc_sessions(&mut out, v),
        CommandView::JobList(v) => render_job_list(&mut out, v),
        CommandView::JobGet(v) => render_job_get(&mut out, v),
        CommandView::JobWatch(v) => render_job_watch(&mut out, v),
        CommandView::Doctor(v) => render_doctor(&mut out, v),
        CommandView::MycStatus(v) => render_myc_status(&mut out, v, true),
        CommandView::RelayList(v) => render_relay_list(&mut out, v),
        CommandView::AccountList(v) => render_account_list(&mut out, v),
        CommandView::ConfigShow(v) => render_config_show(&mut out, v),
        CommandView::MarketView(v) => render_market_view(&mut out, v),
        CommandView::ListingGet(v) => render_market_view(&mut out, v),
        CommandView::MarketSearch(v) => render_market_search(&mut out, v),
        CommandView::Find(v) => render_market_search(&mut out, v),
        CommandView::MarketUpdate(v) => render_market_update(&mut out, v),
        CommandView::FarmPublish(v) => render_farm_publish(&mut out, v),
        CommandView::SignerStatus(v) => render_signer_status(&mut out, v),
        CommandView::NetStatus(v) => render_net_status(&mut out, v),
        CommandView::Status(v) => render_status_summary(&mut out, v),
        CommandView::Setup(v) => render_setup(&mut out, v),
        CommandView::LocalExport(v) => render_local_export(&mut out, v),
        CommandView::LocalBackup(v) => render_local_backup(&mut out, v),
        CommandView::LocalInit(v) => render_local_init(&mut out, v),
        CommandView::LocalStatus(v) => render_local_status(&mut out, v),
        CommandView::ListingValidate(v) => render_listing_validate(&mut out, v),
        CommandView::ListingNew(v) => render_listing_new(&mut out, v),
        CommandView::SellDraftMutation(v) => render_sell_draft_mutation(&mut out, v),
        CommandView::SellCheck(v) => render_sell_check(&mut out, v),
        CommandView::SellShow(v) => render_sell_show(&mut out, v),
        CommandView::SellAdd(v) => render_sell_add(&mut out, v),
        CommandView::AccountWhoami(v) => render_account_whoami(&mut out, v),
        CommandView::AccountUse(v) => render_account_use(&mut out, v),
        CommandView::AccountClearDefault(v) => render_account_clear_default(&mut out, v),
        CommandView::AccountRemove(v) => render_account_remove(&mut out, v),
        CommandView::AccountImport(v) => render_account_import(&mut out, v),
        CommandView::AccountNew(v) => render_account_new(&mut out, v),
        CommandView::SyncWatch(v) => render_sync_watch(&mut out, v),
        CommandView::SyncPush(v) => render_sync_action(&mut out, v),
        CommandView::SyncPull(v) => render_sync_action(&mut out, v),
        CommandView::SyncStatus(v) => render_sync_status(&mut out, v),
        CommandView::OrderHistory(v) => render_order_history(&mut out, v),
        CommandView::OrderSubmitWatch(v) => render_order_submit_watch(&mut out, v),
        CommandView::OrderWatch(v) => render_order_watch(&mut out, v),
        CommandView::OrderList(v) => render_order_list(&mut out, v),
        CommandView::OrderNew(v) => render_order_new(&mut out, v),
        CommandView::OrderCancel(v) => render_order_cancel(&mut out, v),
        CommandView::OrderGet(v) => render_order_get(&mut out, v),
        CommandView::RuntimeLogs(v) => render_runtime_logs(&mut out, v),
        CommandView::RuntimeConfigShow(v) => render_runtime_config_show(&mut out, v),
        CommandView::RuntimeAction(v) => render_runtime_action(&mut out, v),
        CommandView::RuntimeStatus(v) => render_runtime_status(&mut out, v),
        CommandView::FarmGet(v) => render_farm_get(&mut out, v),
        CommandView::FarmStatus(v) => render_farm_status(&mut out, v),
        CommandView::FarmSetup(v) => render_farm_setup(&mut out, v),
        CommandView::FarmSet(v) => render_farm_set(&mut out, v),
        CommandView::SellMutation(v) => render_sell_mutation(&mut out, v),
        CommandView::OrderSubmit(v) => render_order_submit(&mut out, v),
    }
    proof {
        assert(out@ =~= view_text(output.view));
    }
    out
}

/// Whether a line is blank.
pub open spec fn blank_line(l: Seq<char>) -> bool {
    trim(l).len() == 0
}

/// The lines after `prev_blank`: runs of blank lines become one empty line, and blank lines
/// at the start (when `prev_blank`) are dropped.
pub open spec fn collapse_from(lines: Seq<Seq<char>>, prev_blank: bool) -> Seq<Seq<char>>
    decreases lines.len(),
{
    if lines.len() == 0 {
        seq![]
    } else if blank_line(lines[0]) {
        if prev_blank {
            collapse_from(lines.drop_first(), true)
        } else {
            seq![seq![]] + collapse_from(lines.drop_first(), true)
        }
    } else {
        seq![lines[0]] + collapse_from(lines.drop_first(), false)
    }
}

/// `lines` without its trailing blank lines.
pub open spec fn drop_trailing_blank(lines: Seq<Seq<char>>) -> Seq<Seq<char>>
    decreases lines.len(),
{
    if lines.len() > 0 && blank_line(lines.last()) {
        drop_trailing_blank(lines.drop_last())
    } else {
        lines
    }
}

/// The lines with leading blank lines dropped, inner runs of blank lines reduced to one empty
/// line, and trailing blank lines dropped.
pub open spec fn collapsed(lines: Seq<Seq<char>>) -> Seq<Seq<char>> {
    drop_trailing_blank(collapse_from(lines, true))
}

/// Collapses blank lines.
pub fn collapse_blank_lines(lines: Vec<String>) -> (r: Vec<String>)
    ensures
        strings_view(r@) == collapsed(strings_view(lines@)),
{
    let ghost all = strings_view(lines@);
    let mut out: Vec<String> = Vec::new();
    let mut previous_blank = true;
    let mut i: usize = 0;
    proof {
        assert(all.skip(0) =~= all);
        assert(strings_view(out@) + collapse_from(all.skip(0), true) =~= collapse_from(all, true));
    }
    while i < lines.len()
        invariant
            all == strings_view(lines@),
            i <= lines@.len(),
            strings_view(out@) + collapse_from(all.skip(i as int), previous_blank) == collapse_from(all, true),
        decreases lines@.len() - i,
    {
        let ghost rest = all.skip(i as int);
        proof {
            assert(rest[0] == lines@[i as int]@);
            assert(rest.drop_first() =~= all.skip(i + 1));
        }
        let blank = crate::text::is_blank_str(lines[i].as_str());
        let ghost before = strings_view(out@);
        if blank {
            if !previous_blank {
                out.push(String::new());
                proof {
                    assert(strings_view(out@) =~= before.push(seq![]));
                    assert(before + (seq![seq![]] + collapse_from(rest.drop_first(), true)) =~= strings_view(out@) + collapse_from(rest.drop_first(), true));
                }
            }
            previous_blank = true;
        } else {
            out.push(lines[i].clone());
            proof {
                assert(strings_view(out@) =~= before.push(lines@[i as int]@));
                assert(before + (seq![lines@[i as int]@] + collapse_from(rest.drop_first(), false)) =~= strings_view(out@) + collapse_from(rest.drop_first(), false));
            }
            previous_blank = false;
        }
        i += 1;
    }
    proof {
        assert(all.skip(lines@.len() as int) =~= Seq::<Seq<char>>::empty());
        assert(strings_view(out@) + Seq::<Seq<char>>::empty() =~= strings_view(out@));
    }
    while out.len() > 0 && crate::text::is_blank_str(out[out.len() - 1].as_str())
        invariant
            drop_trailing_blank(strings_view(out@)) == collapsed(all),
        decreases out@.len(),
    {
        let ghost before = strings_view(out@);
        proof {
            assert(before.last() == out@[out@.len() - 1]@);
        }
        out.pop();
        proof {
            assert(strings_view(out@) =~= before.drop_last());
        }
    }
    proof {
        if out@.len() > 0 {
            assert(strings_view(out@).last() == out@[out@.len() - 1]@);
        }
    }
    out
}

/// The rule line that finalizing drops.
pub open spec fn thin_rule() -> Seq<char> {
    "────────────────────────────────────────────────────"@
}

/// How finalizing treats one rendered line.
pub enum LineUse {
    Dropped,
    Detail(Seq<char>, Seq<char>),
    Kept(Seq<char>),
}

/// How finalizing treats one rendered line: the rule is dropped, source and provenance lines
/// become details, a `reason: ` prefix and the `actions` heading are reworded, and other lines
/// are kept without trailing whitespace.
pub open spec fn line_use(line: Seq<char>) -> LineUse {
    let t = trim_end(line);
    let lead = trim_start(t);
    if t == thin_rule() {
        LineUse::Dropped
    } else if strip_prefix(lead, "workflow source: "@) is Some {
        LineUse::Detail("Workflow source"@, strip_prefix(lead, "workflow source: "@)->0)
    } else if strip_prefix(lead, "source: "@) is Some {
        LineUse::Detail("Source"@, strip_prefix(lead, "source: "@)->0)
    } else if strip_prefix(lead, "provenance: "@) is Some {
        LineUse::Detail("Provenance"@, strip_prefix(lead, "provenance: "@)->0)
    } else if strip_prefix(t, "reason: "@) is Some {
        LineUse::Kept(strip_prefix(t, "reason: "@)->0)
    } else if t == "actions"@ {
        LineUse::Kept("Next"@)
    } else {
        LineUse::Kept(t)
    }
}

/// The lines finalizing keeps, in order.
pub open spec fn kept_lines(ls: Seq<Seq<char>>) -> Seq<Seq<char>>
    decreases ls.len(),
{
    if ls.len() == 0 {
        seq![]
    } else {
        match line_use(ls.last()) {
            LineUse::Kept(x) => kept_lines(ls.drop_last()).push(x),
            _ => kept_lines(ls.drop_last()),
        }
    }
}

/// The detail rows finalizing takes from the lines, in order.
pub open spec fn line_details(ls: Seq<Seq<char>>) -> Seq<(Seq<char>, Seq<char>)>
    decreases ls.len(),
{
    if ls.len() == 0 {
        seq![]
    } else {
        match line_use(ls.last()) {
            LineUse::Detail(l, v) => line_details(ls.drop_last()).push((l, v)),
            _ => line_details(ls.drop_last()),
        }
    }
}

/// Whether `rows` has a row labelled `label`.
pub open spec fn has_label(rows: Seq<(Seq<char>, Seq<char>)>, label: Seq<char>) -> bool {
    exists|i: int| 0 <= i < rows.len() && #[trigger] rows[i].0 == label
}

/// `rows` followed by each of `extra` whose label is not there yet.
pub open spec fn merge_details(
    rows: Seq<(Seq<char>, Seq<char>)>,
    extra: Seq<(Seq<char>, Seq<char>)>,
) -> Seq<(Seq<char>, Seq<char>)>
    decreases extra.len(),
{
    if extra.len() == 0 {
        rows
    } else {
        let acc = merge_details(rows, extra.drop_last());
        if has_label(acc, extra.last().0) {
            acc
        } else {
            acc.push(extra.last())
        }
    }
}

/// The cleaned body: kept lines, blank lines collapsed, joined and ended with a line break.
pub open spec fn body_text(rendered: Seq<char>) -> Seq<char> {
    let j = join_with(collapsed(kept_lines(lines(rendered))), "\n"@);
    if j.len() > 0 && j.last() != '\n' {
        j.push('\n')
    } else {
        j
    }
}

/// `s`, then a blank line separator when `s` is not empty.
pub open spec fn separated(s: Seq<char>) -> Seq<char> {
    if s.len() > 0 {
        s.push('\n')
    } else {
        s
    }
}

/// The body with the details a verbose render adds.
pub open spec fn with_details(output: CommandOutput, rendered: Seq<char>, verbosity: Verbosity) -> Seq<char> {
    let body = body_text(rendered);
    let details = merge_details(detail_rows(output.view), line_details(lines(rendered)));
    if (verbosity == Verbosity::Verbose || verbosity == Verbosity::Trace) && details.len() > 0 {
        separated(body) + "Details\n"@ + field_rows_string(details)
    } else {
        body
    }
}

/// What the human renderer prints: the cleaned body, details when verbose, and for a trace the
/// command name and the indented machine-readable form `trace_json`.
pub open spec fn finalized_text(
    output: CommandOutput,
    rendered: Seq<char>,
    verbosity: Verbosity,
    trace_json: Seq<char>,
) -> Seq<char> {
    let d = with_details(output, rendered, verbosity);
    if verbosity == Verbosity::Trace {
        separated(d) + "Trace\n"@ + field_rows_string(seq![("Command"@, command_name(output.view))])
            + indented(lines(trim_end(trace_json)))
    } else {
        d
    }
}

fn classify_line(line: &Vec<char>) -> (r: (u8, String, String))
    ensures
        match line_use(line@) {
            LineUse::Dropped => r.0 == 0,
            LineUse::Detail(l, v) => r.0 == 1 && r.1@ == l && r.2@ == v,
            LineUse::Kept(x) => r.0 == 2 && r.2@ == x,
        },
{
    let t = trim_end_chars(line.as_slice());
    if chars_is(t.as_slice(), "────────────────────────────────────────────────────") {
        return (0, String::new(), String::new());
    }
    let lead = trim_start_chars(t.as_slice());
    if let Some(v) = strip_prefix_chars(lead.as_slice(), "workflow source: ") {
        return (1, owned("Workflow source"), string_of(v.as_slice()));
    }
    if let Some(v) = strip_prefix_chars(lead.as_slice(), "source: ") {
        return (1, owned("Source"), string_of(v.as_slice()));
    }
    if let Some(v) = strip_prefix_chars(lead.as_slice(), "provenance: ") {
        return (1, owned("Provenance"), string_of(v.as_slice()));
    }
    if let Some(v) = strip_prefix_chars(t.as_slice(), "reason: ") {
        return (2, String::new(), string_of(v.as_slice()));
    }
    if chars_is(t.as_slice(), "actions") {
        return (2, String::new(), owned("Next"));
    }
    (2, String::new(), string_of(t.as_slice()))
}

fn has_label_exec(rows: &Vec<(String, String)>, label: &str) -> (r: bool)
    ensures
        r == has_label(rows_view(rows@), label@),
{
    let mut i: usize = 0;
    while i < rows.len()
        invariant
            i <= rows@.len(),
            forall|j: int| 0 <= j < i ==> rows@[j].0@ != label@,
        decreases rows@.len() - i,
    {
        if crate::text::str_eq(rows[i].0.as_str(), label) {
            proof {
                assert(rows_view(rows@)[i as int].0 == label@);
            }
            return true;
        }
        i += 1;
    }
    proof {
        if has_label(rows_view(rows@), label@) {
            let j = choose|j: int| 0 <= j < rows_view(rows@).len() && #[trigger] rows_view(rows@)[j].0 == label@;
            assert(rows@[j].0@ == label@);
        }
    }
    false
}

fn ends_with_newline(s: &str) -> (r: bool)
    ensures
        r == (s@.len() > 0 && s@.last() == '\n'),
{
    let cs = chars_of(s);
    cs.len() > 0 && cs[cs.len() - 1] == '\n'
}

/// Cleans up a human render and adds details and trace as the verbosity asks.
pub fn finalize_human_output(
    output: &CommandOutput,
    rendered: &str,
    verbosity: Verbosity,
    trace_json: &str,
) -> (r: String)
    ensures
        r@ == finalized_text(*output, rendered@, verbosity, trace_json@),
{
    let ls = lines_of(rendered);
    let mut cleaned: Vec<String> = Vec::new();
    let mut fallback: Vec<(String, String)> = Vec::new();
    for i in 0..ls.len()
        invariant
            vecs_view(ls@) == lines(rendered@),
            strings_view(cleaned@) == kept_lines(vecs_view(ls@.take(i as int))),
            rows_view(fallback@) == line_details(vecs_view(ls@.take(i as int))),
    {
        proof {
            assert(vecs_view(ls@.take(i + 1)).drop_last() =~= vecs_view(ls@.take(i as int)));
            assert(vecs_view(ls@.take(i + 1)).last() == ls@[i as int]@);
        }
        let (kind, label, value) = classify_line(&ls[i]);
        let ghost c0 = strings_view(cleaned@);
        let ghost f0 = rows_view(fallback@);
        if kind == 1 {
            fallback.push((label, value));
            proof {
                assert(rows_view(fallback@) =~= f0.push((label@, value@)));
            }
        } else if kind == 2 {
            cleaned.push(value);
            proof {
                assert(strings_view(cleaned@) =~= c0.push(value@));
            }
        }
    }
    proof {
        assert(ls@.take(ls@.len() as int) =~= ls@);
    }
    let collapsed_lines = collapse_blank_lines(cleaned);
    let mut finalized = join_strings(&collapsed_lines, "\n");
    if !finalized.as_str().is_empty() && !ends_with_newline(finalized.as_str()) {
        push_char(&mut finalized, '\n');
    }
    let ghost body = finalized@;
    assert(body == body_text(rendered@));
    if verbosity == Verbosity::Verbose || verbosity == Verbosity::Trace {
        let mut details = verbose_details(output);
        let ghost base = rows_view(details@);
        for k in 0..fallback.len()
            invariant
                rows_view(details@) == merge_details(base, rows_view(fallback@.take(k as int))),
        {
            proof {
                assert(rows_view(fallback@.take(k + 1)).drop_last() =~= rows_view(fallback@.take(k as int)));
                assert(rows_view(fallback@.take(k + 1)).last() == (fallback@[k as int].0@, fallback@[k as int].1@));
            }
            if !has_label_exec(&details, fallback[k].0.as_str()) {
                let ghost d0 = rows_view(details@);
                details.push((fallback[k].0.clone(), fallback[k].1.clone()));
                proof {
                    assert(rows_view(details@) =~= d0.push((fallback@[k as int].0@, fallback@[k as int].1@)));
                }
            }
        }
        proof {
            assert(fallback@.take(fallback@.len() as int) =~= fallback@);
        }
        if details.len() > 0 {
            if !finalized.as_str().is_empty() {
                push_char(&mut finalized, '\n');
            }
            append_str(&mut finalized, "Details\n");
            let rows_text = render_field_rows_string(&details);
            append_str(&mut finalized, rows_text.as_str());
        }
    }
    proof {
        reveal_strlit("Details\n");
        assert(finalized@ =~= with_details(*output, rendered@, verbosity));
    }
    if verbosity == Verbosity::Trace {
        let ghost d = finalized@;
        if !finalized.as_str().is_empty() {
            push_char(&mut finalized, '\n');
        }
        append_str(&mut finalized, "Trace\n");
        let mut command: Vec<(String, String)> = Vec::new();
        command.push(row("Command", owned(human_command_name(output.view()))));
        proof {
            assert(rows_view(command@) =~= seq![("Command"@, command_name(output.view))]);
        }
        let command_text = render_field_rows_string(&command);
        append_str(&mut finalized, command_text.as_str());
        let json_chars = chars_of(trace_json);
        let trimmed = trim_end_chars(json_chars.as_slice());
        let trimmed_text = string_of(trimmed.as_slice());
        let json_lines = lines_of(trimmed_text.as_str());
        let mut items: Vec<String> = Vec::new();
        for k in 0..json_lines.len()
            invariant
                strings_view(items@) == vecs_view(json_lines@.take(k as int)),
        {
            let ghost i0 = strings_view(items@);
            items.push(string_of(json_lines[k].as_slice()));
            proof {
                assert(vecs_view(json_lines@.take(k + 1)) =~= vecs_view(json_lines@.take(k as int)).push(json_lines@[k as int]@));
                assert(strings_view(items@) =~= i0.push(json_lines@[k as int]@));
            }
        }
        proof {
            assert(json_lines@.take(json_lines@.len() as int) =~= json_lines@);
        }
        write_indented(&mut finalized, &items);
        proof {
            reveal_strlit("Trace\n");
            assert(finalized@ =~= finalized_text(*output, rendered@, verbosity, trace_json@));
        }
    }
    finalized
}

/// The one line `--quiet` prints instead of the whole render, for the views that have one.
pub open spec fn quiet_text(view: CommandView) -> Option<Seq<char>> {
    match view {
        CommandView::OrderSubmit(v) => order_submit_quiet(v),
        CommandView::Find(v) => search_quiet(v),
        CommandView::MarketSearch(v) => search_quiet(v),
        _ => account_quiet(view),
    }
}

/// The one line `--quiet` prints instead of the whole render, for the views that have one.
pub fn render_quiet_output(output: &CommandOutput) -> (r: Option<String>)
    ensures
        crate::bindings::opt_str_view(r) == quiet_text(output.view),
{
    match output.view() {
        CommandView::OrderSubmit(v) => order_submit_quiet_line(v),
        CommandView::Find(v) => search_quiet_line(v),
        CommandView::MarketSearch(v) => search_quiet_line(v),
        _ => account_quiet_line(output.view()),
    }
}

/// What the human renderer prints: under `--quiet`, a view's one line when it has one; otherwise
/// the cleaned-up render with the details and trace the verbosity asks for.
pub open spec fn human_text(output: CommandOutput, verbosity: Verbosity, trace_json: Seq<char>) -> Seq<char> {
    match quiet_text(output.view) {
        Some(q) if verbosity == Verbosity::Quiet => nl(q),
        _ => finalized_text(output, view_text(output.view), verbosity, trace_json),
    }
}

/// What the human renderer prints for `output` at `verbosity`; `trace_json` is the output's
/// machine-readable form, shown under a trace.
pub fn render_human_with_config(output: &CommandOutput, verbosity: Verbosity, trace_json: &str) -> (r:
    String)
    ensures
        r@ == human_text(*output, verbosity, trace_json@),
{
    if verbosity == Verbosity::Quiet {
        if let Some(quiet) = render_quiet_output(output) {
            let mut line = quiet;
            push_char(&mut line, '\n');
            return line;
        }
    }
    let rendered = render_human_view(output);
    finalize_human_output(output, rendered.as_str(), verbosity, trace_json)
}

/// What is left to print once rendering has decided: human text, or the machine-readable form
/// of the whole view, or one line per item.
#[derive(Debug, Clone, PartialEq, Eq)]
pub enum RenderPlan {
    Human(String),
    Json,
    Ndjson,
}

/// Whether a view can be printed one item per line.
pub open spec fn supports_ndjson(view: CommandView) -> bool {
    match view {
        CommandView::AccountList(_) | CommandView::RelayList(_) | CommandView::JobList(_)
        | CommandView::JobWatch(_) | CommandView::OrderList(_) | CommandView::OrderHistory(_)
        | CommandView::OrderWatch(_) | CommandView::RpcSessions(_) | CommandView::SyncWatch(_)
        | CommandView::Find(_) | CommandView::MarketSearch(_) => true,
        _ => false,
    }
}

/// Decides how `output` is printed in the configured format; views without items refuse
/// `--ndjson`.
pub fn render_output(output: &CommandOutput, config: &OutputConfig, trace_json: &str) -> (r: Result<
    RenderPlan,
    RuntimeError,
>)
    ensures
        config.format == OutputFormat::Human ==> (r matches Ok(RenderPlan::Human(t)) && t@ == human_text(
            *output,
            config.verbosity,
            trace_json@,
        )),
        config.format == OutputFormat::Json ==> r matches Ok(RenderPlan::Json),
        config.format == OutputFormat::Ndjson ==> (if supports_ndjson(output.view) {
            r matches Ok(RenderPlan::Ndjson)
        } else {
            is_config_err(r, "`"@ + command_name(output.view) + "` does not support --ndjson"@)
        }),
{
    match config.format {
        OutputFormat::Human => Ok(RenderPlan::Human(render_human_with_config(output, config.verbosity, trace_json))),
        OutputFormat::Json => Ok(RenderPlan::Json),
        OutputFormat::Ndjson => {
            let supported = match output.view() {
                CommandView::AccountList(_) | CommandView::RelayList(_) | CommandView::JobList(_)
                | CommandView::JobWatch(_) | CommandView::OrderList(_) | CommandView::OrderHistory(_)
                | CommandView::OrderWatch(_) | CommandView::RpcSessions(_) | CommandView::SyncWatch(_)
                | CommandView::Find(_) | CommandView::MarketSearch(_) => true,
                _ => false,
            };
            if supported {
                Ok(RenderPlan::Ndjson)
            } else {
                Err(
                    RuntimeError::Config(
                        concat3("`", human_command_name(output.view()), "` does not support --ndjson"),
                    ),
                )
            }
        },
    }
}

} // verus!
