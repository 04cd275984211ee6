use vstd::prelude::*;
use crate::market_views::ListingGetView;
use crate::market_views::FindView;

use crate::account_views::{
    AccountClearDefaultView, AccountImportView, AccountNewView, AccountRemoveView, AccountUseView,
    AccountWhoamiView,
};
use crate::config_show::ConfigShowView;
use crate::daemon::{RpcSessionsView, RpcStatusView};
use crate::farm_publish::FarmPublishView;
use crate::farm_views::{FarmGetView, FarmSetView, FarmSetupView, FarmStatusView};
use crate::job::{JobGetView, JobListView, JobWatchView};
use crate::listing_views::{ListingNewView, ListingValidateView};
use crate::local_store::{LocalBackupView, LocalExportView, LocalInitView, LocalStatusView};
use crate::order::{OrderCancelView, OrderGetView, OrderListView, OrderNewView, OrderSubmitView};
use crate::order_history::OrderHistoryView;
use crate::order_watch::{OrderSubmitWatchView, OrderWatchView};
use crate::runtime_views::{RuntimeActionView, RuntimeLogsView, RuntimeManagedConfigView, RuntimeStatusView};
use crate::sell::SellMutationView;
use crate::sell_drafts::{SellAddView, SellCheckView, SellDraftMutationView, SellShowView};
use crate::status_views::{NetStatusView, SetupView, SignerStatusView, StatusView};
use crate::sync_views::{SyncActionView, SyncStatusView, SyncWatchView};
use crate::views::{AccountListView, DoctorView, MycStatusView, RelayListView};

verus! {

/// How a command ended, which decides its exit status.
#[derive(Debug, Clone, Copy, PartialEq, Eq, Structural)]
pub enum OutputDisposition {
    Success,
    Unconfigured,
    ExternalUnavailable,
    InternalError,
}

/// The view a command produced.
#[derive(Debug, Clone, PartialEq, Eq)]
pub enum CommandView {
    RpcStatus(RpcStatusView),
    RpcSessions(RpcSessionsView),
    JobList(JobListView),
    JobGet(JobGetView),
    JobWatch(JobWatchView),
    Doctor(DoctorView),
    MycStatus(MycStatusView),
    RelayList(RelayListView),
    AccountList(AccountListView),
    ConfigShow(ConfigShowView),
    FarmGet(FarmGetView),
    FarmStatus(FarmStatusView),
    FarmSetup(FarmSetupView),
    FarmSet(FarmSetView),
    SellMutation(SellMutationView),
    OrderSubmit(OrderSubmitView),
    RuntimeStatus(RuntimeStatusView),
    RuntimeAction(RuntimeActionView),
    RuntimeConfigShow(RuntimeManagedConfigView),
    RuntimeLogs(RuntimeLogsView),
    OrderGet(OrderGetView),
    OrderCancel(OrderCancelView),
    OrderNew(OrderNewView),
    OrderList(OrderListView),
    OrderWatch(OrderWatchView),
    OrderSubmitWatch(OrderSubmitWatchView),
    OrderHistory(OrderHistoryView),
    SyncStatus(SyncStatusView),
    SyncPull(SyncActionView),
    SyncPush(SyncActionView),
    SyncWatch(SyncWatchView),
    AccountNew(AccountNewView),
    AccountImport(AccountImportView),
    AccountRemove(AccountRemoveView),
    AccountClearDefault(AccountClearDefaultView),
    AccountUse(AccountUseView),
    AccountWhoami(AccountWhoamiView),
    SellAdd(SellAddView),
    SellShow(SellShowView),
    SellCheck(SellCheckView),
    SellDraftMutation(SellDraftMutationView),
    ListingNew(ListingNewView),
    ListingValidate(ListingValidateView),
    LocalStatus(LocalStatusView),
    LocalInit(LocalInitView),
    LocalBackup(LocalBackupView),
    LocalExport(LocalExportView),
    Setup(SetupView),
    Status(StatusView),
    NetStatus(NetStatusView),
    SignerStatus(SignerStatusView),
    FarmPublish(FarmPublishView),
    MarketUpdate(SyncActionView),
    Find(FindView),
    MarketSearch(FindView),
    ListingGet(ListingGetView),
    MarketView(ListingGetView),
}

/// What a command hands to the renderer.
#[derive(Debug, Clone, PartialEq, Eq)]
pub struct CommandOutput {
    pub disposition: OutputDisposition,
    pub view: CommandView,
}

impl CommandOutput {
    /// A command that succeeded.
    pub fn success(view: CommandView) -> (r: CommandOutput)
        ensures
            r.disposition == OutputDisposition::Success,
            r.view == view,
    {
        CommandOutput { disposition: OutputDisposition::Success, view }
    }

    /// A command that lacks configuration.
    pub fn unconfigured(view: CommandView) -> (r: CommandOutput)
        ensures
            r.disposition == OutputDisposition::Unconfigured,
            r.view == view,
    {
        CommandOutput { disposition: OutputDisposition::Unconfigured, view }
    }

    /// A command whose outside service was unavailable.
    pub fn external_unavailable(view: CommandView) -> (r: CommandOutput)
        ensures
            r.disposition == OutputDisposition::ExternalUnavailable,
            r.view == view,
    {
        CommandOutput { disposition: OutputDisposition::ExternalUnavailable, view }
    }

    /// A command that failed inside the runtime.
    pub fn internal_error(view: CommandView) -> (r: CommandOutput)
        ensures
            r.disposition == OutputDisposition::InternalError,
            r.view == view,
    {
        CommandOutput { disposition: OutputDisposition::InternalError, view }
    }

    /// The view this command produced.
    pub fn view(&self) -> (r: &CommandView)
        ensures
            *r == self.view,
    {
        &self.view
    }
}

} // verus!
