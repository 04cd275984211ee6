use radroots_cli::accounts::{AccountResolutionView, AccountSummaryView, account_resolution};
use radroots_cli::account_views::{AccountClearDefaultView, AccountNewView, AccountRemoveView, AccountWhoamiView};
use radroots_cli::config::Verbosity;
use radroots_cli::farm_publish::{FarmPublishComponentView, FarmPublishView};
use radroots_cli::human::render_human_with_config;
use radroots_cli::listing_views::{ListingNewView, ListingValidateView, ListingValidationIssueView};
use radroots_cli::local_store::{
    LocalExportFormat, LocalExportView, LocalReplicaCountsView, LocalReplicaSyncView, LocalStatusView, ReplicaManifest,
    TableCount, ensure_safe_output_path, export_record_count, local_export_view, local_status_view, manifest_counts,
    table_row_count,
};
use radroots_cli::error::RuntimeError;
use radroots_cli::order::{OrderJobView, OrderSubmitView};
use radroots_cli::order_history::{OrderHistoryEntryView, OrderHistoryView};
use radroots_cli::order_watch::{OrderSubmitWatchView, OrderWatchFrameView, OrderWatchView};
use radroots_cli::output::{CommandOutput, CommandView};
use radroots_cli::runtime_config::LocalConfig;
use radroots_cli::sell_drafts::{SellAddView, SellCheckView, SellDraftMutationView};
use radroots_cli::status_views::{NetStatusView, SetupView, SignerBindingStatusView, SignerStatusView};
use radroots_cli::sync_views::{SyncFreshnessView, SyncQueueView, SyncStatusView, SyncWatchFrameView, SyncWatchView};
use radroots_cli::views::PublicIdentityView;

fn human(view: CommandView) -> String {
    render_human_with_config(&CommandOutput::success(view), Verbosity::Normal, "")
}

fn quiet(view: CommandView) -> String {
    render_human_with_config(&CommandOutput::success(view), Verbosity::Quiet, "")
}

fn s(v: &str) -> String {
    v.to_owned()
}

fn unresolved() -> AccountResolutionView {
    AccountResolutionView { source: s("unresolved"), resolved_account: None, default_account: None }
}

fn account(id: &str, name: Option<&str>, signer: &str, is_default: bool) -> AccountSummaryView {
    AccountSummaryView { id: s(id), display_name: name.map(s), signer: s(signer), is_default }
}

fn job(id: &str, state: &str) -> OrderJobView {
    OrderJobView {
        job_id: s(id),
        state: s(state),
        command: None,
        signer_mode: None,
        signer_session_id: None,
        requested_signer_session_id: None,
        event_id: None,
        event_addr: None,
        reason: None,
    }
}

#[test]
fn order_watch_lists_frames_with_signer_and_terminal_rows() {
    let view = OrderWatchView {
        state: s("watching"),
        order_id: s("ord_1"),
        frames: vec![OrderWatchFrameView {
            observed_at_unix: 3661,
            state: s("accepted"),
            summary: s("bridge accepted"),
            signer_mode: s("local_key"),
            signer_session_id: Some(s("  ")),
            terminal: true,
        }],
        reason: None,
        actions: vec![s("radroots order view ord_1")],
    };
    assert_eq!(human(CommandView::OrderWatch(view)), "Watching order ord_1\n\n01:01:01\n  State     Accepted\n  Summary   bridge accepted\n  Signer    Local Key\n  Terminal  Yes\n\nNext\n  radroots order view ord_1\n");
}

#[test]
fn order_watch_of_missing_order_says_not_found() {
    let view = OrderWatchView {
        state: s("missing"),
        order_id: s("ord_1"),
        frames: Vec::new(),
        reason: Some(s("no draft named ord_1")),
        actions: Vec::new(),
    };
    assert_eq!(human(CommandView::OrderWatch(view)), "Not found\n\nno draft named ord_1\n");
}

#[test]
fn order_submit_watch_shows_submission_then_frames() {
    let submit = OrderSubmitView {
        state: s("accepted"),
        source: s("bridge"),
        order_id: s("ord_1"),
        listing_lookup: None,
        listing_addr: Some(s("30402:ab:eggs")),
        buyer_account_id: None,
        buyer_pubkey: None,
        signer_mode: None,
        requested_signer_session_id: None,
        idempotency_key: None,
        job: Some(job("job_9", "queued")),
        issues: Vec::new(),
        reason: None,
        actions: Vec::new(),
    };
    let watch = OrderWatchView {
        state: s("watching"),
        order_id: s("ord_1"),
        frames: vec![OrderWatchFrameView {
            observed_at_unix: 10,
            state: s("open"),
            summary: s("order opened"),
            signer_mode: s("local"),
            signer_session_id: None,
            terminal: false,
        }],
        reason: None,
        actions: Vec::new(),
    };
    assert_eq!(human(CommandView::OrderSubmitWatch(OrderSubmitWatchView { submit, watch })), "Order submitted\n\nOrder\n  ID       ord_1\n  State    Accepted\n  Listing  30402:ab:eggs\n\nJob\n  Job    job_9\n  State  Queued\n\nWatching order ord_1\n\n00:00:10\n  State    Open\n  Summary  order opened\n");
}

#[test]
fn order_history_tabulates_submitted_orders_with_note() {
    let view = OrderHistoryView {
        state: s("ready"),
        source: s("trade history"),
        count: 1,
        reason: Some(s("stale")),
        orders: vec![OrderHistoryEntryView {
            id: s("ord_1"),
            state: s("submitted"),
            listing_lookup: Some(s("eggs")),
            listing_addr: None,
            job: Some(job("job_9", "done")),
            submitted_at_unix: None,
            updated_at_unix: 5,
        }],
        actions: Vec::new(),
    };
    assert_eq!(human(CommandView::OrderHistory(view)), "order history · 1 submitted order\n\norder  listing  state      job    submitted  updated\nord_1  eggs     submitted  job_9             1970-01-01 00:00:05 UTC\n\nnote: stale\n");
}

fn freshness(display: &str) -> SyncFreshnessView {
    SyncFreshnessView { state: s("fresh"), display: s(display), age_seconds: Some(120), last_event_at: None }
}

#[test]
fn sync_status_lists_queue_and_policy() {
    let view = SyncStatusView {
        state: s("ready"),
        source: s("sync"),
        freshness: freshness("2 minutes ago"),
        queue: SyncQueueView { expected_count: 10, pending_count: 3 },
        relay_count: 2,
        publish_policy: s("any"),
        replica_db: s("ready"),
        local_root: s("/data"),
        reason: Some(s("queued")),
        actions: vec![s("radroots sync push")],
    };
    assert_eq!(human(CommandView::SyncStatus(view)), "activity · sync status\n\nsync\n  status          ready\n  freshness       2 minutes ago\n  pending         3\n  expected        10\n  relays          2\n  publish policy  any\n  replica db      ready\n  local root      /data\n\nqueued\n\nNext\n  radroots sync push\n");
}

#[test]
fn sync_watch_shows_each_frame() {
    let view = SyncWatchView {
        state: s("watching"),
        frames: vec![SyncWatchFrameView {
            observed_at: 60,
            state: s("syncing"),
            relay_count: 2,
            freshness: freshness("just now"),
            queue: SyncQueueView { expected_count: 9, pending_count: 4 },
        }],
        reason: None,
        actions: Vec::new(),
    };
    assert_eq!(human(CommandView::SyncWatch(view)), "Watching market sync\n\n00:01:00\n  State    Syncing\n  Relays   2\n  Updated  just now\n  Queue    4 pending\n");
}

fn identity() -> PublicIdentityView {
    PublicIdentityView { public_key_hex: s("ab"), public_key_npub: s("npub1xyz") }
}

#[test]
fn account_new_shows_account_identity_and_quiet_line() {
    let view = AccountNewView {
        state: s("created"),
        source: s("accounts"),
        account: account("acct_1", Some("Farm"), "local_key", true),
        public_identity: identity(),
        actions: vec![s("radroots farm init")],
    };
    assert_eq!(human(CommandView::AccountNew(view.clone())), "Account created\n\nAccount\n  Name     Farm\n  Account  acct_1\n  Signer   Local Key\n  Default  Yes\n\nIdentity\n  npub  npub1xyz\n\nNext\n  radroots farm init\n");
    assert_eq!(quiet(CommandView::AccountNew(view.clone())), "Account created: acct_1\n");
    let mut migrated = view;
    migrated.state = s("migrated");
    assert_eq!(quiet(CommandView::AccountNew(migrated)), "Account migrated: acct_1\n");
}

#[test]
fn account_remove_reports_remaining_count() {
    let view = AccountRemoveView {
        state: s("removed"),
        source: s("accounts"),
        removed_account: account("acct_2", None, "watch_only", false),
        default_cleared: true,
        remaining_account_count: 1,
        actions: Vec::new(),
    };
    assert_eq!(human(CommandView::AccountRemove(view.clone())), "Default account removed\n\nAccount\n  Account  acct_2\n  Signer   Watch Only\n  Default  No\n\n  Remaining accounts  1\n");
    assert_eq!(quiet(CommandView::AccountRemove(view)), "Account removed: acct_2\n");
}

#[test]
fn account_clear_default_quiet_line_depends_on_cleared_account() {
    let view = AccountClearDefaultView {
        state: s("unchanged"),
        source: s("accounts"),
        cleared_account: None,
        remaining_account_count: 0,
        actions: Vec::new(),
    };
    assert_eq!(quiet(CommandView::AccountClearDefault(view.clone())), "No default account configured\n");
    let mut cleared = view;
    cleared.state = s("cleared");
    cleared.cleared_account = Some(account("acct_1", None, "local", true));
    assert_eq!(quiet(CommandView::AccountClearDefault(cleared)), "Default account cleared: acct_1\n");
}

#[test]
fn account_whoami_without_account_lists_missing_and_next() {
    let view = AccountWhoamiView {
        state: s("unconfigured"),
        source: s("accounts"),
        account_resolution: unresolved(),
        public_identity: None,
        reason: Some(s("no account selected")),
        actions: vec![s("radroots account create")],
    };
    assert_eq!(human(CommandView::AccountWhoami(view)), "Not ready yet\n\nno account selected\n\nAccount resolution\n  Source  Unresolved\n\nMissing\n  Resolved account\n\nNext\n  radroots account create\n");
}

#[test]
fn sell_add_shows_draft_and_defaults() {
    let view = SellAddView {
        state: s("saved"),
        source: s("local draft"),
        file: s("eggs.toml"),
        product_key: Some(s("eggs")),
        title: None,
        offer: Some(s(" ")),
        price: Some(s("5 USD/1 dozen")),
        stock: None,
        farm_name: None,
        delivery_method: Some(s("local_pickup")),
        location_primary: None,
        reason: None,
        actions: vec![s("radroots sell check eggs.toml")],
    };
    assert_eq!(human(CommandView::SellAdd(view)), "Listing draft saved\n\nThe draft is local until you publish it.\n\nDraft\n  File     eggs.toml\n  Listing  eggs\n  Price    5 USD/1 dozen\n\nDefaults\n  Delivery  Local Pickup\n\nNext\n  radroots sell check eggs.toml\n");
}

#[test]
fn sell_check_lists_issues_when_invalid() {
    let issue = |f: &str, m: &str| ListingValidationIssueView { field: s(f), message: s(m), line: Some(2) };
    let view = SellCheckView {
        state: s("invalid"),
        source: s("local draft"),
        file: s("eggs.toml"),
        valid: false,
        product_key: None,
        seller_pubkey: None,
        farm_ref: None,
        issues: vec![issue("price", "missing"), issue("title", "too long")],
        actions: Vec::new(),
    };
    assert_eq!(human(CommandView::SellCheck(view)), "Draft needs changes\n\n  price  missing\n  title  too long\n");
}

#[test]
fn sell_draft_mutation_shows_change_and_draft() {
    let view = SellDraftMutationView {
        state: s("updated"),
        source: s("local draft"),
        operation: s("reprice"),
        file: s("eggs.toml"),
        product_key: None,
        changed_label: s("Price"),
        changed_value: s("6 USD"),
        actions: Vec::new(),
    };
    assert_eq!(human(CommandView::SellDraftMutation(view)), "Draft updated\n\nChanged\n  Price  6 USD\n\nDraft\n  File  eggs.toml\n");
}

#[test]
fn listing_new_lists_present_rows() {
    let view = ListingNewView {
        state: s("draft created"),
        source: s("local draft"),
        file: s("l.toml"),
        listing_id: s("lst_1"),
        key: None,
        selected_account_id: None,
        seller_pubkey: Some(s("ab12")),
        seller_actor_source: None,
        farm_d_tag: None,
        delivery_method: Some(s("pickup")),
        location_primary: None,
        reason: Some(s("farm missing")),
        actions: Vec::new(),
    };
    assert_eq!(human(CommandView::ListingNew(view)), "listing · draft created\n\ndraft\n  file        l.toml\n  listing id  lst_1\n  seller      ab12\n  delivery    pickup\n\nfarm missing\n");
}

#[test]
fn listing_validate_lists_issues_with_lines() {
    let view = ListingValidateView {
        state: s("invalid"),
        source: s("local draft"),
        file: s("l.toml"),
        valid: false,
        listing_id: None,
        seller_account_id: None,
        seller_pubkey: None,
        seller_actor_source: None,
        farm_d_tag: None,
        issues: vec![
            ListingValidationIssueView { field: s("toml"), message: s("bad key"), line: Some(3) },
            ListingValidationIssueView { field: s("price"), message: s("missing"), line: None },
        ],
        actions: vec![s("edit l.toml")],
    };
    assert_eq!(human(CommandView::ListingValidate(view)), "listing · invalid\n\nvalidation\n  file    l.toml\n  status  needs edits\n\nissues\n  toml  bad key (line 3)\n  price  missing\n\nNext\n  edit l.toml\n");
}

fn manifest() -> ReplicaManifest {
    ReplicaManifest {
        replica_db_version: s("3"),
        backup_format_version: s("1"),
        export_version: s("2"),
        schema_hash: s("abc"),
        table_counts: vec![
            TableCount { name: s("farm"), row_count: 2 },
            TableCount { name: s("trade_product"), row_count: 7 },
            TableCount { name: s("farm"), row_count: 99 },
        ],
    }
}

fn local_config() -> LocalConfig {
    LocalConfig { root: s("/d"), replica_db_path: s("/d/r.db"), backups_dir: s("/d/b"), exports_dir: s("/d/e") }
}

#[test]
fn table_row_count_takes_first_match_or_zero() {
    let m = manifest();
    assert_eq!(table_row_count(&m, "farm"), 2);
    assert_eq!(table_row_count(&m, "nostr_relay"), 0);
    assert_eq!(
        manifest_counts(&m),
        LocalReplicaCountsView { farms: 2, listings: 7, profiles: 0, relays: 0, event_states: 0 }
    );
}

#[test]
fn local_status_renders_ready_replica() {
    let view = local_status_view(&local_config(), Some((&manifest(), LocalReplicaSyncView { expected_count: 4, pending_count: 1 })));
    assert_eq!(view.state, "ready");
    assert_eq!(human(CommandView::LocalStatus(view)), "local · status\n\nlocal\n  replica db             ready\n  path                   /d/r.db\n  local root             /d\n  replica db version     3\n  backup format version  1\n  schema hash            abc\n\nsync\n  expected  4\n  pending   1\n\ncounts\n  farms         2\n  listings      7\n  profiles      0\n  relays        0\n  event states  0\n");
}

#[test]
fn local_status_without_replica_is_unconfigured() {
    let view: LocalStatusView = local_status_view(&local_config(), None);
    assert_eq!(view.state, "unconfigured");
    assert_eq!(view.replica_db, "missing");
    assert_eq!(view.reason.as_deref(), Some("local replica database is not initialized"));
    assert_eq!(view.actions, vec![s("radroots store init")]);
}

#[test]
fn local_export_without_replica_renders_reason_and_init_step() {
    let view: LocalExportView = local_export_view(LocalExportFormat::Ndjson, "/x.ndjson", None);
    assert_eq!(human(CommandView::LocalExport(view)), "local · unconfigured\n\nexport\n  format  ndjson\n  file    /x.ndjson\n\nlocal replica database is not initialized\n\nNext\n  radroots store init\n");
    assert_eq!(export_record_count(LocalExportFormat::Ndjson, 3), 5);
    assert_eq!(export_record_count(LocalExportFormat::Json, 3), 1);
}

#[test]
fn output_path_may_not_be_the_replica_database() {
    match ensure_safe_output_path(&local_config(), "/d/r.db") {
        Err(RuntimeError::Config(message)) => {
            assert_eq!(message, "output path /d/r.db would overwrite the local replica database")
        },
        _ => panic!("expected a config error"),
    }
    assert!(ensure_safe_output_path(&local_config(), "/d/backup.json").is_ok());
    assert!(ensure_safe_output_path(&local_config(), "/d//r.db").is_err());
}

#[test]
fn setup_shows_checklist_and_resolution() {
    let acct = account("acct_1", None, "local", true);
    let view = SetupView {
        state: s("saved"),
        source: s("setup"),
        ready: vec![s("account")],
        needs_attention: Vec::new(),
        next: vec![s("radroots farm init")],
        account_resolution: AccountResolutionView {
            source: s("default_account"),
            resolved_account: Some(acct.clone()),
            default_account: Some(acct),
        },
    };
    assert_eq!(human(CommandView::Setup(view)), "Setup saved\n\nReady\n  account\n\nNext\n  radroots farm init\n\nAccount resolution\n  Source            Default Account\n  Resolved account  acct_1\n  Default account   acct_1\n");
}

#[test]
fn net_status_shows_network_and_resolution() {
    let view = NetStatusView {
        state: s("unconfigured"),
        source: s("net"),
        session: s("none"),
        relay_count: 0,
        publish_policy: s("any"),
        signer_mode: s("local"),
        account_resolution: unresolved(),
        reason: Some(s("no relays")),
        actions: Vec::new(),
    };
    assert_eq!(human(CommandView::NetStatus(view)), "network · unconfigured\n\nnetwork\n  status             unconfigured\n  session            none\n  relays configured  0\n  publish policy     any\n  signer mode        local\n\nAccount resolution\n  Source  Unresolved\n\nno relays\n");
}

#[test]
fn signer_status_shows_binding_without_its_source_line() {
    let view = SignerStatusView {
        state: s("ready"),
        source: s("signer"),
        mode: s("local"),
        signer_account_id: None,
        account_resolution: unresolved(),
        reason: None,
        binding: SignerBindingStatusView {
            capability_id: s("signer"),
            provider_runtime_id: s("local"),
            binding_model: s("direct"),
            state: s("bound"),
            source: s("binding"),
            target_kind: None,
            target: None,
            managed_account_ref: None,
            signer_session_ref: None,
            resolved_signer_session_id: None,
            matched_session_count: Some(2),
            reason: None,
        },
        local: None,
        myc: None,
    };
    assert_eq!(human(CommandView::SignerStatus(view)), "signer · active\n\nsigner\n  mode    local\n  status  ready\n\nAccount resolution\n  Source  Unresolved\n\nsigner binding\n  capability: signer\n  provider: local\n  model: direct\n  status: bound\n  matched session count: 2\n");
}

fn component(state: &str, method: &str, kind: u32) -> FarmPublishComponentView {
    FarmPublishComponentView {
        state: s(state),
        rpc_method: s(method),
        event_kind: kind,
        deduplicated: false,
        job_id: None,
        job_status: None,
        signer_mode: None,
        event_id: None,
        event_addr: None,
        idempotency_key: None,
        reason: None,
    }
}

fn farm_publish(state: &str) -> FarmPublishView {
    let mut profile = component("published", "profile.publish", 0);
    profile.job_id = Some(s("job_1"));
    let mut farm = component("not_submitted", "farm.publish", 30340);
    farm.reason = Some(s("not submitted"));
    FarmPublishView {
        state: s(state),
        source: s("farm config"),
        scope: s("user"),
        path: s("/f.toml"),
        config_present: true,
        dry_run: false,
        selected_account_id: s("acct_1"),
        selected_account_pubkey: s("ab"),
        farm_d_tag: s("farm_1"),
        profile,
        farm,
        missing: Vec::new(),
        reason: None,
        actions: Vec::new(),
    }
}

#[test]
fn farm_publish_shows_both_components() {
    assert_eq!(human(CommandView::FarmPublish(farm_publish("published"))), "farm publish · published\n\nfarm\n  scope           user\n  path            /f.toml\n  account id      acct_1\n  account pubkey  ab\n  farm d_tag      farm_1\n  dry run         no\n\nprofile\n  state       published\n  rpc method  profile.publish\n  event kind  0\n  job id      job_1\n\nfarm record\n  state       not_submitted\n  rpc method  farm.publish\n  event kind  30340\n  reason      not submitted\n");
}

#[test]
fn farm_publish_unconfigured_lists_missing_fields() {
    let mut view = farm_publish("unconfigured");
    view.missing = vec![s("farm name")];
    view.actions = vec![s("radroots farm set name Farm")];
    assert_eq!(human(CommandView::FarmPublish(view)), "Not ready yet\n\nMissing\n  farm name\n\nNext\n  radroots farm set name Farm\n");
}

fn quantity() -> radroots_cli::market_views::FindQuantityView {
    radroots_cli::market_views::FindQuantityView {
        total_amount: 12,
        total_unit: s("egg"),
        label: Some(s(" dozen ")),
        available_amount: Some(-2),
    }
}

fn price() -> radroots_cli::market_views::FindPriceView {
    radroots_cli::market_views::FindPriceView {
        amount_bits: 5.5f64.to_bits(),
        amount_text: s("5.5"),
        currency: s("USD"),
        per_amount: 1,
        per_unit: s("dozen"),
    }
}

fn provenance() -> radroots_cli::market_views::FindResultProvenanceView {
    radroots_cli::market_views::FindResultProvenanceView {
        origin: s("local_replica.trade_product"),
        freshness: s("just now"),
        relay_count: 2,
    }
}

fn result(title: &str, key: &str) -> radroots_cli::market_views::FindResultView {
    radroots_cli::market_views::FindResultView {
        id: s("id"),
        product_key: s(key),
        listing_addr: None,
        title: s(title),
        category: s("eggs"),
        summary: None,
        location_primary: None,
        available: quantity(),
        price: price(),
        provenance: provenance(),
        hyf: None,
    }
}

fn find_view(state: &str, results: Vec<radroots_cli::market_views::FindResultView>) -> radroots_cli::market_views::FindView {
    radroots_cli::market_views::FindView {
        state: s(state),
        source: s("local replica · local first"),
        query: s("egg"),
        count: results.len(),
        relay_count: 2,
        replica_db: s("/d/r.db"),
        freshness: freshness("just now"),
        results,
        hyf: None,
        reason: None,
        actions: Vec::new(),
    }
}

#[test]
fn market_search_shows_cards_and_the_query_as_typed() {
    let mut first = result("Brown eggs", "eggs");
    first.listing_addr = Some(s("30402:ab:eggs"));
    first.location_primary = Some(s("  "));
    let mut second = result("Duck eggs", "duck");
    second.location_primary = Some(s("Farm"));
    second.available = radroots_cli::market_views::FindQuantityView {
        total_amount: 6,
        total_unit: s("egg"),
        label: None,
        available_amount: None,
    };
    second.price = radroots_cli::market_views::FindPriceView {
        amount_bits: 7.0f64.to_bits(),
        amount_text: s("7"),
        currency: s("USD"),
        per_amount: 2,
        per_unit: s("egg"),
    };
    let mut view = find_view("ready", vec![first, second]);
    view.hyf = Some(radroots_cli::market_views::FindHyfView {
        state: s("query_rewrite_applied"),
        source: s("hyf query_rewrite · local first"),
        rewritten_query: s("eggs"),
        query_terms: vec![s("eggs")],
    });
    view.actions = vec![s("radroots market view eggs")];
    assert_eq!(human(CommandView::MarketSearch(view.clone())), "2 listings for eggs\n\nBrown eggs\n  Key              eggs\n  Listing address  30402:ab:eggs\n  Offer            dozen\n  Price            5.5 USD/1 dozen\n  Stock            -2  dozen\n\nDuck eggs\n  Key    duck\n  Place  Farm\n  Offer  6 egg\n  Price  7 USD/2 egg\n  Stock  6 egg\n\nAlso searched for\n  egg\n\nNext\n  radroots market view eggs\n");
    assert_eq!(quiet(CommandView::Find(view)), "eggs\nduck\n");
}

#[test]
fn market_search_without_results_says_none_found() {
    let view = find_view("empty", Vec::new());
    assert_eq!(human(CommandView::Find(view.clone())), "No listings found\n");
    assert_eq!(quiet(CommandView::Find(view)), "No listings found\n");
}

fn listing_get(state: &str) -> radroots_cli::market_views::ListingGetView {
    radroots_cli::market_views::ListingGetView {
        state: s(state),
        source: s("local replica · local first"),
        lookup: s("eggs"),
        readiness: radroots_cli::market_views::MarketReadinessView { state: s("ready"), reason: None },
        listing_id: None,
        product_key: None,
        listing_addr: None,
        primary_bin_id: None,
        title: None,
        category: None,
        description: None,
        location_primary: None,
        available: None,
        price: None,
        provenance: provenance(),
        reason: None,
        actions: Vec::new(),
    }
}

#[test]
fn market_view_lists_listing_rows_about_and_next() {
    let mut view = listing_get("ready");
    view.product_key = Some(s("eggs"));
    view.category = Some(s("dairy"));
    view.available = Some(quantity());
    view.price = Some(price());
    view.description = Some(s("Fresh"));
    view.actions = vec![s("radroots order create")];
    assert_eq!(human(CommandView::MarketView(view)), "Listing\n\nListing\n  Key       eggs\n  Category  dairy\n  Offer     dozen\n  Stock     -2  dozen\n  Price     5.5 USD/1 dozen\n\nAbout\n  Fresh\n\nNext\n  radroots order create\n");
}

#[test]
fn listing_get_of_missing_listing_says_not_found() {
    let mut view = listing_get("missing");
    view.reason = Some(s("listing `eggs` is not available in the local replica"));
    assert_eq!(
        human(CommandView::ListingGet(view)),
        "Not found\n\nlisting `eggs` is not available in the local replica\n"
    );
}

fn row(key: &str) -> radroots_cli::find::TradeProductRow {
    radroots_cli::find::TradeProductRow {
        id: s("id_1"),
        key: s(key),
        listing_addr: Some(s("  30402:ab:eggs  ")),
        title: s("Brown eggs"),
        category: s("eggs"),
        summary: s("   "),
        location_primary: None,
        qty_amt: 12,
        qty_unit: s("egg"),
        qty_label: Some(s(" dozen ")),
        qty_avail: Some(3),
        price: price(),
    }
}

#[test]
fn find_view_from_rows_maps_rows_and_trims_text() {
    let rewrite = radroots_cli::find::AppliedQueryRewrite { rewritten_query: s("eggs"), query_terms: vec![s("eggs")] };
    let view = radroots_cli::find::find_view_from_rows(
        &vec![s("Egg")],
        2,
        "/d/r.db",
        freshness("just now"),
        Some(rewrite),
        &vec![row("eggs")],
    );
    assert_eq!(view.state, "ready");
    assert_eq!(view.count, 1);
    assert_eq!(view.query, "Egg");
    let r = &view.results[0];
    assert_eq!(r.listing_addr.as_deref(), Some("30402:ab:eggs"));
    assert_eq!(r.summary, None);
    assert_eq!(r.available.label.as_deref(), Some("dozen"));
    assert_eq!(r.provenance.origin, "local_replica.trade_product");
    assert_eq!(r.provenance.freshness, "just now");
    assert_eq!(r.hyf.as_ref().map(|h| h.rewritten_query.as_str()), Some("eggs"));
    assert_eq!(view.hyf.as_ref().map(|h| h.source.as_str()), Some("hyf query_rewrite · local first"));
}

#[test]
fn find_view_without_rows_is_empty_and_suggests_sync_when_never_synced() {
    let mut never = freshness("never synced");
    never.state = s("never");
    let view = radroots_cli::find::find_view_from_rows(&vec![s("goat"), s("milk")], 0, "/d/r.db", never, None, &Vec::new());
    assert_eq!(view.state, "empty");
    assert_eq!(view.reason.as_deref(), Some("no local market results matched `goat milk`"));
    assert_eq!(view.actions, vec![s("radroots sync status")]);
    let view = radroots_cli::find::find_view_from_rows(&vec![s("goat")], 0, "/d/r.db", freshness("now"), None, &Vec::new());
    assert!(view.actions.is_empty());
}

#[test]
fn find_without_replica_is_unconfigured() {
    let view = radroots_cli::find::unconfigured_find_view(&vec![s("eggs")], 3, "/d/r.db");
    assert_eq!(view.state, "unconfigured");
    assert_eq!(view.freshness.display, "never synced");
    assert_eq!(view.actions, vec![s("radroots local init")]);
    assert_eq!(
        human(CommandView::Find(view)),
        "Not ready yet\n\nMissing\n  Local market data\n\nNext\n  radroots local init\n"
    );
}

#[test]
fn search_terms_prefer_the_rewrite() {
    let typed = vec![s(" Eggs "), s(" ")];
    assert_eq!(radroots_cli::find::search_terms(&typed, &None), vec![s("eggs")]);
    let rewrite = radroots_cli::find::AppliedQueryRewrite { rewritten_query: s("duck eggs"), query_terms: vec![s("duck"), s("eggs")] };
    assert_eq!(radroots_cli::find::search_terms(&typed, &Some(rewrite)), vec![s("duck"), s("eggs")]);
}

#[test]
fn listing_get_view_covers_missing_replica_missing_row_and_found_row() {
    let view = radroots_cli::find::listing_get_view("eggs", provenance(), None);
    assert_eq!(view.state, "unconfigured");
    assert_eq!(view.readiness.state, "unavailable");
    assert_eq!(view.readiness.reason.as_deref(), Some("local_replica_not_initialized"));
    assert_eq!(view.actions, vec![s("radroots store inspect")]);
    let view = radroots_cli::find::listing_get_view("eggs", provenance(), Some(None));
    assert_eq!(view.state, "missing");
    assert_eq!(view.readiness.reason.as_deref(), Some("market_listing_missing"));
    assert_eq!(view.reason.as_deref(), Some("listing `eggs` is not available in the local replica"));
    assert_eq!(view.actions, vec![s("radroots sync pull"), s("radroots market search eggs")]);
    let found = row("eggs");
    let bin = Some(s("  bin_1 "));
    let ready = radroots_cli::market_views::MarketReadinessView { state: s("ready"), reason: None };
    let view = radroots_cli::find::listing_get_view("eggs", provenance(), Some(Some((&found, &bin, ready.clone()))));
    assert_eq!(view.state, "ready");
    assert_eq!(view.readiness, ready);
    assert_eq!(view.primary_bin_id.as_deref(), Some("bin_1"));
    assert_eq!(view.listing_addr.as_deref(), Some("30402:ab:eggs"));
    assert_eq!(view.description, None);
    assert_eq!(view.available.as_ref().and_then(|q| q.label.as_deref()), Some("dozen"));
    assert_eq!(view.price, Some(price()));
    assert!(view.actions.is_empty());
}

#[test]
fn account_resolution_prefers_selector_then_first_default() {
    let accounts = vec![
        account("a1", None, "local", false),
        account("a2", None, "local", true),
        account("a3", None, "local", true),
    ];
    let v = account_resolution(&accounts, None).ok().unwrap();
    assert_eq!(v.source, "default_account");
    assert_eq!(v.resolved_account.as_ref().map(|a| a.id.as_str()), Some("a2"));
    assert_eq!(v.default_account.as_ref().map(|a| a.id.as_str()), Some("a2"));
    let v = account_resolution(&accounts, Some(Ok(account("a1", None, "local", false)))).ok().unwrap();
    assert_eq!(v.source, "invocation_override");
    assert_eq!(v.resolved_account.as_ref().map(|a| a.id.as_str()), Some("a1"));
    assert_eq!(v.default_account.as_ref().map(|a| a.id.as_str()), Some("a2"));
    let none = account_resolution(&vec![account("a1", None, "local", false)], None).ok().unwrap();
    assert_eq!(none.source, "none");
    assert!(none.resolved_account.is_none());
    let failed = account_resolution(&accounts, Some(Err(RuntimeError::Config(s("unknown account `x`")))));
    assert!(matches!(failed, Err(RuntimeError::Config(m)) if m == "unknown account `x`"));
}

#[test]
fn finalize_cleans_arbitrary_text_at_normal_verbosity() {
    let rule = "─".repeat(52);
    let rendered = format!("\n\nHead\n{rule}\n  source: x\nprovenance: y\nreason: why\n\n\n\nactions\n  a   \n\n");
    let output = CommandOutput::success(CommandView::Find(find_view("empty", Vec::new())));
    assert_eq!(
        radroots_cli::human::finalize_human_output(&output, rendered.as_str(), Verbosity::Normal, "{}"),
        "Head\nwhy\n\nNext\n  a\n"
    );
    assert_eq!(radroots_cli::human::finalize_human_output(&output, "\n \n", Verbosity::Quiet, ""), "");
}
