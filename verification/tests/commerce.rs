use radroots_cli::config::Verbosity;
use radroots_cli::human::render_human_with_config;
use radroots_cli::order::{
    OrderCancelView, OrderDraftItemView, OrderGetView, OrderIssueView, OrderJobView, OrderListView, OrderNewView,
    OrderSubmitView, OrderSummaryView,
};
use radroots_cli::output::{CommandOutput, CommandView};
use radroots_cli::sell::SellMutationView;

fn sell_view(state: &str, operation: &str) -> SellMutationView {
    SellMutationView {
        state: state.to_owned(),
        operation: operation.to_owned(),
        source: "sdk listing publish".to_owned(),
        file: "drafts/eggs.toml".to_owned(),
        product_key: Some("eggs".to_owned()),
        listing_addr: "30402:ab:eggs".to_owned(),
        publish_mode: Some("runtime_bridge".to_owned()),
        job_status: None,
        job_id: None,
        event_id: None,
        reason: None,
        actions: Vec::new(),
    }
}

fn order_view(state: &str) -> OrderSubmitView {
    OrderSubmitView {
        state: state.to_owned(),
        source: "daemon bridge · durable write plane".to_owned(),
        order_id: "ord_1".to_owned(),
        listing_lookup: Some("  ".to_owned()),
        listing_addr: Some("30402:ab:eggs".to_owned()),
        buyer_account_id: Some("acct_buyer".to_owned()),
        buyer_pubkey: None,
        signer_mode: Some("local".to_owned()),
        requested_signer_session_id: None,
        idempotency_key: None,
        job: None,
        issues: Vec::new(),
        reason: None,
        actions: Vec::new(),
    }
}

fn job(id: &str, state: &str) -> OrderJobView {
    OrderJobView {
        job_id: id.to_owned(),
        state: state.to_owned(),
        command: None,
        signer_mode: None,
        signer_session_id: None,
        requested_signer_session_id: None,
        event_id: None,
        event_addr: None,
        reason: None,
    }
}

fn human(view: CommandView, verbosity: Verbosity) -> String {
    render_human_with_config(&CommandOutput::success(view), verbosity, "")
}

#[test]
fn sell_dry_run_describes_the_would_be_change() {
    let rendered = human(CommandView::SellMutation(sell_view("dry_run", "publish")), Verbosity::Normal);
    assert_eq!(
        rendered,
        "Dry run only\n\nListing would be published.\n\nListing\n  File          drafts/eggs.toml\n  Listing       eggs\n  Address       30402:ab:eggs\n  Publish mode  Runtime bridge\n\nNothing was written.\n"
    );
    let pause = human(CommandView::SellMutation(sell_view("dry_run", "pause")), Verbosity::Normal);
    assert!(pause.contains("Listing would be paused.\n"));
    assert!(!pause.contains("Publish mode"));
}

#[test]
fn sell_completion_lists_job_rows() {
    let mut view = sell_view("published", "publish");
    view.job_status = Some("accepted".to_owned());
    view.job_id = Some("job_1".to_owned());
    view.actions = vec!["radroots job get job_1".to_owned()];
    let rendered = human(CommandView::SellMutation(view), Verbosity::Normal);
    assert_eq!(
        rendered,
        "Listing published\n\nListing\n  File          drafts/eggs.toml\n  Listing       eggs\n  Address       30402:ab:eggs\n  Publish mode  Runtime bridge\n\nJob\n  State  accepted\n  Job    job_1\n\nNext\n  radroots job get job_1\n"
    );
}

#[test]
fn sell_failures_show_reason_and_next_steps() {
    let mut view = sell_view("unavailable", "update");
    view.reason = Some("daemon unreachable".to_owned());
    view.actions = vec!["radroots rpc status".to_owned()];
    assert_eq!(
        human(CommandView::SellMutation(view), Verbosity::Normal),
        "Unavailable right now\n\ndaemon unreachable\n\nNext\n  radroots rpc status\n"
    );
}

#[test]
fn order_submit_renders_order_and_job() {
    let mut view = order_view("submitted");
    view.job = Some(job("job_9", "accepted_by_bridge"));
    let rendered = human(CommandView::OrderSubmit(view.clone()), Verbosity::Normal);
    assert_eq!(
        rendered,
        "Order submitted\n\nOrder\n  ID       ord_1\n  Listing  30402:ab:eggs\n  Buyer    acct_buyer\n  State    Submitted\n\nJob\n  Job    job_9\n  State  Accepted By Bridge\n"
    );
    assert_eq!(human(CommandView::OrderSubmit(view.clone()), Verbosity::Quiet), "Order submitted: ord_1\n");
    let verbose = human(CommandView::OrderSubmit(view), Verbosity::Verbose);
    assert!(verbose.ends_with("Details\n  Source       daemon bridge · durable write plane\n  Signer mode  local\n"));
}

#[test]
fn order_submit_lists_issues_when_unconfigured() {
    let mut view = order_view("unconfigured");
    view.reason = Some("order draft is incomplete".to_owned());
    view.issues = vec![OrderIssueView { field: "items".to_owned(), message: "add at least one item".to_owned() }];
    view.actions = vec!["radroots order new".to_owned()];
    assert_eq!(
        human(CommandView::OrderSubmit(view.clone()), Verbosity::Normal),
        "Not ready yet\n\norder draft is incomplete\n\nNeeds attention\n  items  add at least one item\n\nNext\n  radroots order new\n"
    );
    let quiet = human(CommandView::OrderSubmit(view), Verbosity::Quiet);
    assert!(quiet.starts_with("Not ready yet\n"));
}

#[test]
fn order_submit_dry_run_writes_nothing() {
    let rendered = human(CommandView::OrderSubmit(order_view("dry_run")), Verbosity::Normal);
    assert_eq!(
        rendered,
        "Dry run only\n\nOrder would be submitted.\n\nOrder\n  ID       ord_1\n  Listing  30402:ab:eggs\n  Buyer    acct_buyer\n\nNothing was written.\n"
    );
}

#[test]
fn order_new_lists_draft_items_issues_and_next_step() {
    let view = OrderNewView {
        source: "local order draft".to_owned(),
        order_id: "ord_1".to_owned(),
        file: "orders/ord_1.toml".to_owned(),
        ready_for_submit: false,
        listing_lookup: Some("eggs".to_owned()),
        listing_addr: None,
        buyer_account_id: Some("acct_buyer".to_owned()),
        buyer_pubkey: None,
        seller_pubkey: None,
        items: vec![
            OrderDraftItemView { bin_id: "bin_a".to_owned(), bin_count: 3 },
            OrderDraftItemView { bin_id: "bin_long".to_owned(), bin_count: 12 },
        ],
        issues: vec![OrderIssueView { field: "listing".to_owned(), message: "listing is missing".to_owned() }],
        actions: vec!["radroots order submit ord_1".to_owned()],
    };
    assert_eq!(
        human(CommandView::OrderNew(view), Verbosity::Normal),
        "order · draft created\n\ndraft\n  order id          ord_1\n  file              orders/ord_1.toml\n  ready for submit  no\n  listing           eggs\n  buyer account     acct_buyer\n\nbin       qty\nbin_a     3\nbin_long  12\n\nissues\n  listing  listing is missing\n\nNext\n  radroots order submit ord_1\n"
    );
}

fn summary(id: &str, state: &str, ready: bool, updated: u64) -> OrderSummaryView {
    OrderSummaryView {
        id: id.to_owned(),
        state: state.to_owned(),
        ready_for_submit: ready,
        listing_lookup: None,
        listing_addr: None,
        job: None,
        updated_at_unix: updated,
    }
}

#[test]
fn order_list_tabulates_drafts_with_listing_fallback() {
    let mut first = summary("ord_1", "draft", false, 0);
    first.listing_addr = Some("30402:ab:eggs".to_owned());
    let mut second = summary("ord_22", "submitted", true, 86400);
    second.listing_lookup = Some("eggs".to_owned());
    second.listing_addr = Some("30402:ab:other".to_owned());
    second.job = Some(job("job_1", "accepted"));
    let view = OrderListView {
        state: "ready".to_owned(),
        source: "local order drafts".to_owned(),
        count: 2,
        orders: vec![first, second],
        actions: Vec::new(),
    };
    assert_eq!(
        human(CommandView::OrderList(view), Verbosity::Normal),
        "orders · 2 local drafts\n\norder   listing        state      ready  job       updated\nord_1   30402:ab:eggs  draft      no               1970-01-01 00:00:00 UTC\nord_22  eggs           submitted  yes    accepted  1970-01-02 00:00:00 UTC\n"
    );
}

#[test]
fn order_list_without_drafts_says_so() {
    let view = OrderListView {
        state: "empty".to_owned(),
        source: "local order drafts".to_owned(),
        count: 0,
        orders: Vec::new(),
        actions: vec!["radroots order create".to_owned()],
    };
    assert_eq!(
        human(CommandView::OrderList(view), Verbosity::Normal),
        "orders · no local drafts\n\nno order drafts found\n\nNext\n  radroots order create\n"
    );
}

#[test]
fn order_cancel_of_unsubmitted_order_gives_reason() {
    let view = OrderCancelView {
        state: "not_submitted".to_owned(),
        source: "daemon bridge".to_owned(),
        lookup: "ord_1".to_owned(),
        order_id: Some("ord_1".to_owned()),
        job: None,
        reason: Some("order has no job".to_owned()),
        actions: Vec::new(),
    };
    assert_eq!(
        human(CommandView::OrderCancel(view), Verbosity::Normal),
        "order · ord_1 not submitted\n\norder\n  lookup    ord_1\n  order id  ord_1\n\norder has no job\n"
    );
}

fn order_get(state: &str, lookup: &str) -> OrderGetView {
    OrderGetView {
        state: state.to_owned(),
        source: "local order draft".to_owned(),
        lookup: lookup.to_owned(),
        order_id: None,
        file: None,
        ready_for_submit: false,
        listing_lookup: None,
        listing_addr: None,
        buyer_account_id: None,
        buyer_pubkey: None,
        seller_pubkey: None,
        updated_at_unix: None,
        items: Vec::new(),
        job: None,
        workflow: None,
        issues: Vec::new(),
        reason: None,
        actions: Vec::new(),
    }
}

#[test]
fn order_get_missing_shows_reason_file_and_next_step() {
    let mut view = order_get("missing", "ord_9");
    view.reason = Some("no draft named ord_9".to_owned());
    view.file = Some("orders/ord_9.toml".to_owned());
    view.actions = vec!["radroots order create".to_owned()];
    view.ready_for_submit = true;
    assert_eq!(
        human(CommandView::OrderGet(view), Verbosity::Normal),
        "order · ord_9 missing\n\nno draft named ord_9\n\nfile: orders/ord_9.toml\n\nNext\n  radroots order create\n"
    );
}

#[test]
fn order_get_ready_shows_order_updated_items_and_job() {
    let mut view = order_get("ready", "ord_1");
    view.order_id = Some("ord_1".to_owned());
    view.ready_for_submit = true;
    view.updated_at_unix = Some(100);
    let mut j = job("job_9", "accepted");
    j.command = Some("order.submit".to_owned());
    j.reason = Some("waiting".to_owned());
    view.job = Some(j);
    assert_eq!(
        human(CommandView::OrderGet(view), Verbosity::Normal),
        "order · ord_1 ready\n\norder\n  order id          ord_1\n  ready for submit  yes\n\nupdated: 1970-01-01 00:01:40 UTC\nitems: no line items yet\n\njob\n  job id   job_9\n  state    accepted\n  command  order.submit\n\njob reason: waiting\n"
    );
}
