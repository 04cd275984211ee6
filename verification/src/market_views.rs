use vstd::prelude::*;

use crate::bindings::opt_str_view;
use crate::farm_config::{opt_non_blank, opt_non_blank_str};
use crate::find::{join_strings, join_with};
use crate::render::{
    field_rows_string, item_section, next_section, nl, pairs_text, push_row, pushed_row, render_field_rows,
    render_item_section, render_next_section, render_pairs, row, rows_view, write_line,
};
use crate::render_views::count_line;
use crate::sell::{notice_text, render_notice};
use crate::sync_views::SyncFreshnessView;
use crate::text::{
    append_str, concat2, decimal, decimal_string, owned, push_char, signed_decimal, signed_decimal_string, str_eq,
    strings_view, trim, trim_string,
};

verus! {

/// How much of a listing there is: the total in its unit, an optional label, and how much is
/// still available when known.
#[derive(Debug, Clone, PartialEq, Eq)]
pub struct FindQuantityView {
    pub total_amount: i64,
    pub total_unit: String,
    pub label: Option<String>,
    pub available_amount: Option<i64>,
}

/// A listing's price: an amount of a currency per a quantity of a unit. The amount is a
/// floating-point number; it is held as the bits of its `f64` and as the text shown for it, with
/// at most two decimals and no trailing zeros.
#[derive(Debug, Clone, PartialEq, Eq)]
pub struct FindPriceView {
    pub amount_bits: u64,
    pub amount_text: String,
    pub currency: String,
    pub per_amount: u32,
    pub per_unit: String,
}

/// Where a search result came from and how fresh that source is.
#[derive(Debug, Clone, PartialEq, Eq)]
pub struct FindResultProvenanceView {
    pub origin: String,
    pub freshness: String,
    pub relay_count: usize,
}

/// The query rewrite a result was found under.
#[derive(Debug, Clone, PartialEq, Eq)]
pub struct FindResultHyfView {
    pub state: String,
    pub rewritten_query: String,
    pub query_terms: Vec<String>,
}

/// The query rewrite a search applied.
#[derive(Debug, Clone, PartialEq, Eq)]
pub struct FindHyfView {
    pub state: String,
    pub source: String,
    pub rewritten_query: String,
    pub query_terms: Vec<String>,
}

/// One listing a search found.
#[derive(Debug, Clone, PartialEq, Eq)]
pub struct FindResultView {
    pub id: String,
    pub product_key: String,
    pub listing_addr: Option<String>,
    pub title: String,
    pub category: String,
    pub summary: Option<String>,
    pub location_primary: Option<String>,
    pub available: FindQuantityView,
    pub price: FindPriceView,
    pub provenance: FindResultProvenanceView,
    pub hyf: Option<FindResultHyfView>,
}

/// What `find` and `market search` report.
#[derive(Debug, Clone, PartialEq, Eq)]
pub struct FindView {
    pub state: String,
    pub source: String,
    pub query: String,
    pub count: usize,
    pub relay_count: usize,
    pub replica_db: String,
    pub freshness: SyncFreshnessView,
    pub results: Vec<FindResultView>,
    pub hyf: Option<FindHyfView>,
    pub reason: Option<String>,
    pub actions: Vec<String>,
}

/// Whether a listing can be traded on the market: its state, and the reason when it cannot be.
#[derive(Debug, Clone, PartialEq, Eq)]
pub struct MarketReadinessView {
    pub state: String,
    pub reason: Option<String>,
}

impl MarketReadinessView {
    /// A listing that cannot be traded, for `reason`.
    pub fn unavailable(reason: &str) -> (r: MarketReadinessView)
        ensures
            r.state@ == "unavailable"@,
            opt_str_view(r.reason) == Some(reason@),
    {
        MarketReadinessView { state: owned("unavailable"), reason: Some(owned(reason)) }
    }
}

/// What `listing get` and `market view` report.
#[derive(Debug, Clone, PartialEq, Eq)]
pub struct ListingGetView {
    pub state: String,
    pub source: String,
    pub lookup: String,
    pub readiness: MarketReadinessView,
    pub listing_id: Option<String>,
    pub product_key: Option<String>,
    pub listing_addr: Option<String>,
    pub primary_bin_id: Option<String>,
    pub title: Option<String>,
    pub category: Option<String>,
    pub description: Option<String>,
    pub location_primary: Option<String>,
    pub available: Option<FindQuantityView>,
    pub price: Option<FindPriceView>,
    pub provenance: FindResultProvenanceView,
    pub reason: Option<String>,
    pub actions: Vec<String>,
}

/// The offer line of a quantity: its label when not blank, else the total and its unit.
pub open spec fn quantity_offer(q: FindQuantityView) -> Option<Seq<char>> {
    match opt_non_blank(opt_str_view(q.label)) {
        Some(l) => Some(l),
        None => Some(signed_decimal(q.total_amount as int) + " "@ + q.total_unit@),
    }
}

/// The offer line of a quantity.
pub fn quantity_offer_text(q: &FindQuantityView) -> (r: Option<String>)
    ensures
        opt_str_view(r) == quantity_offer(*q),
{
    match opt_non_blank_str(&q.label) {
        Some(l) => Some(l),
        None => {
            let amount = signed_decimal_string(q.total_amount);
            Some(crate::text::concat3(amount.as_str(), " ", q.total_unit.as_str()))
        },
    }
}

/// The stock line of a quantity: what is available (else the total) and the label (else the
/// unit).
pub open spec fn available_text(q: FindQuantityView) -> Seq<char> {
    signed_decimal(
        match q.available_amount {
            Some(a) => a as int,
            None => q.total_amount as int,
        },
    ) + " "@ + match opt_str_view(q.label) {
        Some(l) => l,
        None => q.total_unit@,
    }
}

/// The stock line of a quantity.
pub fn format_available(q: &FindQuantityView) -> (r: String)
    ensures
        r@ == available_text(*q),
{
    let amount = match q.available_amount {
        Some(a) => a,
        None => q.total_amount,
    };
    let mut r = signed_decimal_string(amount);
    append_str(&mut r, " ");
    match &q.label {
        Some(l) => append_str(&mut r, l.as_str()),
        None => append_str(&mut r, q.total_unit.as_str()),
    }
    r
}

/// The price line: the amount and currency per the quantity and unit.
pub open spec fn price_text(p: FindPriceView) -> Seq<char> {
    p.amount_text@ + " "@ + p.currency@ + "/"@ + decimal(p.per_amount as nat) + " "@ + p.per_unit@
}

/// The price line.
pub fn format_price(p: &FindPriceView) -> (r: String)
    ensures
        r@ == price_text(*p),
{
    let mut r = p.amount_text.clone();
    append_str(&mut r, " ");
    append_str(&mut r, p.currency.as_str());
    append_str(&mut r, "/");
    let per = decimal_string(p.per_amount as u128);
    append_str(&mut r, per.as_str());
    append_str(&mut r, " ");
    append_str(&mut r, p.per_unit.as_str());
    r
}

/// The rows of one search result card.
pub open spec fn card_rows(r: FindResultView) -> Seq<(Seq<char>, Seq<char>)> {
    let r1 = pushed_row(seq![("Key"@, r.product_key@)], "Listing address"@, opt_non_blank(opt_str_view(r.listing_addr)));
    let r2 = pushed_row(r1, "Place"@, opt_non_blank(opt_str_view(r.location_primary)));
    let r3 = pushed_row(r2, "Offer"@, quantity_offer(r.available));
    r3 + seq![("Price"@, price_text(r.price)), ("Stock"@, available_text(r.available))]
}

/// One search result card: its title and rows.
pub open spec fn card_text(r: FindResultView) -> Seq<char> {
    nl(r.title@) + field_rows_string(card_rows(r)).push('\n')
}

/// Appends one search result card.
pub fn render_market_search_card(out: &mut String, result: &FindResultView)
    ensures
        final(out)@ == old(out)@ + card_text(*result),
{
    let ghost start = out@;
    write_line(out, result.title.as_str());
    let mut rows: Vec<(String, String)> = Vec::new();
    rows.push(row("Key", result.product_key.clone()));
    proof {
        assert(rows_view(rows@) =~= seq![("Key"@, result.product_key@)]);
    }
    push_row(&mut rows, "Listing address", opt_non_blank_str(&result.listing_addr));
    push_row(&mut rows, "Place", opt_non_blank_str(&result.location_primary));
    push_row(&mut rows, "Offer", quantity_offer_text(&result.available));
    let ghost pushed = rows_view(rows@);
    rows.push(row("Price", format_price(&result.price)));
    rows.push(row("Stock", format_available(&result.available)));
    proof {
        assert(rows_view(rows@) =~= card_rows(*result));
    }
    render_field_rows(out, &rows);
    proof {
        assert(out@ =~= start + card_text(*result));
    }
}

/// The cards of the results, a blank line between two cards.
pub open spec fn cards_text(rs: Seq<FindResultView>) -> Seq<char>
    decreases rs.len(),
{
    if rs.len() == 0 {
        seq![]
    } else if rs.len() == 1 {
        card_text(rs[0])
    } else {
        cards_text(rs.drop_last()) + seq!['\n'] + card_text(rs.last())
    }
}

/// The query a search ran: the rewritten one when a rewrite was applied.
pub open spec fn searched_query(v: FindView) -> Seq<char> {
    match v.hyf {
        Some(h) => h.rewritten_query@,
        None => v.query@,
    }
}

/// The headline of a search with results.
pub open spec fn market_search_headline(v: FindView) -> Seq<char> {
    count_line(v.count as nat, "listing"@) + " for "@ + searched_query(v)
}

fn market_search_headline_exec(v: &FindView) -> (r: String)
    ensures
        r@ == market_search_headline(*v),
{
    let mut r = crate::render_views::count_text(v.count, "listing");
    append_str(&mut r, " for ");
    match &v.hyf {
        Some(h) => append_str(&mut r, h.rewritten_query.as_str()),
        None => append_str(&mut r, v.query.as_str()),
    }
    r
}

/// Whether the search also shows the query as typed: when a rewrite changed it.
pub open spec fn shows_original_query(v: FindView) -> bool {
    match v.hyf {
        Some(h) => trim(h.rewritten_query@) != trim(v.query@),
        None => false,
    }
}

/// What `find` and `market search` write.
pub open spec fn market_search_text(v: FindView) -> Seq<char> {
    let actions = strings_view(v.actions@);
    if v.state@ == "unconfigured"@ {
        nl("Not ready yet"@) + seq!['\n'] + item_section("Missing"@, seq!["Local market data"@]) + next_section(actions)
    } else if v.state@ == "empty"@ {
        nl("No listings found"@) + next_section(actions)
    } else {
        nl(market_search_headline(v)) + seq!['\n'] + cards_text(v.results@) + (if shows_original_query(v) {
            seq!['\n'] + item_section("Also searched for"@, seq![v.query@])
        } else {
            seq![]
        }) + next_section(actions)
    }
}

fn render_cards(out: &mut String, results: &Vec<FindResultView>)
    ensures
        final(out)@ == old(out)@ + cards_text(results@),
{
    let ghost start = out@;
    for i in 0..results.len()
        invariant
            out@ == start + cards_text(results@.take(i as int)),
    {
        proof {
            assert(results@.take(i + 1).drop_last() =~= results@.take(i as int));
        }
        if i > 0 {
            push_char(out, '\n');
        }
        render_market_search_card(out, &results[i]);
        proof {
            if i == 0 {
                assert(results@.take(1) =~= seq![results@[0]]);
            }
        }
    }
    proof {
        assert(results@.take(results@.len() as int) =~= results@);
    }
}

fn shows_original_query_exec(v: &FindView) -> (r: bool)
    ensures
        r == shows_original_query(*v),
{
    match &v.hyf {
        Some(h) => {
            let a = trim_string(h.rewritten_query.as_str());
            let b = trim_string(v.query.as_str());
            !str_eq(a.as_str(), b.as_str())
        },
        None => false,
    }
}

/// Appends what `find` and `market search` write.
pub fn render_market_search(out: &mut String, view: &FindView)
    ensures
        final(out)@ == old(out)@ + market_search_text(*view),
{
    let ghost start = out@;
    if str_eq(view.state.as_str(), "unconfigured") {
        write_line(out, "Not ready yet");
        push_char(out, '\n');
        let mut missing: Vec<String> = Vec::new();
        missing.push(owned("Local market data"));
        proof {
            assert(strings_view(missing@) =~= seq!["Local market data"@]);
        }
        render_item_section(out, "Missing", &missing);
        render_next_section(out, &view.actions);
    } else if str_eq(view.state.as_str(), "empty") {
        write_line(out, "No listings found");
        render_next_section(out, &view.actions);
    } else {
        let headline = market_search_headline_exec(view);
        write_line(out, headline.as_str());
        push_char(out, '\n');
        render_cards(out, &view.results);
        if shows_original_query_exec(view) {
            push_char(out, '\n');
            let mut typed: Vec<String> = Vec::new();
            typed.push(view.query.clone());
            proof {
                assert(strings_view(typed@) =~= seq![view.query@]);
            }
            render_item_section(out, "Also searched for", &typed);
        }
        render_next_section(out, &view.actions);
    }
    proof {
        assert(out@ =~= start + market_search_text(*view));
    }
}

/// The rows of the `Listing` pairs of `market view`.
pub open spec fn market_view_rows(v: ListingGetView) -> Seq<(Seq<char>, Seq<char>)> {
    let r1 = pushed_row(seq![], "Key"@, opt_non_blank(opt_str_view(v.product_key)));
    let r2 = pushed_row(r1, "Listing address"@, opt_non_blank(opt_str_view(v.listing_addr)));
    let r3 = pushed_row(r2, "Category"@, opt_non_blank(opt_str_view(v.category)));
    let r4 = pushed_row(r3, "Place"@, opt_non_blank(opt_str_view(v.location_primary)));
    let r5 = match v.available {
        Some(a) => pushed_row(r4, "Offer"@, quantity_offer(a)).push(("Stock"@, available_text(a))),
        None => r4,
    };
    match v.price {
        Some(p) => r5.push(("Price"@, price_text(p))),
        None => r5,
    }
}

/// What `market view` writes for a listing it found.
pub open spec fn market_listing_text(v: ListingGetView) -> Seq<char> {
    let actions = strings_view(v.actions@);
    nl(
        match opt_str_view(v.title) {
            Some(t) => t,
            None => "Listing"@,
        },
    ) + seq!['\n'] + pairs_text("Listing"@, market_view_rows(v)) + match opt_str_view(v.description) {
        Some(d) => item_section("About"@, seq![d]) + next_section(actions),
        None => (if actions.len() > 0 {
            item_section("Next"@, actions)
        } else {
            seq![]
        }),
    }
}

/// What `listing get` and `market view` write.
pub open spec fn market_view_text(v: ListingGetView) -> Seq<char> {
    let actions = strings_view(v.actions@);
    if v.state@ == "unconfigured"@ {
        notice_text("Not ready yet"@, opt_str_view(v.reason), actions)
    } else if v.state@ == "missing"@ {
        notice_text("Not found"@, opt_str_view(v.reason), actions)
    } else {
        market_listing_text(v)
    }
}

fn market_view_rows_exec(view: &ListingGetView) -> (r: Vec<(String, String)>)
    ensures
        rows_view(r@) == market_view_rows(*view),
{
    let mut rows: Vec<(String, String)> = Vec::new();
    proof {
        assert(rows_view(rows@) =~= seq![]);
    }
    push_row(&mut rows, "Key", opt_non_blank_str(&view.product_key));
    push_row(&mut rows, "Listing address", opt_non_blank_str(&view.listing_addr));
    push_row(&mut rows, "Category", opt_non_blank_str(&view.category));
    push_row(&mut rows, "Place", opt_non_blank_str(&view.location_primary));
    if let Some(a) = &view.available {
        push_row(&mut rows, "Offer", quantity_offer_text(a));
        let ghost before = rows_view(rows@);
        rows.push(row("Stock", format_available(a)));
        proof {
            assert(rows_view(rows@) =~= before.push(("Stock"@, available_text(*a))));
        }
    }
    if let Some(p) = &view.price {
        let ghost before = rows_view(rows@);
        rows.push(row("Price", format_price(p)));
        proof {
            assert(rows_view(rows@) =~= before.push(("Price"@, price_text(*p))));
        }
    }
    rows
}

fn render_market_listing(out: &mut String, view: &ListingGetView)
    ensures
        final(out)@ == old(out)@ + market_listing_text(*view),
{
    let ghost start = out@;
    match &view.title {
        Some(t) => write_line(out, t.as_str()),
        None => write_line(out, "Listing"),
    }
    push_char(out, '\n');
    let rows = market_view_rows_exec(view);
    render_pairs(out, "Listing", &rows);
    match &view.description {
        Some(d) => {
            let mut about: Vec<String> = Vec::new();
            about.push(d.clone());
            proof {
                assert(strings_view(about@) =~= seq![d@]);
            }
            render_item_section(out, "About", &about);
            render_next_section(out, &view.actions);
        },
        None => {
            if view.actions.len() > 0 {
                render_item_section(out, "Next", &view.actions);
            }
        },
    }
    proof {
        assert(out@ =~= start + market_listing_text(*view));
    }
}

/// Appends what `listing get` and `market view` write.
pub fn render_market_view(out: &mut String, view: &ListingGetView)
    ensures
        final(out)@ == old(out)@ + market_view_text(*view),
{
    if str_eq(view.state.as_str(), "unconfigured") {
        render_notice(out, "Not ready yet", &view.reason, &view.actions);
    } else if str_eq(view.state.as_str(), "missing") {
        render_notice(out, "Not found", &view.reason, &view.actions);
    } else {
        render_market_listing(out, view);
    }
}

/// The product keys of the results, in order.
pub open spec fn result_keys(rs: Seq<FindResultView>) -> Seq<Seq<char>> {
    rs.map_values(|r: FindResultView| r.product_key@)
}

/// What `--quiet` prints for a search: the product keys, one per line, when there are results;
/// that nothing was found, when nothing was.
pub open spec fn search_quiet(v: FindView) -> Option<Seq<char>> {
    if v.state@ == "ready"@ && v.results@.len() > 0 {
        Some(join_with(result_keys(v.results@), "\n"@))
    } else if v.state@ == "empty"@ {
        Some("No listings found"@)
    } else {
        None
    }
}

/// What `--quiet` prints for a search.
pub fn search_quiet_line(v: &FindView) -> (r: Option<String>)
    ensures
        opt_str_view(r) == search_quiet(*v),
{
    if str_eq(v.state.as_str(), "ready") && v.results.len() > 0 {
        let mut keys: Vec<String> = Vec::new();
        for i in 0..v.results.len()
            invariant
                strings_view(keys@) == result_keys(v.results@.take(i as int)),
        {
            keys.push(v.results[i].product_key.clone());
            proof {
                assert(result_keys(v.results@.take(i + 1)) =~= result_keys(v.results@.take(i as int)).push(
                    v.results@[i as int].product_key@,
                ));
                assert(strings_view(keys@) =~= result_keys(v.results@.take(i + 1)));
            }
        }
        proof {
            assert(v.results@.take(v.results@.len() as int) =~= v.results@);
        }
        Some(join_strings(&keys, "\n"))
    } else if str_eq(v.state.as_str(), "empty") {
        Some(owned("No listings found"))
    } else {
        None
    }
}

/// The details a verbose render of a search adds.
pub open spec fn search_details(v: FindView) -> Seq<(Seq<char>, Seq<char>)> {
    seq![
        ("Source"@, v.source@),
        ("Freshness"@, v.freshness.display@),
        ("Relay count"@, decimal(v.relay_count as nat)),
    ]
}

/// The details a verbose render of a search adds.
pub fn search_detail_rows(v: &FindView) -> (r: Vec<(String, String)>)
    ensures
        rows_view(r@) == search_details(*v),
{
    let mut r: Vec<(String, String)> = Vec::new();
    r.push(row("Source", v.source.clone()));
    r.push(row("Freshness", v.freshness.display.clone()));
    r.push(row("Relay count", decimal_string(v.relay_count as u128)));
    proof {
        assert(rows_view(r@) =~= search_details(*v));
    }
    r
}

/// The details a verbose render of a listing adds.
pub open spec fn listing_details(v: ListingGetView) -> Seq<(Seq<char>, Seq<char>)> {
    seq![
        ("Source"@, v.source@),
        ("Freshness"@, v.provenance.freshness@),
        ("Relay count"@, decimal(v.provenance.relay_count as nat)),
    ]
}

/// The details a verbose render of a listing adds.
pub fn listing_detail_rows(v: &ListingGetView) -> (r: Vec<(String, String)>)
    ensures
        rows_view(r@) == listing_details(*v),
{
    let mut r: Vec<(String, String)> = Vec::new();
    r.push(row("Source", v.source.clone()));
    r.push(row("Freshness", v.provenance.freshness.clone()));
    r.push(row("Relay count", decimal_string(v.provenance.relay_count as u128)));
    proof {
        assert(rows_view(r@) =~= listing_details(*v));
    }
    r
}

} // verus!
