use vstd::prelude::*;

use crate::hyf::{
    HyfClient, HyfClientError, HyfQueryRewriteOutput, HyfQueryRewriteRequest, HyfRequestContext, HyfSuccess,
    resolve_runtime_client, runtime_client_result,
};
use crate::bindings::opt_str_view;
use crate::market_views::{
    FindHyfView, FindPriceView, FindQuantityView, FindResultHyfView, FindResultProvenanceView, FindResultView, FindView,
    ListingGetView, MarketReadinessView,
};
use crate::runtime_config::RuntimeConfig;
use crate::sync_views::SyncFreshnessView;
use crate::text::{append_str, concat2, concat3, is_blank, is_blank_str, owned, str_eq, strings_view, trim, trim_string};

verus! {

/// What `str::to_lowercase` gives for `s`.
pub uninterp spec fn lowercase_of(s: Seq<char>) -> Seq<char>;

/// `s` in lower case, by `str::to_lowercase`.
#[verifier::external_body]
fn to_lowercase(s: &str) -> (r: String)
    ensures
        r@ == lowercase_of(s@),
{
    s.to_lowercase()
}

/// `parts` joined with `sep` between neighbours.
pub open spec fn join_with(parts: Seq<Seq<char>>, sep: Seq<char>) -> Seq<char>
    decreases parts.len(),
{
    if parts.len() == 0 {
        seq![]
    } else if parts.len() == 1 {
        parts[0]
    } else {
        join_with(parts.drop_last(), sep) + sep + parts.last()
    }
}

/// `parts` joined with `sep`, as `[String]::join` does.
pub fn join_strings(parts: &Vec<String>, sep: &str) -> (r: String)
    ensures
        r@ == join_with(strings_view(parts@), sep@),
{
    let mut r = String::new();
    let mut i: usize = 0;
    while i < parts.len()
        invariant
            i <= parts@.len(),
            r@ == join_with(strings_view(parts@.take(i as int)), sep@),
        decreases parts@.len() - i,
    {
        proof {
            assert(strings_view(parts@.take(i + 1)).drop_last() =~= strings_view(parts@.take(i as int)));
        }
        if i > 0 {
            append_str(&mut r, sep);
        }
        append_str(&mut r, parts[i].as_str());
        proof {
            if i == 0 {
                assert(r@ =~= strings_view(parts@.take(1))[0]);
            }
        }
        i += 1;
    }
    proof {
        assert(parts@.take(parts@.len() as int) =~= parts@);
    }
    r
}

/// The search terms of `terms`: each trimmed and lower-cased, the empty ones dropped.
pub open spec fn normalized_terms(terms: Seq<Seq<char>>) -> Seq<Seq<char>> {
    terms.map_values(|t: Seq<char>| lowercase_of(trim(t))).filter(|t: Seq<char>| t.len() > 0)
}

/// Trims and lower-cases every term and drops the empty ones.
pub fn normalize_query_terms(terms: &Vec<String>) -> (r: Vec<String>)
    ensures
        strings_view(r@) == normalized_terms(strings_view(terms@)),
{
    let mut r: Vec<String> = Vec::new();
    let mut i: usize = 0;
    while i < terms.len()
        invariant
            i <= terms@.len(),
            strings_view(r@) == normalized_terms(strings_view(terms@.take(i as int))),
        decreases terms@.len() - i,
    {
        let t = trim_string(terms[i].as_str());
        let lowered = to_lowercase(t.as_str());
        proof {
            let before = strings_view(terms@.take(i as int));
            let after = strings_view(terms@.take(i + 1));
            assert(after =~= before.push(terms@[i as int]@));
            let mapped = |t: Seq<char>| lowercase_of(trim(t));
            let keep = |t: Seq<char>| t.len() > 0;
            assert(after.map_values(mapped) =~= before.map_values(mapped).push(lowered@));
            reveal(Seq::filter);
            assert(before.map_values(mapped).push(lowered@).drop_last() =~= before.map_values(mapped));
        }
        if !lowered.as_str().is_empty() {
            r.push(lowered);
        }
        proof {
            assert(strings_view(r@) =~= normalized_terms(strings_view(terms@.take(i + 1))));
        }
        i += 1;
    }
    proof {
        assert(terms@.take(terms@.len() as int) =~= terms@);
    }
    r
}

/// A query rewrite that hyf proposed and the search uses.
#[derive(Debug, Clone, PartialEq, Eq)]
pub struct AppliedQueryRewrite {
    pub rewritten_query: String,
    pub query_terms: Vec<String>,
}

/// The rewrite a search applies given hyf's output: none when the rewritten terms are empty or
/// the same as the original terms; else those terms, with hyf's trimmed rewritten text as the
/// query, or the terms joined by spaces when that text is blank.
pub open spec fn rewrite_decision(
    original_terms: Seq<Seq<char>>,
    query_terms: Seq<Seq<char>>,
    rewritten_text: Seq<char>,
) -> Option<(Seq<char>, Seq<Seq<char>>)> {
    let terms = normalized_terms(query_terms);
    if terms.len() == 0 || terms == normalized_terms(original_terms) {
        None
    } else if trim(rewritten_text).len() == 0 {
        Some((join_with(terms, " "@), terms))
    } else {
        Some((trim(rewritten_text), terms))
    }
}

fn same_strings(a: &Vec<String>, b: &Vec<String>) -> (r: bool)
    ensures
        r == (strings_view(a@) == strings_view(b@)),
{
    if a.len() != b.len() {
        proof {
            assert(strings_view(a@).len() != strings_view(b@).len());
        }
        return false;
    }
    let mut i: usize = 0;
    while i < a.len()
        invariant
            a@.len() == b@.len(),
            i <= a@.len(),
            forall|j: int| 0 <= j < i ==> a@[j]@ == b@[j]@,
        decreases a@.len() - i,
    {
        if !crate::text::str_eq(a[i].as_str(), b[i].as_str()) {
            proof {
                assert(strings_view(a@)[i as int] != strings_view(b@)[i as int]);
            }
            return false;
        }
        i += 1;
    }
    proof {
        assert(strings_view(a@) =~= strings_view(b@));
    }
    true
}

/// The rewrite a search applies given hyf's `output` for the search terms `original_terms`.
pub fn query_rewrite_decision(original_terms: &Vec<String>, output: &HyfQueryRewriteOutput) -> (r:
    Option<AppliedQueryRewrite>)
    ensures
        match rewrite_decision(
            strings_view(original_terms@),
            strings_view(output.query_terms@),
            output.rewritten_text@,
        ) {
            None => r is None,
            Some((q, t)) => r matches Some(a) && a.rewritten_query@ == q && strings_view(
                a.query_terms@,
            ) == t,
        },
{
    let rewritten_terms = normalize_query_terms(&output.query_terms);
    if rewritten_terms.len() == 0 {
        return None;
    }
    let original = normalize_query_terms(original_terms);
    if same_strings(&rewritten_terms, &original) {
        return None;
    }
    let text = trim_string(output.rewritten_text.as_str());
    let rewritten_query = if text.as_str().is_empty() {
        join_strings(&rewritten_terms, " ")
    } else {
        text
    };
    Some(AppliedQueryRewrite { rewritten_query, query_terms: rewritten_terms })
}

/// The rewrite a search of `query` applies: none for a blank query, when no hyf client is
/// selected, or when `rewrite` (the `query_rewrite` request to that client, with the
/// deterministic context) fails; else the decision on hyf's output.
pub fn attempt_query_rewrite<F>(
    config: &RuntimeConfig,
    query: &str,
    original_terms: &Vec<String>,
    rewrite: F,
) -> (r: Option<AppliedQueryRewrite>) where
    F: Fn(&HyfClient, &HyfRequestContext, &HyfQueryRewriteRequest) -> Result<
        HyfSuccess<HyfQueryRewriteOutput>,
        HyfClientError,
    >,

    requires
        forall|c: &HyfClient, x: &HyfRequestContext, q: &HyfQueryRewriteRequest| #[trigger]
            rewrite.requires((c, x, q)),
    ensures
        is_blank(query@) ==> r is None,
        !is_blank(query@) && runtime_client_result(*config) is Err ==> r is None,
        !is_blank(query@) && runtime_client_result(*config) is Ok ==> exists|
            c: &HyfClient,
            x: &HyfRequestContext,
            q: &HyfQueryRewriteRequest,
            o: Result<HyfSuccess<HyfQueryRewriteOutput>, HyfClientError>,
        |
            #[trigger] rewrite.ensures((c, x, q), o) && c.executable_view() == runtime_client_result(
                *config,
            )->Ok_0 && q.query@ == query@ && opt_str_view(x.consumer) == Some("radroots-cli"@) && opt_str_view(
                x.execution_mode_preference,
            ) == Some("deterministic"@) && x.scope is None && x.return_provenance is None && match o {
                Err(_) => r is None,
                Ok(s) => match rewrite_decision(
                    strings_view(original_terms@),
                    strings_view(s.output.query_terms@),
                    s.output.rewritten_text@,
                ) {
                    None => r is None,
                    Some((qq, t)) => r matches Some(a) && a.rewritten_query@ == qq && strings_view(
                        a.query_terms@,
                    ) == t,
                },
            },
{
    if is_blank_str(query) {
        return None;
    }
    let client = match resolve_runtime_client(config) {
        Ok(c) => c,
        Err(_) => {
            return None;
        },
    };
    let context = HyfRequestContext::deterministic_cli();
    let request = HyfQueryRewriteRequest::new(owned(query));
    let response = match rewrite(&client, &context, &request) {
        Ok(s) => s,
        Err(_) => {
            return None;
        },
    };
    query_rewrite_decision(original_terms, &response.output)
}

/// `value` trimmed, or `None` when that is empty.
pub fn non_empty(value: &str) -> (r: Option<String>)
    ensures
        trim(value@).len() == 0 ==> r is None,
        trim(value@).len() > 0 ==> (r matches Some(t) && t@ == trim(value@)),
{
    let t = trim_string(value);
    if t.as_str().is_empty() {
        None
    } else {
        Some(t)
    }
}

/// Where search results are described as coming from.
pub open spec fn find_source() -> Seq<char> {
    "local replica · local first"@
}

/// Where an applied query rewrite is described as coming from.
pub open spec fn find_hyf_source() -> Seq<char> {
    "hyf query_rewrite · local first"@
}

impl AppliedQueryRewrite {
    /// The rewrite as the search reports it.
    pub fn to_find_view(&self) -> (r: FindHyfView)
        ensures
            r.state@ == "query_rewrite_applied"@,
            r.source@ == find_hyf_source(),
            r.rewritten_query@ == self.rewritten_query@,
            strings_view(r.query_terms@) == strings_view(self.query_terms@),
    {
        FindHyfView {
            state: owned("query_rewrite_applied"),
            source: owned("hyf query_rewrite · local first"),
            rewritten_query: self.rewritten_query.clone(),
            query_terms: clone_strings(&self.query_terms),
        }
    }

    /// The rewrite as each result reports it.
    pub fn to_result_view(&self) -> (r: FindResultHyfView)
        ensures
            r.state@ == "query_rewrite_applied"@,
            r.rewritten_query@ == self.rewritten_query@,
            strings_view(r.query_terms@) == strings_view(self.query_terms@),
    {
        FindResultHyfView {
            state: owned("query_rewrite_applied"),
            rewritten_query: self.rewritten_query.clone(),
            query_terms: clone_strings(&self.query_terms),
        }
    }
}

fn clone_strings(v: &Vec<String>) -> (r: Vec<String>)
    ensures
        strings_view(r@) == strings_view(v@),
{
    let mut r: Vec<String> = Vec::new();
    for i in 0..v.len()
        invariant
            strings_view(r@) == strings_view(v@.take(i as int)),
    {
        r.push(v[i].clone());
        proof {
            assert(strings_view(v@.take(i + 1)) =~= strings_view(v@.take(i as int)).push(v@[i as int]@));
            assert(strings_view(r@) =~= strings_view(v@.take(i + 1)));
        }
    }
    proof {
        assert(v@.take(v@.len() as int) =~= v@);
    }
    r
}

/// The terms a search looks up: the rewrite's when one applies, else the typed terms normalized.
pub open spec fn search_terms_spec(original: Seq<Seq<char>>, rewrite: Option<AppliedQueryRewrite>) -> Seq<Seq<char>> {
    match rewrite {
        Some(a) => strings_view(a.query_terms@),
        None => normalized_terms(original),
    }
}

/// The terms a search looks up.
pub fn search_terms(original: &Vec<String>, rewrite: &Option<AppliedQueryRewrite>) -> (r: Vec<String>)
    ensures
        strings_view(r@) == search_terms_spec(strings_view(original@), *rewrite),
{
    match rewrite {
        Some(a) => clone_strings(&a.query_terms),
        None => normalize_query_terms(original),
    }
}

/// One listing row of the local replica that matched a search; the price amount is carried as
/// the price view holds it.
#[derive(Debug, Clone, PartialEq, Eq)]
pub struct TradeProductRow {
    pub id: String,
    pub key: String,
    pub listing_addr: Option<String>,
    pub title: String,
    pub category: String,
    pub summary: String,
    pub location_primary: Option<String>,
    pub qty_amt: i64,
    pub qty_unit: String,
    pub qty_label: Option<String>,
    pub qty_avail: Option<i64>,
    pub price: FindPriceView,
}

/// A present text trimmed, or `None` when it is absent or blank.
pub open spec fn trimmed_opt(o: Option<Seq<char>>) -> Option<Seq<char>> {
    match o {
        Some(v) => if trim(v).len() == 0 {
            None
        } else {
            Some(trim(v))
        },
        None => None,
    }
}

fn trimmed_opt_exec(o: &Option<String>) -> (r: Option<String>)
    ensures
        opt_str_view(r) == trimmed_opt(opt_str_view(*o)),
{
    match o {
        Some(v) => non_empty(v.as_str()),
        None => None,
    }
}

/// What a search reports of one matched row.
pub open spec fn result_matches_row(
    r: FindResultView,
    row: TradeProductRow,
    freshness: Seq<char>,
    relay_count: usize,
    rewrite: Option<AppliedQueryRewrite>,
) -> bool {
    &&& r.id@ == row.id@
    &&& r.product_key@ == row.key@
    &&& opt_str_view(r.listing_addr) == trimmed_opt(opt_str_view(row.listing_addr))
    &&& r.title@ == row.title@
    &&& r.category@ == row.category@
    &&& opt_str_view(r.summary) == trimmed_opt(Some(row.summary@))
    &&& opt_str_view(r.location_primary) == trimmed_opt(opt_str_view(row.location_primary))
    &&& r.available.total_amount == row.qty_amt
    &&& r.available.total_unit@ == row.qty_unit@
    &&& opt_str_view(r.available.label) == trimmed_opt(opt_str_view(row.qty_label))
    &&& r.available.available_amount == row.qty_avail
    &&& r.price == row.price
    &&& r.provenance.origin@ == "local_replica.trade_product"@
    &&& r.provenance.freshness@ == freshness
    &&& r.provenance.relay_count == relay_count
    &&& match rewrite {
        Some(a) => r.hyf matches Some(h) && h.state@ == "query_rewrite_applied"@ && h.rewritten_query@
            == a.rewritten_query@ && strings_view(h.query_terms@) == strings_view(a.query_terms@),
        None => r.hyf is None,
    }
}

fn result_of_row(
    row: &TradeProductRow,
    freshness: &SyncFreshnessView,
    relay_count: usize,
    rewrite: &Option<AppliedQueryRewrite>,
) -> (r: FindResultView)
    ensures
        result_matches_row(r, *row, freshness.display@, relay_count, *rewrite),
{
    FindResultView {
        id: row.id.clone(),
        product_key: row.key.clone(),
        listing_addr: trimmed_opt_exec(&row.listing_addr),
        title: row.title.clone(),
        category: row.category.clone(),
        summary: non_empty(row.summary.as_str()),
        location_primary: trimmed_opt_exec(&row.location_primary),
        available: FindQuantityView {
            total_amount: row.qty_amt,
            total_unit: row.qty_unit.clone(),
            label: trimmed_opt_exec(&row.qty_label),
            available_amount: row.qty_avail,
        },
        price: FindPriceView {
            amount_bits: row.price.amount_bits,
            amount_text: row.price.amount_text.clone(),
            currency: row.price.currency.clone(),
            per_amount: row.price.per_amount,
            per_unit: row.price.per_unit.clone(),
        },
        provenance: FindResultProvenanceView {
            origin: owned("local_replica.trade_product"),
            freshness: freshness.display.clone(),
            relay_count,
        },
        hyf: match rewrite {
            Some(a) => Some(a.to_result_view()),
            None => None,
        },
    }
}

/// What `find` reports while the local replica is missing.
pub fn unconfigured_find_view(query_terms: &Vec<String>, relay_count: usize, replica_db: &str) -> (r: FindView)
    ensures
        r.state@ == "unconfigured"@,
        r.source@ == find_source(),
        r.query@ == join_with(strings_view(query_terms@), " "@),
        r.count == 0,
        r.relay_count == relay_count,
        r.replica_db@ == replica_db@,
        r.freshness.state@ == "never"@,
        r.freshness.display@ == "never synced"@,
        r.freshness.age_seconds is None && r.freshness.last_event_at is None,
        r.results@.len() == 0,
        r.hyf is None,
        opt_str_view(r.reason) == Some("local replica database is not initialized"@),
        strings_view(r.actions@) == seq!["radroots local init"@],
{
    let mut actions: Vec<String> = Vec::new();
    actions.push(owned("radroots local init"));
    proof {
        assert(strings_view(actions@) =~= seq!["radroots local init"@]);
    }
    FindView {
        state: owned("unconfigured"),
        source: owned("local replica · local first"),
        query: join_strings(query_terms, " "),
        count: 0,
        relay_count,
        replica_db: owned(replica_db),
        freshness: SyncFreshnessView {
            state: owned("never"),
            display: owned("never synced"),
            age_seconds: None,
            last_event_at: None,
        },
        results: Vec::new(),
        hyf: None,
        reason: Some(owned("local replica database is not initialized")),
        actions,
    }
}

/// What `find` reports for the rows the local replica matched: `ready` with one result per
/// row, in order, or `empty` with the reason and, when the replica was never synced, the step to
/// check the sync.
pub fn find_view_from_rows(
    query_terms: &Vec<String>,
    relay_count: usize,
    replica_db: &str,
    freshness: SyncFreshnessView,
    rewrite: Option<AppliedQueryRewrite>,
    rows: &Vec<TradeProductRow>,
) -> (r: FindView)
    ensures
        r.source@ == find_source(),
        r.query@ == join_with(strings_view(query_terms@), " "@),
        r.relay_count == relay_count,
        r.replica_db@ == replica_db@,
        r.freshness == freshness,
        r.count == rows@.len(),
        r.results@.len() == rows@.len(),
        forall|i: int|
            0 <= i < rows@.len() ==> result_matches_row(
                #[trigger] r.results@[i],
                rows@[i],
                freshness.display@,
                relay_count,
                rewrite,
            ),
        match rewrite {
            Some(a) => r.hyf matches Some(h) && h.rewritten_query@ == a.rewritten_query@ && strings_view(
                h.query_terms@,
            ) == strings_view(a.query_terms@) && h.source@ == find_hyf_source(),
            None => r.hyf is None,
        },
        rows@.len() == 0 ==> {
            &&& r.state@ == "empty"@
            &&& opt_str_view(r.reason) == Some(
                "no local market results matched `"@ + join_with(strings_view(query_terms@), " "@) + "`"@,
            )
            &&& strings_view(r.actions@) == (if freshness.state@ == "never"@ {
                seq!["radroots sync status"@]
            } else {
                seq![]
            })
        },
        rows@.len() > 0 ==> r.state@ == "ready"@ && r.reason is None && r.actions@.len() == 0,
{
    let query = join_strings(query_terms, " ");
    let mut results: Vec<FindResultView> = Vec::new();
    for i in 0..rows.len()
        invariant
            results@.len() == i,
            forall|j: int|
                0 <= j < i ==> result_matches_row(
                    #[trigger] results@[j],
                    rows@[j],
                    freshness.display@,
                    relay_count,
                    rewrite,
                ),
    {
        results.push(result_of_row(&rows[i], &freshness, relay_count, &rewrite));
    }
    let count = results.len();
    let (state, reason, actions) = if count == 0 {
        let mut actions: Vec<String> = Vec::new();
        if str_eq(freshness.state.as_str(), "never") {
            actions.push(owned("radroots sync status"));
        }
        proof {
            assert(strings_view(actions@) =~= (if freshness.state@ == "never"@ {
                seq!["radroots sync status"@]
            } else {
                seq![]
            }));
        }
        (owned("empty"), Some(concat3("no local market results matched `", query.as_str(), "`")), actions)
    } else {
        (owned("ready"), None, Vec::new())
    };
    let hyf = match &rewrite {
        Some(a) => Some(a.to_find_view()),
        None => None,
    };
    FindView {
        state,
        source: owned("local replica · local first"),
        query,
        count,
        relay_count,
        replica_db: owned(replica_db),
        freshness,
        results,
        hyf,
        reason,
        actions,
    }
}

/// The quantity a matched row offers, its label trimmed.
pub open spec fn row_quantity_matches(q: FindQuantityView, row: TradeProductRow) -> bool {
    &&& q.total_amount == row.qty_amt
    &&& q.total_unit@ == row.qty_unit@
    &&& opt_str_view(q.label) == trimmed_opt(opt_str_view(row.qty_label))
    &&& q.available_amount == row.qty_avail
}

fn row_quantity(row: &TradeProductRow) -> (r: FindQuantityView)
    ensures
        row_quantity_matches(r, *row),
{
    FindQuantityView {
        total_amount: row.qty_amt,
        total_unit: row.qty_unit.clone(),
        label: trimmed_opt_exec(&row.qty_label),
        available_amount: row.qty_avail,
    }
}

fn clone_price(p: &FindPriceView) -> (r: FindPriceView)
    ensures
        r == *p,
{
    FindPriceView {
        amount_bits: p.amount_bits,
        amount_text: p.amount_text.clone(),
        currency: p.currency.clone(),
        per_amount: p.per_amount,
        per_unit: p.per_unit.clone(),
    }
}

fn empty_listing_view(
    state: &str,
    lookup: &str,
    readiness_reason: &str,
    provenance: FindResultProvenanceView,
    reason: String,
    actions: Vec<String>,
) -> (v: ListingGetView)
    ensures
        v.state@ == state@,
        v.source@ == find_source(),
        v.lookup@ == lookup@,
        v.readiness.state@ == "unavailable"@,
        opt_str_view(v.readiness.reason) == Some(readiness_reason@),
        v.provenance == provenance,
        v.reason == Some(reason),
        v.actions == actions,
        v.listing_id is None && v.product_key is None && v.listing_addr is None,
        v.primary_bin_id is None && v.title is None && v.category is None,
        v.description is None && v.location_primary is None,
        v.available is None && v.price is None,
{
    ListingGetView {
        state: owned(state),
        source: owned("local replica · local first"),
        lookup: owned(lookup),
        readiness: MarketReadinessView::unavailable(readiness_reason),
        listing_id: None,
        product_key: None,
        listing_addr: None,
        primary_bin_id: None,
        title: None,
        category: None,
        description: None,
        location_primary: None,
        available: None,
        price: None,
        provenance,
        reason: Some(reason),
        actions,
    }
}

/// What `listing get` and `market view` report for `lookup`. `replica` is `None` while the local
/// replica is missing, else the row the lookup found (`None` when it found none) with that row's
/// primary bin and the market readiness projected from it.
pub fn listing_get_view(
    lookup: &str,
    provenance: FindResultProvenanceView,
    replica: Option<Option<(&TradeProductRow, &Option<String>, MarketReadinessView)>>,
) -> (r: ListingGetView)
    ensures
        r.source@ == find_source(),
        r.lookup@ == lookup@,
        r.provenance == provenance,
        match replica {
            None => {
                &&& r.state@ == "unconfigured"@
                &&& r.readiness.state@ == "unavailable"@
                &&& opt_str_view(r.readiness.reason) == Some("local_replica_not_initialized"@)
                &&& opt_str_view(r.reason) == Some("local replica database is not initialized"@)
                &&& strings_view(r.actions@) == seq!["radroots store inspect"@]
            },
            Some(None) => {
                &&& r.state@ == "missing"@
                &&& r.readiness.state@ == "unavailable"@
                &&& opt_str_view(r.readiness.reason) == Some("market_listing_missing"@)
                &&& opt_str_view(r.reason) == Some(
                    "listing `"@ + lookup@ + "` is not available in the local replica"@,
                )
                &&& strings_view(r.actions@) == seq!["radroots sync pull"@, "radroots market search "@ + lookup@]
            },
            Some(Some((row, bin, readiness))) => {
                &&& r.state@ == "ready"@
                &&& r.readiness == readiness
                &&& opt_str_view(r.listing_id) == Some(row.id@)
                &&& opt_str_view(r.product_key) == Some(row.key@)
                &&& opt_str_view(r.listing_addr) == trimmed_opt(opt_str_view(row.listing_addr))
                &&& opt_str_view(r.primary_bin_id) == trimmed_opt(opt_str_view(*bin))
                &&& opt_str_view(r.title) == Some(row.title@)
                &&& opt_str_view(r.category) == Some(row.category@)
                &&& opt_str_view(r.description) == trimmed_opt(Some(row.summary@))
                &&& opt_str_view(r.location_primary) == trimmed_opt(opt_str_view(row.location_primary))
                &&& r.available matches Some(q) && row_quantity_matches(q, *row)
                &&& r.price == Some(row.price)
                &&& r.reason is None
                &&& r.actions@.len() == 0
            },
        },
        !(replica matches Some(Some(_))) ==> {
            &&& r.listing_id is None && r.product_key is None && r.listing_addr is None
            &&& r.primary_bin_id is None && r.title is None && r.category is None
            &&& r.description is None && r.location_primary is None
            &&& r.available is None && r.price is None
        },
{
    match replica {
        None => {
            let mut actions: Vec<String> = Vec::new();
            actions.push(owned("radroots store inspect"));
            proof {
                assert(strings_view(actions@) =~= seq!["radroots store inspect"@]);
            }
            empty_listing_view(
                "unconfigured",
                lookup,
                "local_replica_not_initialized",
                provenance,
                owned("local replica database is not initialized"),
                actions,
            )
        },
        Some(None) => {
            let mut actions: Vec<String> = Vec::new();
            actions.push(owned("radroots sync pull"));
            actions.push(concat2("radroots market search ", lookup));
            proof {
                assert(strings_view(actions@) =~= seq!["radroots sync pull"@, "radroots market search "@ + lookup@]);
            }
            empty_listing_view(
                "missing",
                lookup,
                "market_listing_missing",
                provenance,
                concat3("listing `", lookup, "` is not available in the local replica"),
                actions,
            )
        },
        Some(Some((row, bin, readiness))) => ListingGetView {
            state: owned("ready"),
            source: owned("local replica · local first"),
            lookup: owned(lookup),
            readiness,
            listing_id: Some(row.id.clone()),
            product_key: Some(row.key.clone()),
            listing_addr: trimmed_opt_exec(&row.listing_addr),
            primary_bin_id: trimmed_opt_exec(bin),
            title: Some(row.title.clone()),
            category: Some(row.category.clone()),
            description: non_empty(row.summary.as_str()),
            location_primary: trimmed_opt_exec(&row.location_primary),
            available: Some(row_quantity(row)),
            price: Some(clone_price(&row.price)),
            provenance,
            reason: None,
            actions: Vec::new(),
        },
    }
}

} // verus!
