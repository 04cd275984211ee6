use vstd::prelude::*;

use crate::bindings::opt_str_view;
use crate::envfile::{lines, lines_of, vecs_view};
use crate::farm::is_hex_char;
use crate::text::{
    append_str, chars_of, concat3, lower, lower_chars, owned, string_of, strings_view, trim, trim_chars,
};

verus! {

/// What a listing mutation does.
#[derive(Debug, Clone, Copy, PartialEq, Eq, Structural)]
pub enum ListingMutationOperation {
    Publish,
    Update,
    Pause,
    Withdraw,
}

impl ListingMutationOperation {
    pub open spec fn name(self) -> Seq<char> {
        match self {
            ListingMutationOperation::Publish => "publish"@,
            ListingMutationOperation::Update => "update"@,
            ListingMutationOperation::Pause => "pause"@,
            ListingMutationOperation::Withdraw => "withdraw"@,
        }
    }

    /// The operation's name.
    pub fn as_str(self) -> (r: &'static str)
        ensures
            r@ == self.name(),
    {
        match self {
            ListingMutationOperation::Publish => "publish",
            ListingMutationOperation::Update => "update",
            ListingMutationOperation::Pause => "pause",
            ListingMutationOperation::Withdraw => "withdraw",
        }
    }

    /// The status a listing takes after this operation, when it changes it.
    pub fn listing_status(self) -> (r: Option<&'static str>)
        ensures
            match self {
                ListingMutationOperation::Pause => r matches Some(s) && s@ == "paused"@,
                ListingMutationOperation::Withdraw => r matches Some(s) && s@ == "withdrawn"@,
                _ => r is None,
            },
    {
        match self {
            ListingMutationOperation::Pause => Some("paused"),
            ListingMutationOperation::Withdraw => Some("withdrawn"),
            ListingMutationOperation::Publish | ListingMutationOperation::Update => None,
        }
    }
}

/// The kind tag of listing draft files.
pub const DRAFT_KIND: &'static str = "listing_draft_v1";

/// The address of listing `listing_id` by `seller_pubkey`: kind 30402, the seller, the id.
pub fn listing_addr(seller_pubkey: &str, listing_id: &str) -> (r: String)
    ensures
        r@ == "30402:"@ + seller_pubkey@ + ":"@ + listing_id@,
{
    let mut r = concat3("30402:", seller_pubkey, ":");
    append_str(&mut r, listing_id);
    r
}

/// A public key in canonical form: 64 hexadecimal digits once trimmed, in lower case.
pub open spec fn canonical_pubkey(value: Seq<char>) -> Option<Seq<char>> {
    let t = trim(value);
    if t.len() == 64 && forall|i: int| 0 <= i < 64 ==> #[trigger] is_hex_char(t[i]) {
        Some(lower(t))
    } else {
        None
    }
}

/// `value` as a canonical hexadecimal public key, when it is one.
pub fn canonical_hex_pubkey(value: &str) -> (r: Option<String>)
    ensures
        opt_str_view(r) == canonical_pubkey(value@),
{
    let cs = chars_of(value);
    let t = trim_chars(cs.as_slice());
    if t.len() != 64 {
        return None;
    }
    let mut i: usize = 0;
    while i < 64
        invariant
            t@ == trim(value@),
            t@.len() == 64,
            i <= 64,
            forall|j: int| 0 <= j < i ==> #[trigger] is_hex_char(t@[j]),
        decreases 64 - i,
    {
        let c = t[i];
        if !(('0' <= c && c <= '9') || ('a' <= c && c <= 'f') || ('A' <= c && c <= 'F')) {
            proof {
                assert(!is_hex_char(t@[i as int]));
            }
            return None;
        }
        i += 1;
    }
    let l = lower_chars(t.as_slice());
    Some(string_of(l.as_slice()))
}

/// The recovery commands for a listing draft at `file` whose seller account is missing.
pub fn listing_bound_account_recovery_actions(file: &str) -> (r: Vec<String>)
    ensures
        strings_view(r@) == seq![
            "radroots account import <path>"@,
            "radroots listing rebind "@ + file@ + " <selector>"@,
        ],
{
    let mut r: Vec<String> = Vec::new();
    r.push(owned("radroots account import <path>"));
    r.push(concat3("radroots listing rebind ", file, " <selector>"));
    proof {
        assert(strings_view(r@) =~= seq![
            "radroots account import <path>"@,
            "radroots listing rebind "@ + file@ + " <selector>"@,
        ]);
    }
    r
}

/// Whether `needle` occurs in `s`.
pub open spec fn occurs_in(s: Seq<char>, needle: Seq<char>) -> bool {
    exists|i: int| 0 <= i && i + needle.len() <= s.len() && #[trigger] s.subrange(i, i + needle.len()) == needle
}

fn occurs_at(s: &Vec<char>, needle: &Vec<char>, i: usize) -> (r: bool)
    requires
        i + needle@.len() <= s@.len(),
    ensures
        r == (s@.subrange(i as int, i + needle@.len()) == needle@),
{
    let mut k: usize = 0;
    let n = s.len();
    while k < needle.len()
        invariant
            n == s@.len(),
            i + needle@.len() <= s@.len(),
            k <= needle@.len(),
            forall|j: int| 0 <= j < k ==> s@[i + j] == needle@[j],
        decreases needle@.len() - k,
    {
        if s[i + k] != needle[k] {
            proof {
                assert(s@.subrange(i as int, i + needle@.len())[k as int] != needle@[k as int]);
            }
            return false;
        }
        k += 1;
    }
    proof {
        assert(s@.subrange(i as int, i + needle@.len()) =~= needle@);
    }
    true
}

fn contains_chars(s: &Vec<char>, needle: &Vec<char>) -> (r: bool)
    ensures
        r == occurs_in(s@, needle@),
{
    if needle.len() > s.len() {
        return false;
    }
    let last = s.len() - needle.len();
    let mut i: usize = 0;
    loop
        invariant
            last + needle@.len() == s@.len(),
            i <= last,
            forall|j: int| 0 <= j < i ==> #[trigger] s@.subrange(j, j + needle@.len()) != needle@,
        decreases last - i,
    {
        if occurs_at(s, needle, i) {
            return true;
        }
        if i == last {
            proof {
                if occurs_in(s@, needle@) {
                    let j = choose|j: int| 0 <= j && j + needle@.len() <= s@.len() && #[trigger] s@.subrange(j, j + needle@.len()) == needle@;
                    assert(j <= last);
                    if j < i {
                        assert(s@.subrange(j, j + needle@.len()) != needle@);
                    }
                }
            }
            return false;
        }
        i += 1;
    }
}

/// The draft text each validated field is found by, in the order they are tried.
pub open spec fn field_needles(field: Seq<char>) -> Seq<Seq<char>> {
    if field == "version"@ {
        seq!["version ="@]
    } else if field == "kind"@ {
        seq!["kind ="@]
    } else if field == "listing.d_tag"@ {
        seq!["d_tag ="@]
    } else if field == "listing.farm_d_tag"@ {
        seq!["farm_d_tag ="@]
    } else if field == "seller_actor.account_id"@ {
        seq!["[seller_actor]"@, "account_id ="@]
    } else if field == "seller_actor.pubkey"@ {
        seq!["[seller_actor]"@, "pubkey ="@]
    } else if field == "seller_actor.source"@ {
        seq!["[seller_actor]"@, "source ="@]
    } else if field == "product.key"@ {
        seq!["key ="@]
    } else if field == "product.title"@ {
        seq!["title ="@]
    } else if field == "product.category"@ {
        seq!["category ="@]
    } else if field == "product.summary"@ {
        seq!["summary ="@]
    } else if field == "primary_bin.bin_id"@ {
        seq!["bin_id ="@]
    } else if field == "primary_bin.quantity_amount"@ {
        seq!["quantity_amount ="@]
    } else if field == "primary_bin.quantity_unit"@ {
        seq!["quantity_unit ="@]
    } else if field == "primary_bin.price_amount"@ {
        seq!["price_amount ="@]
    } else if field == "primary_bin.price_currency"@ {
        seq!["price_currency ="@]
    } else if field == "primary_bin.price_per_amount"@ {
        seq!["price_per_amount ="@]
    } else if field == "primary_bin.price_per_unit"@ {
        seq!["price_per_unit ="@]
    } else if field == "inventory.available"@ {
        seq!["available ="@]
    } else if field == "availability.kind"@ {
        seq!["[availability]"@, "kind ="@]
    } else if field == "availability.status"@ {
        seq!["status ="@]
    } else if field == "delivery.method"@ {
        seq!["method ="@]
    } else if field == "location.primary"@ {
        seq!["primary ="@]
    } else if field.len() >= 10 && field.take(10) == "discounts."@ {
        seq!["[[discounts]]"@]
    } else {
        seq![]
    }
}

/// The index of the first line holding `needle`.
pub open spec fn first_line_with(ls: Seq<Seq<char>>, needle: Seq<char>) -> Option<int>
    decreases ls.len(),
{
    if ls.len() == 0 {
        None
    } else if occurs_in(ls[0], needle) {
        Some(0)
    } else {
        match first_line_with(ls.drop_first(), needle) {
            Some(i) => Some(i + 1),
            None => None,
        }
    }
}

/// The line, counted from one, of the first needle found: each needle in turn, the first line
/// holding it.
pub open spec fn field_line(ls: Seq<Seq<char>>, needles: Seq<Seq<char>>) -> Option<int>
    decreases needles.len(),
{
    if needles.len() == 0 {
        None
    } else {
        match first_line_with(ls, needles[0]) {
            Some(i) => Some(i + 1),
            None => field_line(ls, needles.drop_first()),
        }
    }
}

fn first_line_index(ls: &Vec<Vec<char>>, needle: &Vec<char>) -> (r: Option<usize>)
    ensures
        r matches Some(x) ==> x < ls@.len(),
        match first_line_with(vecs_view(ls@), needle@) {
            Some(i) => r matches Some(x) && x == i,
            None => r is None,
        },
{
    let mut i: usize = 0;
    proof {
        assert(vecs_view(ls@).skip(0) =~= vecs_view(ls@));
    }
    while i < ls.len()
        invariant
            i <= ls@.len(),
            first_line_with(vecs_view(ls@), needle@) == match first_line_with(
                vecs_view(ls@).skip(i as int),
                needle@,
            ) {
                Some(k) => Some(k + i),
                None => None::<int>,
            },
        decreases ls@.len() - i,
    {
        proof {
            assert(vecs_view(ls@).skip(i as int)[0] == ls@[i as int]@);
            assert(vecs_view(ls@).skip(i as int).drop_first() =~= vecs_view(ls@).skip(i + 1));
        }
        if contains_chars(&ls[i], needle) {
            return Some(i);
        }
        i += 1;
    }
    None
}

fn needles_for(field: &str) -> (r: Vec<Vec<char>>)
    ensures
        vecs_view(r@) == field_needles(field@),
{
    let f = chars_of(field);
    let mut r: Vec<Vec<char>> = Vec::new();
    if crate::text::str_eq(field, "version") {
        r.push(chars_of("version ="));
    } else if crate::text::str_eq(field, "kind") {
        r.push(chars_of("kind ="));
    } else if crate::text::str_eq(field, "listing.d_tag") {
        r.push(chars_of("d_tag ="));
    } else if crate::text::str_eq(field, "listing.farm_d_tag") {
        r.push(chars_of("farm_d_tag ="));
    } else if crate::text::str_eq(field, "seller_actor.account_id") {
        r.push(chars_of("[seller_actor]"));
        r.push(chars_of("account_id ="));
    } else if crate::text::str_eq(field, "seller_actor.pubkey") {
        r.push(chars_of("[seller_actor]"));
        r.push(chars_of("pubkey ="));
    } else if crate::text::str_eq(field, "seller_actor.source") {
        r.push(chars_of("[seller_actor]"));
        r.push(chars_of("source ="));
    } else if crate::text::str_eq(field, "product.key") {
        r.push(chars_of("key ="));
    } else if crate::text::str_eq(field, "product.title") {
        r.push(chars_of("title ="));
    } else if crate::text::str_eq(field, "product.category") {
        r.push(chars_of("category ="));
    } else if crate::text::str_eq(field, "product.summary") {
        r.push(chars_of("summary ="));
    } else if crate::text::str_eq(field, "primary_bin.bin_id") {
        r.push(chars_of("bin_id ="));
    } else if crate::text::str_eq(field, "primary_bin.quantity_amount") {
        r.push(chars_of("quantity_amount ="));
    } else if crate::text::str_eq(field, "primary_bin.quantity_unit") {
        r.push(chars_of("quantity_unit ="));
    } else if crate::text::str_eq(field, "primary_bin.price_amount") {
        r.push(chars_of("price_amount ="));
    } else if crate::text::str_eq(field, "primary_bin.price_currency") {
        r.push(chars_of("price_currency ="));
    } else if crate::text::str_eq(field, "primary_bin.price_per_amount") {
        r.push(chars_of("price_per_amount ="));
    } else if crate::text::str_eq(field, "primary_bin.price_per_unit") {
        r.push(chars_of("price_per_unit ="));
    } else if crate::text::str_eq(field, "inventory.available") {
        r.push(chars_of("available ="));
    } else if crate::text::str_eq(field, "availability.kind") {
        r.push(chars_of("[availability]"));
        r.push(chars_of("kind ="));
    } else if crate::text::str_eq(field, "availability.status") {
        r.push(chars_of("status ="));
    } else if crate::text::str_eq(field, "delivery.method") {
        r.push(chars_of("method ="));
    } else if crate::text::str_eq(field, "location.primary") {
        r.push(chars_of("primary ="));
    } else if crate::text::strip_prefix_chars(f.as_slice(), "discounts.").is_some() {
        r.push(chars_of("[[discounts]]"));
    }
    proof {
        reveal_strlit("discounts.");
        assert(vecs_view(r@) =~= field_needles(field@));
    }
    r
}

/// The line of a draft's text where `field` is written, counted from one.
pub fn line_for_field(contents: &str, field: &str) -> (r: Option<usize>)
    ensures
        match field_line(lines(contents@), field_needles(field@)) {
            Some(n) => r matches Some(x) && x == n,
            None => r is None,
        },
{
    let ls = lines_of(contents);
    let total = ls.len();
    let needles = needles_for(field);
    let mut k: usize = 0;
    proof {
        assert(vecs_view(needles@).skip(0) =~= vecs_view(needles@));
    }
    while k < needles.len()
        invariant
            vecs_view(ls@) == lines(contents@),
            total == ls@.len(),
            k <= needles@.len(),
            field_line(lines(contents@), field_needles(field@)) == field_line(
                lines(contents@),
                vecs_view(needles@).skip(k as int),
            ),
            vecs_view(needles@) == field_needles(field@),
        decreases needles@.len() - k,
    {
        proof {
            assert(vecs_view(needles@).skip(k as int)[0] == needles@[k as int]@);
            assert(vecs_view(needles@).skip(k as int).drop_first() =~= vecs_view(needles@).skip(k + 1));
        }
        if let Some(i) = first_line_index(&ls, &needles[k]) {
            proof {
                assert(i < ls@.len());
            }
            return Some(i + 1);
        }
        k += 1;
    }
    None
}

} // verus!
