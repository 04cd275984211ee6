use vstd::prelude::*;

use crate::accounts::{AccountMismatchDetail, AccountRuntimeFailure};
use crate::bindings::opt_str_view;
use crate::error::{RuntimeError, is_config_err};
use crate::farm::{
    base64url, be_bytes, farm_rebind_recovery_actions, generate_d_tag, required_d_tag, required_text_result,
};
use crate::farm_config::{
    DefaultsView, DocumentView, FarmConfigDocument, FarmConfigScope, FarmConfigSelection, FarmListingDefaults,
    FarmLocation, FarmProfile, FarmPublicationStatus, FarmRecord, FarmView, ListingLocation, LocationView,
    ProfileView, ResolvedFarmConfig, SUPPORTED_FARM_CONFIG_VERSION, farm_name, farm_name_of, is_d_tag,
    location_primary, location_primary_of, non_blank, non_blank_str, opt_non_blank, opt_non_blank_str,
};
use crate::text::{concat3, owned, strings_view};

verus! {

/// The values `farm create` was given; each one left out keeps what the farm config holds.
#[derive(Debug, Clone, Default, PartialEq, Eq)]
pub struct FarmCreateArgs {
    pub farm_d_tag: Option<String>,
    pub name: Option<String>,
    pub display_name: Option<String>,
    pub about: Option<String>,
    pub website: Option<String>,
    pub picture: Option<String>,
    pub banner: Option<String>,
    pub location: Option<String>,
    pub city: Option<String>,
    pub region: Option<String>,
    pub country: Option<String>,
    pub geohash: Option<String>,
    pub delivery_method: Option<String>,
}

/// The seller account a farm draft is made for: its id and its label, if it has one.
#[derive(Debug, Clone, PartialEq, Eq)]
pub struct SellerAccount {
    pub id: String,
    pub label: Option<String>,
}

/// `a`, else `b`.
pub open spec fn or_else(a: Option<Seq<char>>, b: Option<Seq<char>>) -> Option<Seq<char>> {
    match a {
        Some(v) => Some(v),
        None => b,
    }
}

/// The text of `a`, or nothing.
pub open spec fn text_or_empty(a: Option<Seq<char>>) -> Seq<char> {
    match a {
        Some(v) => v,
        None => seq![],
    }
}

/// The given value when it is not blank, else the existing one when that is not blank; trimmed.
pub open spec fn arg_or_existing(arg: Option<Seq<char>>, existing: Option<Seq<char>>) -> Option<Seq<char>> {
    or_else(opt_non_blank(arg), opt_non_blank(existing))
}

/// The document of an existing farm config.
pub open spec fn existing_doc(e: Option<&ResolvedFarmConfig>) -> Option<FarmConfigDocument> {
    match e {
        Some(r) => Some(r.document),
        None => None,
    }
}

/// A place field of the existing config: the farm record's when it is set and not blank, else
/// the listing defaults'.
pub open spec fn existing_place(
    e: Option<FarmConfigDocument>,
    farm_field: spec_fn(FarmLocation) -> Option<String>,
    listing_field: spec_fn(ListingLocation) -> Option<String>,
) -> Option<Seq<char>> {
    match e {
        Some(d) => or_else(
            match d.farm.location {
                Some(l) => opt_non_blank(opt_str_view(farm_field(l))),
                None => None,
            },
            opt_non_blank(opt_str_view(listing_field(d.listing_defaults.location))),
        ),
        None => None,
    }
}

/// The existing geohash, from the listing defaults.
pub open spec fn existing_geohash(e: Option<FarmConfigDocument>) -> Option<Seq<char>> {
    match e {
        Some(d) => opt_non_blank(opt_str_view(d.listing_defaults.location.geohash)),
        None => None,
    }
}

/// The existing farm name.
pub open spec fn existing_name(e: Option<FarmConfigDocument>) -> Option<Seq<char>> {
    match e {
        Some(d) => farm_name_of(d),
        None => None,
    }
}

/// The existing primary location.
pub open spec fn existing_location(e: Option<FarmConfigDocument>) -> Option<Seq<char>> {
    match e {
        Some(d) => location_primary_of(d),
        None => None,
    }
}

/// The existing delivery method.
pub open spec fn existing_delivery(e: Option<FarmConfigDocument>) -> Option<Seq<char>> {
    match e {
        Some(d) => non_blank(d.listing_defaults.delivery_method@),
        None => None,
    }
}

/// A profile field of the existing config.
pub open spec fn existing_profile(e: Option<FarmConfigDocument>, field: spec_fn(FarmProfile) -> Option<String>) -> Option<
    Seq<char>,
> {
    match e {
        Some(d) => opt_str_view(field(d.profile)),
        None => None,
    }
}

/// The name a new farm takes from its account: the label, else the id.
pub open spec fn draft_name(account: SellerAccount) -> Option<Seq<char>> {
    or_else(opt_non_blank(opt_str_view(account.label)), non_blank(account.id@))
}

/// Whether the existing config is bound to an account other than `id`.
pub open spec fn bound_elsewhere(e: Option<FarmConfigDocument>, id: Seq<char>) -> bool {
    match e {
        Some(d) => d.selection.account@ != id,
        None => false,
    }
}

/// The refusal to update a farm config bound to another seller account.
pub open spec fn mismatch_message(bound: Seq<char>, attempted: Seq<char>) -> Seq<char> {
    "account mismatch: farm config is bound to seller account `"@ + bound + "`; select account `"@
        + attempted + "` before updating this farm config"@
}

/// The farm's d-tag: the given one, which must be an identifier; else the existing one; else
/// `generated`.
pub open spec fn chosen_d_tag(e: Option<FarmConfigDocument>, args: FarmCreateArgs, generated: Seq<char>) -> Result<
    Seq<char>,
    Seq<char>,
> {
    match args.farm_d_tag {
        Some(v) => match required_text_result(v@, "farm_d_tag"@) {
            Err(m) => Err(m),
            Ok(t) => if is_d_tag(t) {
                Ok(t)
            } else {
                Err("farm_d_tag"@ + " must be a 22-character base64url identifier"@)
            },
        },
        None => match e {
            Some(d) => Ok(d.farm.d_tag@),
            None => Ok(generated),
        },
    }
}

/// Whether the existing publication record belongs to the farm `d_tag` of account `id`.
pub open spec fn keeps_publication(e: Option<FarmConfigDocument>, id: Seq<char>, d_tag: Seq<char>) -> bool {
    match e {
        Some(d) => d.farm.d_tag@ == d_tag && d.selection.account@ == id,
        None => false,
    }
}

/// The farm draft that `farm create` writes for `account` with the d-tag `d_tag`.
pub open spec fn drafted_view(
    scope: FarmConfigScope,
    account: SellerAccount,
    e: Option<FarmConfigDocument>,
    args: FarmCreateArgs,
    d_tag: Seq<char>,
) -> DocumentView {
    let name = text_or_empty(or_else(arg_or_existing(opt_str_view(args.name), existing_name(e)), draft_name(account)));
    let display_name = or_else(
        arg_or_existing(opt_str_view(args.display_name), existing_profile(e, |p: FarmProfile| p.display_name)),
        non_blank(name),
    );
    let about = arg_or_existing(opt_str_view(args.about), existing_profile(e, |p: FarmProfile| p.about));
    let website = arg_or_existing(opt_str_view(args.website), existing_profile(e, |p: FarmProfile| p.website));
    let picture = arg_or_existing(opt_str_view(args.picture), existing_profile(e, |p: FarmProfile| p.picture));
    let banner = arg_or_existing(opt_str_view(args.banner), existing_profile(e, |p: FarmProfile| p.banner));
    let primary = text_or_empty(arg_or_existing(opt_str_view(args.location), existing_location(e)));
    let city = arg_or_existing(opt_str_view(args.city), existing_place(e, |l: FarmLocation| l.city, |l: ListingLocation| l.city));
    let region = arg_or_existing(opt_str_view(args.region), existing_place(e, |l: FarmLocation| l.region, |l: ListingLocation| l.region));
    let country = arg_or_existing(opt_str_view(args.country), existing_place(e, |l: FarmLocation| l.country, |l: ListingLocation| l.country));
    let geohash = arg_or_existing(opt_str_view(args.geohash), existing_geohash(e));
    let delivery = text_or_empty(arg_or_existing(opt_str_view(args.delivery_method), existing_delivery(e)));
    let keep = keeps_publication(e, account.id@, d_tag);
    DocumentView {
        version: 1,
        scope,
        account: account.id@,
        farm_d_tag: d_tag,
        profile: ProfileView {
            name,
            display_name,
            nip05: None,
            about,
            website,
            picture,
            banner,
            lud06: None,
            lud16: None,
            bot: None,
        },
        farm: FarmView {
            d_tag,
            name,
            about,
            website,
            picture,
            banner,
            location: Some(LocationView { primary: Some(primary), city, region, country }),
            tags: None,
        },
        defaults: DefaultsView { delivery_method: delivery, primary, city, region, country, geohash },
        profile_event_id: if keep { opt_str_view(e->0.publication.profile_event_id) } else { None },
        farm_event_id: if keep { opt_str_view(e->0.publication.farm_event_id) } else { None },
        profile_published_at: if keep { e->0.publication.profile_published_at } else { None },
        farm_published_at: if keep { e->0.publication.farm_published_at } else { None },
    }
}

fn clone_text(o: &Option<String>) -> (r: Option<String>)
    ensures
        r == *o,
{
    match o {
        Some(v) => Some(v.clone()),
        None => None,
    }
}

fn or_else_text(a: Option<String>, b: Option<String>) -> (r: Option<String>)
    ensures
        opt_str_view(r) == or_else(opt_str_view(a), opt_str_view(b)),
{
    match a {
        Some(v) => Some(v),
        None => b,
    }
}

fn text_or_empty_exec(a: Option<String>) -> (r: String)
    ensures
        r@ == text_or_empty(opt_str_view(a)),
{
    match a {
        Some(v) => v,
        None => String::new(),
    }
}

/// The given value when it is not blank, else the existing one when that is not blank; trimmed.
pub fn optional_arg_or_existing(arg: &Option<String>, existing: &Option<String>) -> (r: Option<String>)
    ensures
        opt_str_view(r) == arg_or_existing(opt_str_view(*arg), opt_str_view(*existing)),
{
    or_else_text(opt_non_blank_str(arg), opt_non_blank_str(existing))
}

/// The name a new farm takes from its account: the label, else the id.
pub fn draft_name_from_account(account: &SellerAccount) -> (r: Option<String>)
    ensures
        opt_str_view(r) == draft_name(*account),
{
    or_else_text(opt_non_blank_str(&account.label), non_blank_str(account.id.as_str()))
}

fn place_or(farm_value: Option<&Option<String>>, listing_value: &Option<String>) -> (r: Option<String>)
    ensures
        opt_str_view(r) == or_else(
            match farm_value {
                Some(v) => opt_non_blank(opt_str_view(*v)),
                None => None,
            },
            opt_non_blank(opt_str_view(*listing_value)),
        ),
{
    let from_farm = match farm_value {
        Some(v) => opt_non_blank_str(v),
        None => None,
    };
    or_else_text(from_farm, opt_non_blank_str(listing_value))
}

/// The existing config's publication record when it belongs to the farm `d_tag` of `account`,
/// else an empty one.
pub fn publication_for_document(
    existing_document: Option<&FarmConfigDocument>,
    account: &SellerAccount,
    d_tag: &str,
) -> (r: FarmPublicationStatus)
    ensures
        (match existing_document {
            Some(d) => keeps_publication(Some(*d), account.id@, d_tag@),
            None => false,
        }) ==> r == existing_document->0.publication,
        !(match existing_document {
            Some(d) => keeps_publication(Some(*d), account.id@, d_tag@),
            None => false,
        }) ==> r == (FarmPublicationStatus {
            profile_event_id: None,
            farm_event_id: None,
            profile_published_at: None,
            farm_published_at: None,
        }),
{
    if let Some(d) = existing_document {
        if crate::text::str_eq(d.farm.d_tag.as_str(), d_tag) && crate::text::str_eq(
            d.selection.account.as_str(),
            account.id.as_str(),
        ) {
            return FarmPublicationStatus {
                profile_event_id: clone_text(&d.publication.profile_event_id),
                farm_event_id: clone_text(&d.publication.farm_event_id),
                profile_published_at: d.publication.profile_published_at,
                farm_published_at: d.publication.farm_published_at,
            };
        }
    }
    FarmPublicationStatus {
        profile_event_id: None,
        farm_event_id: None,
        profile_published_at: None,
        farm_published_at: None,
    }
}

fn chosen_farm_d_tag(
    existing_document: Option<&FarmConfigDocument>,
    args: &FarmCreateArgs,
    nanos: u128,
    counter: u128,
) -> (r: Result<String, RuntimeError>)
    ensures
        match chosen_d_tag(
            match existing_document {
                Some(d) => Some(*d),
                None => None,
            },
            *args,
            base64url(be_bytes(nanos ^ counter)),
        ) {
            Err(m) => is_config_err(r, m),
            Ok(t) => r matches Ok(x) && x@ == t,
        },
{
    match &args.farm_d_tag {
        Some(value) => required_d_tag(value.as_str(), "farm_d_tag"),
        None => match existing_document {
            Some(d) => Ok(d.farm.d_tag.clone()),
            None => Ok(generate_d_tag(nanos, counter)),
        },
    }
}

fn mismatch_failure(bound: &str, account_id: &str) -> (r: RuntimeError)
    ensures
        r matches RuntimeError::Account(AccountRuntimeFailure::MismatchWithDetail(m, detail)) && m@
            == mismatch_message(bound@, account_id@) && detail.seller_actor_source@ == "farm_config"@
            && detail.farm_bound_seller_account_id@ == bound@ && detail.attempted_seller_account_id@
            == account_id@ && strings_view(detail.actions@) == seq![
            "radroots --dry-run account select "@ + account_id@,
            "radroots account select "@ + account_id@,
        ],
{
    let mut message = concat3("account mismatch: farm config is bound to seller account `", bound, "`; select account `");
    crate::text::append_str(&mut message, account_id);
    crate::text::append_str(&mut message, "` before updating this farm config");
    let detail = AccountMismatchDetail {
        seller_actor_source: owned("farm_config"),
        farm_bound_seller_account_id: owned(bound),
        attempted_seller_account_id: owned(account_id),
        actions: farm_rebind_recovery_actions(account_id),
    };
    proof {
        assert(message@ =~= mismatch_message(bound@, account_id@));
    }
    RuntimeError::Account(AccountRuntimeFailure::mismatch_with_detail(message, detail))
}

/// The farm draft `farm create` writes for `account`: each value given wins when it is not blank,
/// then the existing config's, then what the account offers. A config bound to another seller
/// account is refused. A new farm without a given d-tag takes the one generated from `nanos`
/// and `counter`.
pub fn init_document(
    scope: FarmConfigScope,
    account: &SellerAccount,
    existing: Option<&ResolvedFarmConfig>,
    args: &FarmCreateArgs,
    nanos: u128,
    counter: u128,
) -> (r: Result<FarmConfigDocument, RuntimeError>)
    ensures
        bound_elsewhere(existing_doc(existing), account.id@) ==> (r matches Err(
            RuntimeError::Account(AccountRuntimeFailure::MismatchWithDetail(m, detail)),
        ) && m@ == mismatch_message(existing_doc(existing)->0.selection.account@, account.id@)
            && detail.seller_actor_source@ == "farm_config"@ && detail.farm_bound_seller_account_id@
            == existing_doc(existing)->0.selection.account@ && detail.attempted_seller_account_id@
            == account.id@ && strings_view(detail.actions@) == seq![
            "radroots --dry-run account select "@ + account.id@,
            "radroots account select "@ + account.id@,
        ]),
        !bound_elsewhere(existing_doc(existing), account.id@) ==> match chosen_d_tag(
            existing_doc(existing),
            *args,
            base64url(be_bytes(nanos ^ counter)),
        ) {
            Err(m) => is_config_err(r, m),
            Ok(t) => r matches Ok(doc) && doc.view_of() == drafted_view(scope, *account, existing_doc(existing), *args, t),
        },
{
    let existing_document: Option<&FarmConfigDocument> = match existing {
        Some(resolved) => Some(&resolved.document),
        None => None,
    };
    let ghost e = existing_doc(existing);
    if let Some(document) = existing_document {
        if !crate::text::str_eq(document.selection.account.as_str(), account.id.as_str()) {
            return Err(mismatch_failure(document.selection.account.as_str(), account.id.as_str()));
        }
    }
    let farm_d_tag = match chosen_farm_d_tag(existing_document, args, nanos, counter) {
        Ok(t) => t,
        Err(err) => {
            return Err(err);
        },
    };
    let existing_name: Option<String> = match existing_document {
        Some(d) => farm_name(d),
        None => None,
    };
    let existing_location: Option<String> = match existing_document {
        Some(d) => location_primary(d),
        None => None,
    };
    let existing_delivery: Option<String> = match existing_document {
        Some(d) => non_blank_str(d.listing_defaults.delivery_method.as_str()),
        None => None,
    };
    let existing_city: Option<String> = match existing_document {
        Some(d) => place_or(
            match &d.farm.location {
                Some(l) => Some(&l.city),
                None => None,
            },
            &d.listing_defaults.location.city,
        ),
        None => None,
    };
    let existing_region: Option<String> = match existing_document {
        Some(d) => place_or(
            match &d.farm.location {
                Some(l) => Some(&l.region),
                None => None,
            },
            &d.listing_defaults.location.region,
        ),
        None => None,
    };
    let existing_country: Option<String> = match existing_document {
        Some(d) => place_or(
            match &d.farm.location {
                Some(l) => Some(&l.country),
                None => None,
            },
            &d.listing_defaults.location.country,
        ),
        None => None,
    };
    let existing_geohash: Option<String> = match existing_document {
        Some(d) => opt_non_blank_str(&d.listing_defaults.location.geohash),
        None => None,
    };
    let none: Option<String> = None;
    let name = text_or_empty_exec(
        or_else_text(optional_arg_or_existing(&args.name, &existing_name), draft_name_from_account(account)),
    );
    let display_name = or_else_text(
        optional_arg_or_existing(
            &args.display_name,
            match existing_document {
                Some(d) => &d.profile.display_name,
                None => &none,
            },
        ),
        non_blank_str(name.as_str()),
    );
    let about = optional_arg_or_existing(
        &args.about,
        match existing_document {
            Some(d) => &d.profile.about,
            None => &none,
        },
    );
    let website = optional_arg_or_existing(
        &args.website,
        match existing_document {
            Some(d) => &d.profile.website,
            None => &none,
        },
    );
    let picture = optional_arg_or_existing(
        &args.picture,
        match existing_document {
            Some(d) => &d.profile.picture,
            None => &none,
        },
    );
    let banner = optional_arg_or_existing(
        &args.banner,
        match existing_document {
            Some(d) => &d.profile.banner,
            None => &none,
        },
    );
    let location_primary = text_or_empty_exec(optional_arg_or_existing(&args.location, &existing_location));
    let city = optional_arg_or_existing(&args.city, &existing_city);
    let region = optional_arg_or_existing(&args.region, &existing_region);
    let country = optional_arg_or_existing(&args.country, &existing_country);
    let geohash = optional_arg_or_existing(&args.geohash, &existing_geohash);
    let delivery_method = text_or_empty_exec(optional_arg_or_existing(&args.delivery_method, &existing_delivery));
    let publication = publication_for_document(existing_document, account, farm_d_tag.as_str());
    let document = FarmConfigDocument {
        version: SUPPORTED_FARM_CONFIG_VERSION,
        selection: FarmConfigSelection { scope, account: account.id.clone(), farm_d_tag: farm_d_tag.clone() },
        profile: FarmProfile {
            name: name.clone(),
            display_name,
            nip05: None,
            about: clone_text(&about),
            website: clone_text(&website),
            picture: clone_text(&picture),
            banner: clone_text(&banner),
            lud06: None,
            lud16: None,
            bot: None,
        },
        farm: FarmRecord {
            d_tag: farm_d_tag,
            name,
            about,
            website,
            picture,
            banner,
            location: Some(
                FarmLocation {
                    primary: Some(location_primary.clone()),
                    city: clone_text(&city),
                    region: clone_text(&region),
                    country: clone_text(&country),
                },
            ),
            tags: None,
        },
        listing_defaults: FarmListingDefaults {
            delivery_method,
            location: ListingLocation { primary: location_primary, city, region, country, geohash },
        },
        publication,
    };
    proof {
        assert(document.view_of() == drafted_view(scope, *account, e, *args, document.farm.d_tag@));
    }
    Ok(document)
}

} // verus!
