use vstd::prelude::*;

use crate::bindings::opt_str_view;
use crate::error::{RuntimeError, is_config_err};
use crate::farm::{
    FarmField, account_recovery_actions, apply_field_update, delivery_display,
    farm_bound_seller_recovery_actions, farm_rebind_live_action, field_actions, field_title, field_updated,
    is_published, missing_blocks_listing_defaults, missing_farm_bound_seller_reason, missing_field_actions,
    missing_field_labels, publish_state, required_text, required_text_result, terminal_field_name,
    terminal_field_value,
};
use crate::farm_config::{
    DocumentView, FarmConfigDocument, FarmConfigScope, FarmMissingField, FarmProfile, FarmPublicationStatus,
    FarmRecord, ListingLocation, ResolvedFarmConfig, farm_name, farm_name_of, location_primary,
    location_primary_of, missing_fields, missing_fields_of, non_blank, non_blank_str,
};
use crate::find::{join_strings, join_with};
use crate::text::{concat2, concat3, owned, strings_view, trim, trim_string};

verus! {

/// The source line of farm views.
pub open spec fn farm_source() -> Seq<char> {
    "farm config · local first"@
}

/// Whether the profile and the farm record were published.
#[derive(Debug, Clone, PartialEq, Eq)]
pub struct FarmPublicationView {
    pub profile_state: String,
    pub farm_state: String,
    pub profile_event_id: Option<String>,
    pub farm_event_id: Option<String>,
    pub profile_published_at: Option<u64>,
    pub farm_published_at: Option<u64>,
}

/// The seller account and farm a config is for.
#[derive(Debug, Clone, PartialEq, Eq)]
pub struct FarmSelectionView {
    pub scope: String,
    pub seller_account_id: String,
    pub farm_d_tag: String,
}

/// The defaults new listings take.
#[derive(Debug, Clone, PartialEq, Eq)]
pub struct FarmListingDefaultsView {
    pub delivery_method: String,
    pub location: ListingLocation,
}

/// A whole farm config, as `farm get` shows it.
#[derive(Debug, Clone, PartialEq, Eq)]
pub struct FarmConfigDocumentView {
    pub selection: FarmSelectionView,
    pub profile: FarmProfile,
    pub farm: FarmRecord,
    pub listing_defaults: FarmListingDefaultsView,
    pub publication: FarmPublicationView,
}

/// The short form of a farm config.
#[derive(Debug, Clone, PartialEq, Eq)]
pub struct FarmConfigSummaryView {
    pub scope: String,
    pub path: String,
    pub seller_account_id: String,
    pub seller_pubkey: Option<String>,
    pub seller_actor_source: String,
    pub farm_d_tag: String,
    pub name: String,
    pub location_primary: Option<String>,
    pub delivery_method: String,
    pub publication: FarmPublicationView,
}

/// What `farm get` shows.
#[derive(Debug, Clone, PartialEq, Eq)]
pub struct FarmGetView {
    pub state: String,
    pub source: String,
    pub scope: String,
    pub path: String,
    pub config_present: bool,
    pub document: Option<FarmConfigDocumentView>,
    pub reason: Option<String>,
    pub actions: Vec<String>,
}

/// `published` or `not_published`.
pub open spec fn publication_state(event_id: Option<Seq<char>>, published_at: Option<u64>) -> Seq<char> {
    if is_published(event_id, published_at) {
        "published"@
    } else {
        "not_published"@
    }
}

fn clone_text(o: &Option<String>) -> (r: Option<String>)
    ensures
        r == *o,
{
    match o {
        Some(v) => Some(v.clone()),
        None => None,
    }
}

fn as_str_opt(o: &Option<String>) -> (r: Option<&str>)
    ensures
        match r {
            Some(s) => opt_str_view(*o) == Some(s@),
            None => o is None,
        },
{
    match o {
        Some(s) => Some(s.as_str()),
        None => None,
    }
}

/// Whether `v` shows the publication record `p`: its states, ids and times.
pub open spec fn publication_holds(v: FarmPublicationView, p: FarmPublicationStatus) -> bool {
    &&& v.profile_state@ == publication_state(opt_str_view(p.profile_event_id), p.profile_published_at)
    &&& v.farm_state@ == publication_state(opt_str_view(p.farm_event_id), p.farm_published_at)
    &&& v.profile_event_id == p.profile_event_id
    &&& v.farm_event_id == p.farm_event_id
    &&& v.profile_published_at == p.profile_published_at
    &&& v.farm_published_at == p.farm_published_at
}

/// The publication states of `publication`, with its ids and times.
pub fn publication_view(publication: &FarmPublicationStatus) -> (r: FarmPublicationView)
    ensures
        publication_holds(r, *publication),
{
    let profile_state = publish_state(as_str_opt(&publication.profile_event_id), publication.profile_published_at);
    let farm_state = publish_state(as_str_opt(&publication.farm_event_id), publication.farm_published_at);
    FarmPublicationView {
        profile_state: owned(profile_state),
        farm_state: owned(farm_state),
        profile_event_id: clone_text(&publication.profile_event_id),
        farm_event_id: clone_text(&publication.farm_event_id),
        profile_published_at: publication.profile_published_at,
        farm_published_at: publication.farm_published_at,
    }
}

/// The text of `o`, or nothing.
pub open spec fn text_or_empty(o: Option<Seq<char>>) -> Seq<char> {
    match o {
        Some(v) => v,
        None => seq![],
    }
}

/// The summary of `document`, found at `path` in `scope`, with the seller's public key when the
/// account is in the local store.
pub fn summary_view(
    scope: FarmConfigScope,
    path: String,
    document: &FarmConfigDocument,
    account_pubkey: Option<String>,
) -> (r: FarmConfigSummaryView)
    ensures
        r.scope@ == scope.name(),
        r.path == path,
        r.seller_account_id == document.selection.account,
        r.seller_pubkey == account_pubkey,
        r.seller_actor_source@ == "farm_config"@,
        r.farm_d_tag == document.selection.farm_d_tag,
        r.name@ == text_or_empty(farm_name_of(*document)),
        opt_str_view(r.location_primary) == location_primary_of(*document),
        r.delivery_method@ == text_or_empty(non_blank(document.listing_defaults.delivery_method@)),
        publication_holds(r.publication, document.publication),
{
    let name = match farm_name(document) {
        Some(n) => n,
        None => String::new(),
    };
    let delivery_method = match non_blank_str(document.listing_defaults.delivery_method.as_str()) {
        Some(d) => d,
        None => String::new(),
    };
    FarmConfigSummaryView {
        scope: owned(scope.as_str()),
        path,
        seller_account_id: document.selection.account.clone(),
        seller_pubkey: account_pubkey,
        seller_actor_source: owned("farm_config"),
        farm_d_tag: document.selection.farm_d_tag.clone(),
        name,
        location_primary: location_primary(document),
        delivery_method,
        publication: publication_view(&document.publication),
    }
}

/// The whole of `document` as `farm get` shows it.
pub fn document_view(document: FarmConfigDocument) -> (r: FarmConfigDocumentView)
    ensures
        r.selection.scope@ == document.selection.scope.name(),
        r.selection.seller_account_id == document.selection.account,
        r.selection.farm_d_tag == document.selection.farm_d_tag,
        r.profile == document.profile,
        r.farm == document.farm,
        r.listing_defaults.delivery_method == document.listing_defaults.delivery_method,
        r.listing_defaults.location == document.listing_defaults.location,
        publication_holds(r.publication, document.publication),
{
    let publication = publication_view(&document.publication);
    FarmConfigDocumentView {
        selection: FarmSelectionView {
            scope: owned(document.selection.scope.as_str()),
            seller_account_id: document.selection.account,
            farm_d_tag: document.selection.farm_d_tag,
        },
        profile: document.profile,
        farm: document.farm,
        listing_defaults: FarmListingDefaultsView {
            delivery_method: document.listing_defaults.delivery_method,
            location: document.listing_defaults.location,
        },
        publication,
    }
}

/// What `farm get` reports for the config of `scope` at `path`: the document when one was
/// found, else that there is none and how to create it.
pub fn farm_get_view(scope: FarmConfigScope, path: String, resolved: Option<ResolvedFarmConfig>) -> (r: FarmGetView)
    ensures
        r.source@ == farm_source(),
        match resolved {
            None => {
                &&& r.state@ == "unconfigured"@
                &&& r.scope@ == scope.name()
                &&& r.path == path
                &&& !r.config_present
                &&& r.document is None
                &&& opt_str_view(r.reason) == Some("no farm config found at "@ + path@)
                &&& strings_view(r.actions@) == seq!["radroots farm create"@]
            },
            Some(c) => {
                &&& r.state@ == "ready"@
                &&& r.scope@ == c.scope.name()
                &&& r.path == c.path
                &&& r.config_present
                &&& r.document matches Some(d) && d.profile == c.document.profile && d.farm == c.document.farm
                    && d.listing_defaults.location == c.document.listing_defaults.location
                    && d.listing_defaults.delivery_method == c.document.listing_defaults.delivery_method
                    && d.selection.seller_account_id == c.document.selection.account
                    && d.selection.farm_d_tag == c.document.selection.farm_d_tag
                    && publication_holds(d.publication, c.document.publication)
                &&& r.reason is None
                &&& r.actions@.len() == 0
            },
        },
{
    match resolved {
        None => {
            let reason = concat2("no farm config found at ", path.as_str());
            let mut actions: Vec<String> = Vec::new();
            actions.push(owned("radroots farm create"));
            proof {
                assert(strings_view(actions@) =~= seq!["radroots farm create"@]);
            }
            FarmGetView {
                state: owned("unconfigured"),
                source: owned("farm config · local first"),
                scope: owned(scope.as_str()),
                path,
                config_present: false,
                document: None,
                reason: Some(reason),
                actions,
            }
        },
        Some(c) => FarmGetView {
            state: owned("ready"),
            source: owned("farm config · local first"),
            scope: owned(c.scope.as_str()),
            path: c.path,
            config_present: true,
            document: Some(document_view(c.document)),
            reason: None,
            actions: Vec::new(),
        },
    }
}

/// Whether a farm can be published now, and if not why, what is missing and what to do.
#[derive(Debug, Clone, PartialEq, Eq)]
pub struct FarmPublishReadiness {
    pub state: String,
    pub executable: bool,
    pub reason: Option<String>,
    pub missing: Vec<String>,
    pub actions: Vec<String>,
}

/// The publish facts of the farm-bound seller account, as the local store and signer report
/// them.
#[derive(Debug, Clone, PartialEq, Eq)]
pub struct FarmSellerAccount {
    pub id: String,
    pub pubkey: String,
    pub write_capable: bool,
    pub remote_signer_check: Option<Result<(), String>>,
}

/// Readiness that was not checked.
pub fn readiness_not_checked() -> (r: FarmPublishReadiness)
    ensures
        r.state@ == "not_checked"@,
        !r.executable,
        r.reason is None,
        r.missing@.len() == 0,
        r.actions@.len() == 0,
{
    FarmPublishReadiness {
        state: owned("not_checked"),
        executable: false,
        reason: None,
        missing: Vec::new(),
        actions: Vec::new(),
    }
}

/// The readiness `publish_readiness` decides: a Nostr transport without relays blocks first;
/// with a remote signer, its binding check decides; otherwise the account must hold its secret.
pub open spec fn readiness_holds(r: FarmPublishReadiness, nostr_without_relays: bool, account: FarmSellerAccount) -> bool {
    if nostr_without_relays {
        &&& r.state@ == "unconfigured"@
        &&& !r.executable
        &&& opt_str_view(r.reason) == Some("farm publish requires a configured Nostr transport profile"@)
        &&& strings_view(r.missing@) == seq!["Configured Nostr transport profile"@]
        &&& strings_view(r.actions@) == seq![
            "radroots transport config update --kind nostr --nostr-relay wss://relay.example.com"@,
        ]
    } else {
        match account.remote_signer_check {
            Some(Err(m)) => {
                &&& r.state@ == "unconfigured"@
                &&& !r.executable
                &&& opt_str_view(r.reason) == Some(m@)
                &&& strings_view(r.missing@) == seq!["Remote signer binding"@]
                &&& strings_view(r.actions@) == seq!["radroots signer status"@]
            },
            Some(Ok(())) => {
                &&& r.state@ == "ready"@
                &&& r.executable
                &&& r.reason is None
                &&& r.missing@.len() == 0
                &&& r.actions@.len() == 0
            },
            None => if !account.write_capable {
                &&& r.state@ == "unconfigured"@
                &&& !r.executable
                &&& opt_str_view(r.reason) == Some(
                    "resolved account `"@ + account.id@
                        + "` is watch_only and cannot sign because it is not secret-backed"@,
                )
                &&& strings_view(r.missing@) == seq!["Write-capable farm-bound seller account"@]
                &&& strings_view(r.actions@) == seq!["radroots account create"@]
            } else {
                &&& r.state@ == "ready"@
                &&& r.executable
                &&& r.reason is None
                &&& r.missing@.len() == 0
                &&& strings_view(r.actions@) == seq!["radroots farm publish"@]
            },
        }
    }
}

fn one(s: &str) -> (r: Vec<String>)
    ensures
        strings_view(r@) == seq![s@],
{
    let mut r: Vec<String> = Vec::new();
    r.push(owned(s));
    proof {
        assert(strings_view(r@) =~= seq![s@]);
    }
    r
}

fn unready(reason: String, missing: &str, action: &str) -> (r: FarmPublishReadiness)
    ensures
        r.state@ == "unconfigured"@,
        !r.executable,
        r.reason == Some(reason),
        strings_view(r.missing@) == seq![missing@],
        strings_view(r.actions@) == seq![action@],
{
    FarmPublishReadiness {
        state: owned("unconfigured"),
        executable: false,
        reason: Some(reason),
        missing: one(missing),
        actions: one(action),
    }
}

/// Whether the farm of `account` can be published over the configured transport and signer.
pub fn publish_readiness(nostr_without_relays: bool, account: &FarmSellerAccount) -> (r: FarmPublishReadiness)
    ensures
        readiness_holds(r, nostr_without_relays, *account),
{
    if nostr_without_relays {
        return unready(
            owned("farm publish requires a configured Nostr transport profile"),
            "Configured Nostr transport profile",
            "radroots transport config update --kind nostr --nostr-relay wss://relay.example.com",
        );
    }
    match &account.remote_signer_check {
        Some(Err(m)) => unready(m.clone(), "Remote signer binding", "radroots signer status"),
        Some(Ok(())) => FarmPublishReadiness {
            state: owned("ready"),
            executable: true,
            reason: None,
            missing: Vec::new(),
            actions: Vec::new(),
        },
        None => if !account.write_capable {
            let failure = crate::accounts::AccountRuntimeFailure::watch_only(account.id.as_str());
            unready(failure.message(), "Write-capable farm-bound seller account", "radroots account create")
        } else {
            FarmPublishReadiness {
                state: owned("ready"),
                executable: true,
                reason: None,
                missing: Vec::new(),
                actions: one("radroots farm publish"),
            }
        },
    }
}

/// What `farm status` shows.
#[derive(Debug, Clone, PartialEq, Eq)]
pub struct FarmStatusView {
    pub state: String,
    pub source: String,
    pub scope: String,
    pub path: String,
    pub config_present: bool,
    pub config_valid: bool,
    pub account_state: String,
    pub listing_defaults_state: String,
    pub transport_profile: String,
    pub publish_state: String,
    pub publish_executable: bool,
    pub publish_reason: Option<String>,
    pub config: Option<FarmConfigSummaryView>,
    pub missing: Vec<String>,
    pub reason: Option<String>,
    pub actions: Vec<String>,
}

/// Whether the missing fields keep listings from taking farm defaults.
pub open spec fn blocks_defaults(missing: Seq<FarmMissingField>) -> bool {
    exists|i: int|
        0 <= i < missing.len() && (#[trigger] missing[i] == FarmMissingField::Location || missing[i]
            == FarmMissingField::Delivery)
}

/// What `farm status` reports when a config was found: its account, its missing fields and, when
/// both are in order, whether it can be published.
pub open spec fn found_status_holds(
    r: FarmStatusView,
    c: ResolvedFarmConfig,
    account: Option<FarmSellerAccount>,
    nostr_without_relays: bool,
) -> bool {
    let missing = missing_fields_of(c.document);
    &&& r.scope@ == c.scope.name()
    &&& r.path == c.path
    &&& r.config_present
    &&& r.config_valid
    &&& r.account_state@ == (if account is Some { "ready"@ } else { "missing"@ })
    &&& r.listing_defaults_state@ == (if blocks_defaults(missing) { "missing"@ } else { "ready"@ })
    &&& r.config matches Some(summary) && summary.path == c.path && summary.scope@ == c.scope.name()
        && summary.seller_account_id == c.document.selection.account && summary.seller_pubkey == (match account {
        Some(a) => Some(a.pubkey),
        None => None,
    })
    &&& match account {
        None => {
            &&& r.state@ == "unconfigured"@
            &&& r.publish_state@ == "not_checked"@
            &&& !r.publish_executable
            &&& r.publish_reason is None
            &&& opt_str_view(r.reason) == Some(
                "farm config account `"@ + c.document.selection.account@
                    + "` is not present in the local account store"@,
            )
            &&& strings_view(r.missing@) == seq!["Farm-bound seller account"@]
            &&& strings_view(r.actions@) == seq![
                "radroots account import <path>"@,
                "radroots --dry-run account select <selector>"@,
                "radroots account select <selector>"@,
            ]
        },
        Some(a) => if missing.len() > 0 {
            &&& r.state@ == "unconfigured"@
            &&& r.publish_state@ == "not_checked"@
            &&& !r.publish_executable
            &&& r.publish_reason is None
            &&& opt_str_view(r.reason) == Some("farm draft is missing required fields"@)
            &&& strings_view(r.missing@) == missing.map_values(|f: FarmMissingField| f.label_view())
            &&& strings_view(r.actions@) == field_actions(missing)
        } else {
            exists|p: FarmPublishReadiness|
                #[trigger] readiness_holds(p, nostr_without_relays, a) && r.state@ == (if p.executable {
                    "ready"@
                } else {
                    "unconfigured"@
                }) && r.publish_state == p.state && r.publish_executable == p.executable
                    && r.publish_reason == p.reason && r.reason == p.reason && r.missing@ == p.missing@
                    && r.actions@ == p.actions@
        },
    }
}

/// What `farm status` reports for the config of `scope` at `path`: how far the farm is from being
/// published, given the config that was found, the farm-bound seller account when the local store
/// holds it, and whether a Nostr transport lacks relays.
pub fn farm_status_view(
    scope: FarmConfigScope,
    path: String,
    resolved: Option<ResolvedFarmConfig>,
    account: Option<FarmSellerAccount>,
    nostr_without_relays: bool,
    transport_profile: &str,
) -> (r: FarmStatusView)
    ensures
        r.source@ == farm_source(),
        r.transport_profile@ == transport_profile@,
        match resolved {
            None => {
                &&& r.state@ == "unconfigured"@
                &&& r.scope@ == scope.name()
                &&& r.path == path
                &&& !r.config_present
                &&& !r.config_valid
                &&& r.account_state@ == "not_checked"@
                &&& r.listing_defaults_state@ == "missing"@
                &&& r.publish_state@ == "not_checked"@
                &&& !r.publish_executable
                &&& r.publish_reason is None
                &&& r.config is None
                &&& strings_view(r.missing@) == seq!["Farm draft"@]
                &&& opt_str_view(r.reason) == Some("no farm config found at "@ + path@)
                &&& strings_view(r.actions@) == seq!["radroots farm create"@]
            },
            Some(c) => found_status_holds(r, c, account, nostr_without_relays),
        },
{
    match resolved {
        None => FarmStatusView {
                state: owned("unconfigured"),
                source: owned("farm config · local first"),
                scope: owned(scope.as_str()),
                path: path.clone(),
                config_present: false,
                config_valid: false,
                account_state: owned("not_checked"),
                listing_defaults_state: owned("missing"),
                transport_profile: owned(transport_profile),
                publish_state: owned("not_checked"),
                publish_executable: false,
                publish_reason: None,
                config: None,
                missing: one("Farm draft"),
                reason: Some(concat2("no farm config found at ", path.as_str())),
                actions: one("radroots farm create"),
        },
        Some(c) => found_status(c, account, nostr_without_relays, transport_profile),
    }
}

fn found_status(
    c: ResolvedFarmConfig,
    account: Option<FarmSellerAccount>,
    nostr_without_relays: bool,
    transport_profile: &str,
) -> (r: FarmStatusView)
    ensures
        r.source@ == farm_source(),
        r.transport_profile@ == transport_profile@,
        found_status_holds(r, c, account, nostr_without_relays),
{
    let draft_missing = missing_fields(&c.document);
    let account_state = if account.is_some() { "ready" } else { "missing" };
    let listing_defaults_state = if missing_blocks_listing_defaults(draft_missing.as_slice()) {
        "missing"
    } else {
        "ready"
    };
    let pubkey = match &account {
        Some(a) => Some(a.pubkey.clone()),
        None => None,
    };
    let config = summary_view(c.scope, c.path.clone(), &c.document, pubkey);
    let base = FarmStatusView {
        state: owned("unconfigured"),
        source: owned("farm config · local first"),
        scope: owned(c.scope.as_str()),
        path: c.path,
        config_present: true,
        config_valid: true,
        account_state: owned(account_state),
        listing_defaults_state: owned(listing_defaults_state),
        transport_profile: owned(transport_profile),
        publish_state: owned("not_checked"),
        publish_executable: false,
        publish_reason: None,
        config: Some(config),
        missing: Vec::new(),
        reason: None,
        actions: Vec::new(),
    };
    match &account {
        None => {
            let reason = concat3(
                "farm config account `",
                c.document.selection.account.as_str(),
                "` is not present in the local account store",
            );
            let actions = farm_bound_seller_recovery_actions("<selector>");
            proof {
                reveal_strlit("<selector>");
                reveal_strlit("radroots --dry-run account select ");
                reveal_strlit("radroots account select ");
                reveal_strlit("radroots --dry-run account select <selector>");
                reveal_strlit("radroots account select <selector>");
                assert("radroots --dry-run account select "@ + "<selector>"@
                    =~= "radroots --dry-run account select <selector>"@);
                assert("radroots account select "@ + "<selector>"@ =~= "radroots account select <selector>"@);
                assert(strings_view(actions@) =~= seq![
                    "radroots account import <path>"@,
                    "radroots --dry-run account select <selector>"@,
                    "radroots account select <selector>"@,
                ]);
            }
            FarmStatusView {
                reason: Some(reason),
                missing: one("Farm-bound seller account"),
                actions,
                ..base
            }
        },
        Some(a) => if draft_missing.len() > 0 {
            FarmStatusView {
                reason: Some(owned("farm draft is missing required fields")),
                missing: missing_field_labels(draft_missing.as_slice()),
                actions: missing_field_actions(draft_missing.as_slice()),
                ..base
            }
        } else {
            let p = publish_readiness(nostr_without_relays, a);
            let ghost pg = p;
            let r = FarmStatusView {
                state: owned(if p.executable { "ready" } else { "unconfigured" }),
                publish_state: p.state,
                publish_executable: p.executable,
                publish_reason: clone_text(&p.reason),
                reason: p.reason,
                missing: p.missing,
                actions: p.actions,
                ..base
            };
            proof {
                assert(readiness_holds(pg, nostr_without_relays, *a));
            }
            r
        },
    }
}

/// What `farm create` reports.
#[derive(Debug, Clone, PartialEq, Eq)]
pub struct FarmSetupView {
    pub state: String,
    pub source: String,
    pub config: Option<FarmConfigSummaryView>,
    pub reason: Option<String>,
    pub actions: Vec<String>,
}

/// What `farm set` reports.
#[derive(Debug, Clone, PartialEq, Eq)]
pub struct FarmSetView {
    pub state: String,
    pub source: String,
    pub field: String,
    pub value: String,
    pub config: Option<FarmConfigSummaryView>,
    pub reason: Option<String>,
    pub actions: Vec<String>,
}

/// The setup when no account is selected: choose or create one first.
pub fn missing_selected_account_setup_view() -> (r: FarmSetupView)
    ensures
        r.state@ == "unconfigured"@,
        r.source@ == farm_source(),
        r.config is None,
        opt_str_view(r.reason) == Some("choose or create an account before setting up your farm"@),
        strings_view(r.actions@) == seq!["radroots account create"@],
{
    FarmSetupView {
        state: owned("unconfigured"),
        source: owned("farm config · local first"),
        config: None,
        reason: Some(owned("choose or create an account before setting up your farm")),
        actions: one("radroots account create"),
    }
}

/// The next steps after a farm draft changed: look at it; without the farm-bound seller account,
/// recover it; with a complete draft that can be published, publish.
pub fn farm_setup_actions(
    document: &FarmConfigDocument,
    account: Option<&FarmSellerAccount>,
    nostr_without_relays: bool,
) -> (r: Vec<String>)
    ensures
        match account {
            None => strings_view(r@) == seq![
                "radroots farm get"@,
                "radroots account import <path>"@,
                "radroots --dry-run account select <selector>"@,
                "radroots account select <selector>"@,
            ],
            Some(a) => if missing_fields_of(*document).len() == 0 && (exists|p: FarmPublishReadiness|
                #[trigger] readiness_holds(p, nostr_without_relays, *a) && p.executable) {
                strings_view(r@) == seq!["radroots farm get"@, "radroots farm publish"@]
            } else {
                strings_view(r@) == seq!["radroots farm get"@]
            },
        },
{
    let mut actions = one("radroots farm get");
    match account {
        None => {
            let recovery = farm_bound_seller_recovery_actions("<selector>");
            let mut i: usize = 0;
            while i < recovery.len()
                invariant
                    i <= recovery@.len(),
                    strings_view(actions@) == seq!["radroots farm get"@] + strings_view(recovery@).take(i as int),
                decreases recovery@.len() - i,
            {
                let ghost before = actions@;
                actions.push(recovery[i].clone());
                proof {
                    assert(strings_view(actions@) =~= strings_view(before).push(recovery@[i as int]@));
                    assert(strings_view(recovery@).take(i + 1) =~= strings_view(recovery@).take(i as int).push(
                        recovery@[i as int]@,
                    ));
                    assert(strings_view(actions@) =~= seq!["radroots farm get"@] + strings_view(recovery@).take(i + 1));
                }
                i += 1;
            }
            proof {
                reveal_strlit("<selector>");
                reveal_strlit("radroots --dry-run account select ");
                reveal_strlit("radroots account select ");
                reveal_strlit("radroots --dry-run account select <selector>");
                reveal_strlit("radroots account select <selector>");
                assert("radroots --dry-run account select "@ + "<selector>"@
                    =~= "radroots --dry-run account select <selector>"@);
                assert("radroots account select "@ + "<selector>"@ =~= "radroots account select <selector>"@);
                assert(strings_view(recovery@).take(recovery@.len() as int) =~= strings_view(recovery@));
                assert(strings_view(actions@) =~= seq![
                    "radroots farm get"@,
                    "radroots account import <path>"@,
                    "radroots --dry-run account select <selector>"@,
                    "radroots account select <selector>"@,
                ]);
            }
        },
        Some(a) => {
            let missing = missing_fields(document);
            if missing.len() == 0 {
                let p = publish_readiness(nostr_without_relays, a);
                if p.executable {
                    let ghost before = actions@;
                    actions.push(owned("radroots farm publish"));
                    proof {
                        assert(strings_view(actions@) =~= strings_view(before).push("radroots farm publish"@));
                        assert(strings_view(actions@) =~= seq!["radroots farm get"@, "radroots farm publish"@]);
                    }
                } else {
                    proof {
                        assert forall|q: FarmPublishReadiness| #[trigger] readiness_holds(q, nostr_without_relays, *a) implies !q.executable by {
                            lemma_readiness_executable(p, q, nostr_without_relays, *a);
                        }
                    }
                }
            }
        },
    }
    actions
}

/// Readiness is decided by its facts: two readiness reports for the same facts agree on whether
/// the farm can be published.
proof fn lemma_readiness_executable(p: FarmPublishReadiness, q: FarmPublishReadiness, nostr_without_relays: bool, a: FarmSellerAccount)
    requires
        readiness_holds(p, nostr_without_relays, a),
        readiness_holds(q, nostr_without_relays, a),
    ensures
        p.executable == q.executable,
{
}

/// What `farm set` decided: the view, and the updated document to write unless it was a dry run.
#[derive(Debug, Clone, PartialEq, Eq)]
pub struct FarmSetOutcome {
    pub view: FarmSetView,
    pub document: Option<FarmConfigDocument>,
}

/// Why the seller account is missing, as `farm set` reports it.
pub open spec fn set_reason(account_id: Seq<char>, present: bool, dry_run: bool) -> Option<Seq<char>> {
    let missing = "farm-bound seller account `"@ + account_id + "` is not present in the local account store"@;
    if dry_run {
        if present {
            Some("dry run requested; farm draft was not written"@)
        } else {
            Some("dry run requested; farm draft was not written; "@ + missing)
        }
    } else if present {
        None
    } else {
        Some(missing)
    }
}

/// The outcome of `farm set` on the config `c` with the trimmed value `v`.
pub open spec fn set_outcome_holds(
    o: FarmSetOutcome,
    c: ResolvedFarmConfig,
    field: FarmField,
    v: Seq<char>,
    account_present: bool,
    dry_run: bool,
) -> bool {
    &&& o.view.state@ == (if dry_run { "dry_run"@ } else { "updated"@ })
    &&& o.view.source@ == farm_source()
    &&& o.view.field@ == field_title(field)
    &&& o.view.value@ == (if field == FarmField::Delivery { delivery_display(v) } else { v })
    &&& opt_str_view(o.view.reason) == set_reason(c.document.selection.account@, account_present, dry_run)
    &&& o.view.config matches Some(summary)
    &&& summary.path == c.path
    &&& summary.scope@ == c.scope.name()
    &&& if dry_run {
        o.document is None
    } else {
        &&& o.document matches Some(d)
        &&& d.view_of() == field_updated(c.document.view_of(), field, v)
    }
}

/// `farm set field words...`: the words joined by spaces and trimmed become the field's new
/// value in the config of `scope` at `path`; blank text is refused. Without a config there is
/// nothing to change. A dry run reports the change without handing back a document to write.
pub fn farm_set(
    field: FarmField,
    words: &Vec<String>,
    scope: FarmConfigScope,
    path: String,
    resolved: Option<ResolvedFarmConfig>,
    account: Option<FarmSellerAccount>,
    nostr_without_relays: bool,
    dry_run: bool,
) -> (r: Result<FarmSetOutcome, RuntimeError>)
    ensures
        match resolved {
            None => r matches Ok(o) && o.document is None && o.view.state@ == "unconfigured"@
                && o.view.source@ == farm_source() && o.view.field@ == field_title(field) && o.view.value@
                == (if field == FarmField::Delivery {
                delivery_display(trim(join_with(strings_view(words@), " "@)))
            } else {
                trim(join_with(strings_view(words@), " "@))
            }) && o.view.config is None && opt_str_view(o.view.reason) == Some("no farm draft found at "@ + path@)
                && strings_view(o.view.actions@) == seq!["radroots farm create"@],
            Some(c) => match required_text_result(join_with(strings_view(words@), " "@), "farm set value"@) {
                Err(m) => is_config_err(r, m),
                Ok(v) => r matches Ok(o) && set_outcome_holds(o, c, field, v, account is Some, dry_run),
            },
        },
{
    let joined = join_strings(words, " ");
    match resolved {
        None => {
            let trimmed = trim_string(joined.as_str());
            let view = FarmSetView {
                state: owned("unconfigured"),
                source: owned("farm config · local first"),
                field: owned(terminal_field_name(field)),
                value: terminal_field_value(field, trimmed.as_str()),
                config: None,
                reason: Some(concat2("no farm draft found at ", path.as_str())),
                actions: one("radroots farm create"),
            };
            Ok(FarmSetOutcome { view, document: None })
        },
        Some(c) => set_found(field, joined, c, account, nostr_without_relays, dry_run),
    }
}

fn set_found(
    field: FarmField,
    joined: String,
    c: ResolvedFarmConfig,
    account: Option<FarmSellerAccount>,
    nostr_without_relays: bool,
    dry_run: bool,
) -> (r: Result<FarmSetOutcome, RuntimeError>)
    ensures
        match required_text_result(joined@, "farm set value"@) {
            Err(m) => is_config_err(r, m),
            Ok(v) => r matches Ok(o) && set_outcome_holds(o, c, field, v, account is Some, dry_run),
        },
{
    let mut c = c;
    let ghost original = c;
    let value = match required_text(joined.as_str(), "farm set value") {
        Ok(v) => v,
        Err(e) => {
            return Err(e);
        },
    };
    proof {
        crate::text::lemma_trim_idempotent(joined@);
    }
    match apply_field_update(&mut c.document, field, value.as_str()) {
        Ok(()) => {},
        Err(e) => {
            return Err(e);
        },
    }
    let present = account.is_some();
    let missing_reason = missing_farm_bound_seller_reason(c.document.selection.account.as_str());
    let reason = if dry_run {
        if present {
            Some(owned("dry run requested; farm draft was not written"))
        } else {
            Some(concat2("dry run requested; farm draft was not written; ", missing_reason.as_str()))
        }
    } else if present {
        None
    } else {
        Some(missing_reason)
    };
    let pubkey = match &account {
        Some(a) => Some(a.pubkey.clone()),
        None => None,
    };
    let actions = farm_setup_actions(
        &c.document,
        match &account {
            Some(a) => Some(a),
            None => None,
        },
        nostr_without_relays,
    );
    let config = summary_view(c.scope, c.path.clone(), &c.document, pubkey);
    let view = FarmSetView {
        state: owned(if dry_run { "dry_run" } else { "updated" }),
        source: owned("farm config · local first"),
        field: owned(terminal_field_name(field)),
        value: terminal_field_value(field, value.as_str()),
        config: Some(config),
        reason,
        actions,
    };
    proof {
        assert(c.document.selection.account@ == original.document.selection.account@);
    }
    if dry_run {
        Ok(FarmSetOutcome { view, document: None })
    } else {
        Ok(FarmSetOutcome { view, document: Some(c.document) })
    }
}

/// What `farm rebind` reports.
#[derive(Debug, Clone, PartialEq, Eq)]
pub struct FarmRebindView {
    pub state: String,
    pub source: String,
    pub scope: String,
    pub path: String,
    pub config_present: bool,
    pub dry_run: bool,
    pub seller_actor_source: String,
    pub from_seller_account_id: Option<String>,
    pub from_seller_pubkey: Option<String>,
    pub to_seller_account_id: Option<String>,
    pub to_seller_pubkey: Option<String>,
    pub seller_pubkey_changed: Option<bool>,
    pub publication_state_action: Option<String>,
    pub config: Option<FarmConfigSummaryView>,
    pub reason: Option<String>,
    pub actions: Vec<String>,
}

/// What `farm rebind` decided: the view, and the rebound document to write unless it was a dry
/// run or there was no config.
#[derive(Debug, Clone, PartialEq, Eq)]
pub struct FarmRebindOutcome {
    pub view: FarmRebindView,
    pub document: Option<FarmConfigDocument>,
}

/// An account a selector resolved to: its id and public key.
#[derive(Debug, Clone, PartialEq, Eq)]
pub struct SelectedSeller {
    pub id: String,
    pub pubkey: String,
}

/// Whether rebinding from `from` to `to` changes the seller's public key, ignoring ASCII case.
pub open spec fn pubkey_changed(from: Option<Seq<char>>, to: Seq<char>) -> bool {
    match from {
        None => true,
        Some(f) => !crate::text::eq_ignore_ascii_case(f, to),
    }
}

/// The document after rebinding it to the account `id`: the publication record is cleared when
/// the seller's key changed, kept otherwise.
pub open spec fn rebound(d: DocumentView, id: Seq<char>, changed: bool) -> DocumentView {
    if changed {
        DocumentView {
            account: id,
            profile_event_id: None,
            farm_event_id: None,
            profile_published_at: None,
            farm_published_at: None,
            ..d
        }
    } else {
        DocumentView { account: id, ..d }
    }
}

/// The error a selector that resolved no account turns into: an unresolved failure that names
/// the selector and how to recover; other errors pass unchanged.
pub open spec fn selector_error_holds(r: RuntimeError, e: RuntimeError, selector: Seq<char>) -> bool {
    match e {
        RuntimeError::Account(crate::accounts::AccountRuntimeFailure::Unresolved(m)) => r matches RuntimeError::Account(
            crate::accounts::AccountRuntimeFailure::UnresolvedWithDetail(m2, detail),
        ) && m2@ == m@ && detail.seller_actor_source@ == "farm_config"@ && detail.selector@ == selector
            && strings_view(detail.actions@) == seq!["radroots account import <path>"@, "radroots account create"@],
        _ => r == e,
    }
}

/// Turns a failed selector resolution into the error `farm rebind` reports.
pub fn farm_rebind_selector_error(selector: &str, error: RuntimeError) -> (r: RuntimeError)
    ensures
        selector_error_holds(r, error, selector@),
{
    match error {
        RuntimeError::Account(crate::accounts::AccountRuntimeFailure::Unresolved(m)) => {
            let detail = crate::accounts::AccountSelectorDetail {
                seller_actor_source: owned("farm_config"),
                selector: owned(selector),
                actions: account_recovery_actions(),
            };
            RuntimeError::Account(crate::accounts::AccountRuntimeFailure::UnresolvedWithDetail(m, detail))
        },
        other => other,
    }
}

/// The rebind of a found config `c` to the selected account.
pub open spec fn rebind_outcome_holds(
    o: FarmRebindOutcome,
    c: ResolvedFarmConfig,
    from_pubkey: Option<Seq<char>>,
    to: SelectedSeller,
    selector: Seq<char>,
    dry_run: bool,
) -> bool {
    let changed = pubkey_changed(from_pubkey, to.pubkey@);
    &&& o.view.state@ == (if dry_run { "dry_run"@ } else { "rebound"@ })
    &&& o.view.source@ == farm_source()
    &&& o.view.scope@ == c.scope.name()
    &&& o.view.path == c.path
    &&& o.view.config_present
    &&& o.view.dry_run == dry_run
    &&& o.view.seller_actor_source@ == "farm_config"@
    &&& o.view.from_seller_account_id == Some(c.document.selection.account)
    &&& opt_str_view(o.view.from_seller_pubkey) == from_pubkey
    &&& opt_str_view(o.view.to_seller_account_id) == Some(to.id@)
    &&& opt_str_view(o.view.to_seller_pubkey) == Some(to.pubkey@)
    &&& o.view.seller_pubkey_changed == Some(changed)
    &&& opt_str_view(o.view.publication_state_action) == Some(if changed { "cleared"@ } else { "preserved"@ })
    &&& o.view.config matches Some(summary)
    &&& summary.path == c.path
    &&& opt_str_view(summary.seller_pubkey) == Some(to.pubkey@)
    &&& summary.seller_account_id@ == to.id@
    &&& opt_str_view(o.view.reason) == Some(
        if dry_run {
            "dry run requested; farm seller binding was not written"@
        } else {
            "farm seller binding updated"@
        },
    )
    &&& strings_view(o.view.actions@) == (if dry_run {
        seq!["radroots account select "@ + selector]
    } else {
        seq!["radroots farm get"@]
    })
    &&& if dry_run {
        o.document is None
    } else {
        &&& o.document matches Some(d)
        &&& d.view_of() == rebound(c.document.view_of(), to.id@, changed)
    }
}

/// `farm rebind selector`: binds the config of `scope` at `path` to the account the selector
/// resolved to. When the seller's public key changes, the publication record is cleared, since
/// nothing was published under the new key.
pub fn farm_rebind(
    scope: FarmConfigScope,
    path: String,
    resolved: Option<ResolvedFarmConfig>,
    from_pubkey: Option<String>,
    target: Result<SelectedSeller, RuntimeError>,
    selector: &str,
    dry_run: bool,
) -> (r: Result<FarmRebindOutcome, RuntimeError>)
    ensures
        match resolved {
            None => r matches Ok(o) && o.document is None && o.view.state@ == "unconfigured"@
                && o.view.scope@ == scope.name() && o.view.path == path && !o.view.config_present
                && o.view.dry_run == dry_run && o.view.config is None && opt_str_view(o.view.reason) == Some(
                "no farm config found at "@ + path@,
            ) && strings_view(o.view.actions@) == seq!["radroots farm create"@],
            Some(c) => match target {
                Err(e) => r matches Err(x) && selector_error_holds(x, e, selector@),
                Ok(to) => r matches Ok(o) && rebind_outcome_holds(o, c, opt_str_view(from_pubkey), to, selector@, dry_run),
            },
        },
{
    match resolved {
        None => Ok(FarmRebindOutcome {
            view: FarmRebindView {
                state: owned("unconfigured"),
                source: owned("farm config · local first"),
                scope: owned(scope.as_str()),
                path: path.clone(),
                config_present: false,
                dry_run,
                seller_actor_source: owned("farm_config"),
                from_seller_account_id: None,
                from_seller_pubkey: None,
                to_seller_account_id: None,
                to_seller_pubkey: None,
                seller_pubkey_changed: None,
                publication_state_action: None,
                config: None,
                reason: Some(concat2("no farm config found at ", path.as_str())),
                actions: one("radroots farm create"),
            },
            document: None,
        }),
        Some(c) => match target {
            Err(e) => Err(farm_rebind_selector_error(selector, e)),
            Ok(to) => Ok(rebind_found(c, from_pubkey, to, selector, dry_run)),
        },
    }
}

fn rebind_found(
    c: ResolvedFarmConfig,
    from_pubkey: Option<String>,
    to: SelectedSeller,
    selector: &str,
    dry_run: bool,
) -> (o: FarmRebindOutcome)
    ensures
        rebind_outcome_holds(o, c, opt_str_view(from_pubkey), to, selector@, dry_run),
{
    let changed = match &from_pubkey {
        None => true,
        Some(f) => !crate::text::str_eq_ignore_ascii_case(f.as_str(), to.pubkey.as_str()),
    };
    let from_account = c.document.selection.account.clone();
    let mut document = c.document;
    document.selection.account = to.id.clone();
    if changed {
        document.publication = FarmPublicationStatus {
            profile_event_id: None,
            farm_event_id: None,
            profile_published_at: None,
            farm_published_at: None,
        };
    }
    let config = summary_view(c.scope, c.path.clone(), &document, Some(to.pubkey.clone()));
    let actions = if dry_run {
        let mut a: Vec<String> = Vec::new();
        a.push(farm_rebind_live_action(selector));
        proof {
            assert(strings_view(a@) =~= seq!["radroots account select "@ + selector@]);
        }
        a
    } else {
        one("radroots farm get")
    };
    let view = FarmRebindView {
        state: owned(if dry_run { "dry_run" } else { "rebound" }),
        source: owned("farm config · local first"),
        scope: owned(c.scope.as_str()),
        path: c.path,
        config_present: true,
        dry_run,
        seller_actor_source: owned("farm_config"),
        from_seller_account_id: Some(from_account),
        from_seller_pubkey: from_pubkey,
        to_seller_account_id: Some(to.id),
        to_seller_pubkey: Some(to.pubkey),
        seller_pubkey_changed: Some(changed),
        publication_state_action: Some(owned(if changed { "cleared" } else { "preserved" })),
        config: Some(config),
        reason: Some(
            owned(
                if dry_run {
                    "dry run requested; farm seller binding was not written"
                } else {
                    "farm seller binding updated"
                },
            ),
        ),
        actions,
    };
    if dry_run {
        FarmRebindOutcome { view, document: None }
    } else {
        FarmRebindOutcome { view, document: Some(document) }
    }
}

} // verus!
