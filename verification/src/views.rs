use vstd::prelude::*;

use crate::accounts::{AccountResolutionView, AccountSummaryView};

verus! {

/// One readiness check.
#[derive(Debug, Clone, PartialEq, Eq)]
pub struct DoctorCheckView {
    pub name: String,
    pub status: String,
    pub detail: String,
}

/// What `doctor` shows.
#[derive(Debug, Clone, PartialEq, Eq)]
pub struct DoctorView {
    pub ok: bool,
    pub state: String,
    pub account_resolution: AccountResolutionView,
    pub checks: Vec<DoctorCheckView>,
    pub source: String,
    pub actions: Vec<String>,
}

/// A public identity by its key.
#[derive(Debug, Clone, PartialEq, Eq)]
pub struct PublicIdentityView {
    pub public_key_hex: String,
    pub public_key_npub: String,
}

/// The local signer myc can use.
#[derive(Debug, Clone, PartialEq, Eq)]
pub struct LocalSignerStatusView {
    pub account_id: String,
    pub public_identity: PublicIdentityView,
    pub availability: String,
    pub secret_backed: bool,
    pub backend: String,
    pub used_fallback: bool,
}

/// An identity in a remote session.
#[derive(Debug, Clone, PartialEq, Eq)]
pub struct MycIdentityView {
    pub id: String,
    pub public_key_npub: String,
}

/// One remote signer session myc holds.
#[derive(Debug, Clone, PartialEq, Eq)]
pub struct MycRemoteSessionView {
    pub connection_id: String,
    pub signer_identity: MycIdentityView,
    pub user_identity: MycIdentityView,
    pub relay_count: usize,
    pub permissions: Vec<String>,
}

/// One identity myc keeps in custody.
#[derive(Debug, Clone, PartialEq, Eq)]
pub struct MycCustodyIdentityView {
    pub resolved: bool,
    pub selected_account_id: Option<String>,
    pub selected_account_state: Option<String>,
    pub identity_id: Option<String>,
    pub public_key_hex: Option<String>,
    pub error: Option<String>,
}

/// The identities myc keeps in custody.
#[derive(Debug, Clone, PartialEq, Eq)]
pub struct MycCustodyView {
    pub signer: MycCustodyIdentityView,
    pub user: MycCustodyIdentityView,
    pub discovery_app: Option<MycCustodyIdentityView>,
}

/// What `myc status` shows.
#[derive(Debug, Clone, PartialEq, Eq)]
pub struct MycStatusView {
    pub executable: String,
    pub state: String,
    pub source: String,
    pub service_status: Option<String>,
    pub ready: bool,
    pub reason: Option<String>,
    pub reasons: Vec<String>,
    pub remote_session_count: usize,
    pub local_signer: Option<LocalSignerStatusView>,
    pub remote_sessions: Vec<MycRemoteSessionView>,
    pub custody: Option<MycCustodyView>,
}

/// One configured relay.
#[derive(Debug, Clone, PartialEq, Eq)]
pub struct RelayEntryView {
    pub url: String,
    pub read: bool,
    pub write: bool,
}

/// What `relay ls` shows.
#[derive(Debug, Clone, PartialEq, Eq)]
pub struct RelayListView {
    pub state: String,
    pub source: String,
    pub publish_policy: String,
    pub count: usize,
    pub reason: Option<String>,
    pub relays: Vec<RelayEntryView>,
    pub actions: Vec<String>,
}

/// What `account list` shows.
#[derive(Debug, Clone, PartialEq, Eq)]
pub struct AccountListView {
    pub source: String,
    pub count: usize,
    pub accounts: Vec<AccountSummaryView>,
    pub actions: Vec<String>,
}

} // verus!
