use vstd::prelude::*;

use crate::bindings::opt_str_view;
use crate::text::{concat2, concat3, owned};

verus! {

/// Why the runtime cannot act for an account.
#[derive(Debug, Clone, PartialEq, Eq)]
pub enum AccountRuntimeFailure {
    Unresolved(String),
    WatchOnly(String),
    Mismatch(String),
    MismatchWithDetail(String, AccountMismatchDetail),
    UnresolvedWithDetail(String, AccountSelectorDetail),
}

/// The structured detail of a selector that named no account: where the seller comes from, the
/// selector, and how to recover.
#[derive(Debug, Clone, PartialEq, Eq)]
pub struct AccountSelectorDetail {
    pub seller_actor_source: String,
    pub selector: String,
    pub actions: Vec<String>,
}

/// The structured detail of an account mismatch: which account the farm is bound to, which one
/// was selected, and how to recover.
#[derive(Debug, Clone, PartialEq, Eq)]
pub struct AccountMismatchDetail {
    pub seller_actor_source: String,
    pub farm_bound_seller_account_id: String,
    pub attempted_seller_account_id: String,
    pub actions: Vec<String>,
}

impl AccountRuntimeFailure {
    /// No account could be resolved, for the reason `message`.
    pub fn unresolved(message: String) -> (r: AccountRuntimeFailure)
        ensures
            r matches AccountRuntimeFailure::Unresolved(m) && m@ == message@,
    {
        AccountRuntimeFailure::Unresolved(message)
    }

    /// The resolved account `account_id` holds no secret and cannot sign.
    pub fn watch_only(account_id: &str) -> (r: AccountRuntimeFailure)
        ensures
            r matches AccountRuntimeFailure::WatchOnly(m) && m@ == "resolved account `"@ + account_id@
                + "` is watch_only and cannot sign because it is not secret-backed"@,
    {
        AccountRuntimeFailure::WatchOnly(
            concat3(
                "resolved account `",
                account_id,
                "` is watch_only and cannot sign because it is not secret-backed",
            ),
        )
    }

    /// The account does not match what was required, for the reason `message`.
    pub fn mismatch(message: String) -> (r: AccountRuntimeFailure)
        ensures
            r matches AccountRuntimeFailure::Mismatch(m) && m@ == message@,
    {
        AccountRuntimeFailure::Mismatch(message)
    }

    /// The account does not match what was required, for the reason `message`, with `detail`.
    pub fn mismatch_with_detail(message: String, detail: AccountMismatchDetail) -> (r: AccountRuntimeFailure)
        ensures
            r matches AccountRuntimeFailure::MismatchWithDetail(m, d) && m@ == message@ && d == detail,
    {
        AccountRuntimeFailure::MismatchWithDetail(message, detail)
    }

    pub open spec fn message_view(self) -> Seq<char> {
        match self {
            AccountRuntimeFailure::Unresolved(m) => m@,
            AccountRuntimeFailure::WatchOnly(m) => m@,
            AccountRuntimeFailure::Mismatch(m) => m@,
            AccountRuntimeFailure::MismatchWithDetail(m, _) => m@,
            AccountRuntimeFailure::UnresolvedWithDetail(m, _) => m@,
        }
    }

    /// The failure's message.
    pub fn message(&self) -> (r: String)
        ensures
            r@ == self.message_view(),
    {
        match self {
            AccountRuntimeFailure::Unresolved(m) => m.clone(),
            AccountRuntimeFailure::WatchOnly(m) => m.clone(),
            AccountRuntimeFailure::Mismatch(m) => m.clone(),
            AccountRuntimeFailure::MismatchWithDetail(m, _) => m.clone(),
            AccountRuntimeFailure::UnresolvedWithDetail(m, _) => m.clone(),
        }
    }
}

/// Whether an account holds its secret or only its public key.
#[derive(Debug, Clone, Copy, PartialEq, Eq, Structural)]
pub enum AccountCustody {
    SecretBacked,
    WatchOnly,
}

impl AccountCustody {
    pub open spec fn name(self) -> Seq<char> {
        match self {
            AccountCustody::SecretBacked => "secret_backed"@,
            AccountCustody::WatchOnly => "watch_only"@,
        }
    }

    /// The custody's name.
    pub fn as_str(self) -> (r: &'static str)
        ensures
            r@ == self.name(),
    {
        match self {
            AccountCustody::SecretBacked => "secret_backed",
            AccountCustody::WatchOnly => "watch_only",
        }
    }

    pub open spec fn signer_name(self) -> Seq<char> {
        match self {
            AccountCustody::SecretBacked => "local"@,
            AccountCustody::WatchOnly => "watch_only"@,
        }
    }

    /// The signer an account of this custody uses.
    pub fn signer_label(self) -> (r: &'static str)
        ensures
            r@ == self.signer_name(),
    {
        match self {
            AccountCustody::SecretBacked => "local",
            AccountCustody::WatchOnly => "watch_only",
        }
    }
}

/// Whether the secret backend can be used, and which one.
#[derive(Debug, Clone, PartialEq, Eq)]
pub struct AccountSecretBackendStatus {
    pub state: String,
    pub active_backend: Option<String>,
    pub used_fallback: bool,
    pub reason: Option<String>,
}

/// Whether an account was made fresh or carried over.
#[derive(Debug, Clone, Copy, PartialEq, Eq, Structural)]
pub enum AccountCreateMode {
    Created,
    Migrated,
}

/// Where the account a command acts for came from.
#[derive(Debug, Clone, Copy, PartialEq, Eq, Structural)]
pub enum AccountResolutionSource {
    InvocationOverride,
    DefaultAccount,
    Unresolved,
}

impl AccountResolutionSource {
    pub open spec fn name(self) -> Seq<char> {
        match self {
            AccountResolutionSource::InvocationOverride => "invocation_override"@,
            AccountResolutionSource::DefaultAccount => "default_account"@,
            AccountResolutionSource::Unresolved => "none"@,
        }
    }

    /// The source's name.
    pub fn as_str(self) -> (r: &'static str)
        ensures
            r@ == self.name(),
    {
        match self {
            AccountResolutionSource::InvocationOverride => "invocation_override",
            AccountResolutionSource::DefaultAccount => "default_account",
            AccountResolutionSource::Unresolved => "none",
        }
    }
}

/// One account as commands show it.
#[derive(Debug, Clone, PartialEq, Eq)]
pub struct AccountSummaryView {
    pub id: String,
    pub display_name: Option<String>,
    pub signer: String,
    pub is_default: bool,
}

/// Which account a command acts for, and the default.
#[derive(Debug, Clone, PartialEq, Eq)]
pub struct AccountResolutionView {
    pub source: String,
    pub resolved_account: Option<AccountSummaryView>,
    pub default_account: Option<AccountSummaryView>,
}

/// The summary of account `id` in custody `custody`.
pub fn account_summary_view(
    id: &str,
    display_name: Option<String>,
    custody: AccountCustody,
    is_default: bool,
) -> (r: AccountSummaryView)
    ensures
        r.id@ == id@,
        opt_str_view(r.display_name) == opt_str_view(display_name),
        r.signer@ == custody.signer_name(),
        r.is_default == is_default,
{
    AccountSummaryView { id: owned(id), display_name, signer: owned(custody.signer_label()), is_default }
}

/// A resolution that found no account.
pub fn empty_account_resolution_view() -> (r: AccountResolutionView)
    ensures
        r.source@ == "none"@,
        r.resolved_account is None,
        r.default_account is None,
{
    AccountResolutionView {
        source: owned(AccountResolutionSource::Unresolved.as_str()),
        resolved_account: None,
        default_account: None,
    }
}

/// Why no account could be resolved from the store at `store_path` holding `account_count`
/// accounts.
pub open spec fn unresolved_reason(account_count: nat, store_path: Seq<char>) -> Seq<char> {
    if account_count == 0 {
        "no local accounts found in "@ + store_path
    } else {
        "accounts exist in "@ + store_path
            + " but no default account is configured and no invocation override was provided"@
    }
}

/// Why no account could be resolved.
pub fn unresolved_account_reason(account_count: usize, store_path: &str) -> (r: String)
    ensures
        r@ == unresolved_reason(account_count as nat, store_path@),
{
    if account_count == 0 {
        concat2("no local accounts found in ", store_path)
    } else {
        concat3(
            "accounts exist in ",
            store_path,
            " but no default account is configured and no invocation override was provided",
        )
    }
}

/// Why the secret backend could not be resolved.
#[derive(Debug, Clone, PartialEq, Eq)]
pub enum SecretBackendResolutionError {
    Unavailable(String),
    Invalid(String),
}

/// The backend that was resolved: its kind and whether the fallback was used.
#[derive(Debug, Clone, PartialEq, Eq)]
pub struct ResolvedSecretBackend {
    pub kind: String,
    pub used_fallback: bool,
}

/// The status of the secret backend given how its resolution went.
pub fn secret_backend_status(resolved: Result<ResolvedSecretBackend, SecretBackendResolutionError>) -> (r:
    AccountSecretBackendStatus)
    ensures
        match resolved {
            Ok(b) => r.state@ == "ready"@ && opt_str_view(r.active_backend) == Some(b.kind@)
                && r.used_fallback == b.used_fallback && r.reason is None,
            Err(SecretBackendResolutionError::Unavailable(m)) => r.state@ == "unavailable"@
                && r.active_backend is None && !r.used_fallback && opt_str_view(r.reason) == Some(m@),
            Err(SecretBackendResolutionError::Invalid(m)) => r.state@ == "error"@
                && r.active_backend is None && !r.used_fallback && opt_str_view(r.reason) == Some(m@),
        },
{
    match resolved {
        Ok(b) => AccountSecretBackendStatus {
            state: owned("ready"),
            active_backend: Some(b.kind),
            used_fallback: b.used_fallback,
            reason: None,
        },
        Err(SecretBackendResolutionError::Unavailable(m)) => AccountSecretBackendStatus {
            state: owned("unavailable"),
            active_backend: None,
            used_fallback: false,
            reason: Some(m),
        },
        Err(SecretBackendResolutionError::Invalid(m)) => AccountSecretBackendStatus {
            state: owned("error"),
            active_backend: None,
            used_fallback: false,
            reason: Some(m),
        },
    }
}

/// A copy of an account summary.
pub fn clone_account_summary(a: &AccountSummaryView) -> (r: AccountSummaryView)
    ensures
        r == *a,
{
    AccountSummaryView {
        id: a.id.clone(),
        display_name: match &a.display_name {
            Some(n) => Some(n.clone()),
            None => None,
        },
        signer: a.signer.clone(),
        is_default: a.is_default,
    }
}

/// The index of the first default account of `accounts`, if any.
pub open spec fn first_default_index(accounts: Seq<AccountSummaryView>) -> Option<int>
    decreases accounts.len(),
{
    if accounts.len() == 0 {
        None
    } else if accounts[0].is_default {
        Some(0)
    } else {
        match first_default_index(accounts.drop_first()) {
            Some(i) => Some(i + 1),
            None => None,
        }
    }
}

/// The first default account of `accounts`, if any.
pub open spec fn first_default(accounts: Seq<AccountSummaryView>) -> Option<AccountSummaryView> {
    match first_default_index(accounts) {
        Some(i) => Some(accounts[i]),
        None => None,
    }
}

proof fn lemma_first_default_index(accounts: Seq<AccountSummaryView>)
    ensures
        first_default_index(accounts) matches Some(i) ==> 0 <= i < accounts.len() && accounts[i].is_default,
    decreases accounts.len(),
{
    if accounts.len() > 0 && !accounts[0].is_default {
        lemma_first_default_index(accounts.drop_first());
    }
}

/// The first default account of the store's accounts.
pub fn find_default_account(accounts: &Vec<AccountSummaryView>) -> (r: Option<AccountSummaryView>)
    ensures
        r == first_default(accounts@),
{
    let mut i: usize = 0;
    proof {
        assert(accounts@.skip(0) =~= accounts@);
    }
    while i < accounts.len()
        invariant
            i <= accounts@.len(),
            forall|j: int| 0 <= j < i ==> !(#[trigger] accounts@[j]).is_default,
            first_default_index(accounts@) == match first_default_index(accounts@.skip(i as int)) {
                Some(k) => Some(k + i),
                None => None::<int>,
            },
        decreases accounts@.len() - i,
    {
        proof {
            assert(accounts@.skip(i as int).drop_first() =~= accounts@.skip(i + 1));
            assert(accounts@.skip(i as int)[0] == accounts@[i as int]);
        }
        if accounts[i].is_default {
            proof {
                lemma_first_default_index(accounts@);
            }
            return Some(clone_account_summary(&accounts[i]));
        }
        i = i + 1;
    }
    proof {
        assert(accounts@.skip(i as int) =~= Seq::<AccountSummaryView>::empty());
    }
    None
}

/// How the account a command acts for resolves from the store's `accounts`: `selection` is
/// `None` when no account selector is configured, else the store's answer to the selector. With a
/// selector, its account (or its error) decides, as an invocation override; without one, the first
/// default account, when there is one, is resolved.
pub fn account_resolution(
    accounts: &Vec<AccountSummaryView>,
    selection: Option<Result<AccountSummaryView, crate::error::RuntimeError>>,
) -> (r: Result<AccountResolutionView, crate::error::RuntimeError>)
    ensures
        match selection {
            Some(Err(e)) => r == Err::<AccountResolutionView, crate::error::RuntimeError>(e),
            Some(Ok(a)) => r matches Ok(v) && v.source@ == "invocation_override"@ && v.resolved_account == Some(a)
                && v.default_account == first_default(accounts@),
            None => r matches Ok(v) && v.source@ == (if first_default(accounts@) is Some {
                "default_account"@
            } else {
                "none"@
            }) && v.resolved_account == first_default(accounts@) && v.default_account == first_default(
                accounts@,
            ),
        },
{
    let default_account = find_default_account(accounts);
    match selection {
        Some(Err(e)) => Err(e),
        Some(Ok(a)) => Ok(
            AccountResolutionView {
                source: owned(AccountResolutionSource::InvocationOverride.as_str()),
                resolved_account: Some(a),
                default_account,
            },
        ),
        None => {
            let resolved = match &default_account {
                Some(d) => Some(clone_account_summary(d)),
                None => None,
            };
            let source = if default_account.is_some() {
                AccountResolutionSource::DefaultAccount
            } else {
                AccountResolutionSource::Unresolved
            };
            Ok(AccountResolutionView { source: owned(source.as_str()), resolved_account: resolved, default_account })
        },
    }
}

} // verus!
