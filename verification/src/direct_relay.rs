use vstd::prelude::*;

use crate::find::{join_strings, join_with};
use crate::text::{concat3, owned, strings_view};

verus! {

/// One relay a direct fetch could not use, and why.
#[derive(Debug, Clone, PartialEq, Eq)]
pub struct DirectRelayFailure {
    pub relay: String,
    pub reason: String,
}

/// Why a direct fetch from relays could not start.
#[derive(Debug, Clone, PartialEq, Eq)]
pub enum DirectRelayPreflightError {
    MissingRelays,
}

impl DirectRelayPreflightError {
    /// The error's message.
    pub fn message(&self) -> (r: String)
        ensures
            r@ == "direct relay fetch requires at least one configured relay"@,
    {
        owned("direct relay fetch requires at least one configured relay")
    }
}

/// A direct fetch needs at least one relay; this is checked before any runtime work.
pub fn require_relays(relay_urls: &Vec<String>) -> (r: Result<(), DirectRelayPreflightError>)
    ensures
        r is Ok <==> relay_urls@.len() > 0,
{
    if relay_urls.len() == 0 {
        Err(DirectRelayPreflightError::MissingRelays)
    } else {
        Ok(())
    }
}

/// How a failed relay is reported: `relay: reason`.
pub open spec fn failure_text(f: DirectRelayFailure) -> Seq<char> {
    f.relay@ + ": "@ + f.reason@
}

/// The reason given when no relay could be used: each failure, `; ` apart, or a fixed sentence
/// when none was reported.
pub open spec fn failures_summary(failed: Seq<DirectRelayFailure>) -> Seq<char> {
    if failed.len() == 0 {
        "no relay acknowledged the operation"@
    } else {
        join_with(failed.map_values(|f: DirectRelayFailure| failure_text(f)), "; "@)
    }
}

/// Summarizes the relays that failed.
pub fn summarize_failures(failed_relays: &Vec<DirectRelayFailure>) -> (r: String)
    ensures
        r@ == failures_summary(failed_relays@),
{
    if failed_relays.len() == 0 {
        return owned("no relay acknowledged the operation");
    }
    let mut parts: Vec<String> = Vec::new();
    for i in 0..failed_relays.len()
        invariant
            parts@.len() == i,
            forall|j: int| 0 <= j < i ==> #[trigger] parts@[j]@ == failure_text(failed_relays@[j]),
    {
        let f = &failed_relays[i];
        parts.push(concat3(f.relay.as_str(), ": ", f.reason.as_str()));
    }
    proof {
        assert(strings_view(parts@) =~= failed_relays@.map_values(|f: DirectRelayFailure| failure_text(f)));
    }
    join_strings(&parts, "; ")
}

/// Why no relay could be used once they were tried.
#[derive(Debug, Clone, PartialEq, Eq)]
pub struct DirectRelayConnectError {
    pub reason: String,
    pub target_relays: Vec<String>,
    pub failed_relays: Vec<DirectRelayFailure>,
}

/// After trying to connect: the fetch goes on when at least one relay connected; otherwise it
/// stops with the targets, the failures and their summary.
pub fn connection_outcome(
    target_relays: &Vec<String>,
    connected_count: usize,
    failed_relays: Vec<DirectRelayFailure>,
) -> (r: Result<Vec<DirectRelayFailure>, DirectRelayConnectError>)
    ensures
        connected_count > 0 ==> r == Ok::<Vec<DirectRelayFailure>, DirectRelayConnectError>(failed_relays),
        connected_count == 0 ==> (r matches Err(e) && e.reason@ == failures_summary(failed_relays@)
            && strings_view(e.target_relays@) == strings_view(target_relays@) && e.failed_relays
            == failed_relays),
{
    if connected_count == 0 {
        let reason = summarize_failures(&failed_relays);
        let mut targets: Vec<String> = Vec::new();
        for i in 0..target_relays.len()
            invariant
                targets@.len() == i,
                forall|j: int| 0 <= j < i ==> #[trigger] targets@[j]@ == target_relays@[j]@,
        {
            targets.push(target_relays[i].clone());
        }
        proof {
            assert(strings_view(targets@) =~= strings_view(target_relays@));
        }
        Err(DirectRelayConnectError { reason, target_relays: targets, failed_relays })
    } else {
        Ok(failed_relays)
    }
}

} // verus!
