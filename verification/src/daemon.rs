use vstd::prelude::*;

use crate::bindings::opt_str_view;
use crate::output::{CommandOutput, CommandView, OutputDisposition};
use crate::text::{
    append_str, concat2, decimal, decimal_string, eq_ignore_ascii_case, owned, signed_decimal,
    signed_decimal_string, str_eq, str_eq_ignore_ascii_case, strings_view,
};

verus! {

/// Why a call to the daemon's rpc surface failed.
#[derive(Debug, Clone, PartialEq, Eq)]
pub enum DaemonRpcError {
    Unconfigured(String),
    Unauthorized(String),
    MethodUnavailable(String),
    UnknownJob(String),
    External(String),
    InvalidResponse(String),
    Remote(String),
}

impl DaemonRpcError {
    /// The reason text every variant carries.
    pub open spec fn reason_view(self) -> Seq<char> {
        match self {
            DaemonRpcError::Unconfigured(m) => m@,
            DaemonRpcError::Unauthorized(m) => m@,
            DaemonRpcError::MethodUnavailable(m) => m@,
            DaemonRpcError::UnknownJob(m) => m@,
            DaemonRpcError::External(m) => m@,
            DaemonRpcError::InvalidResponse(m) => m@,
            DaemonRpcError::Remote(m) => m@,
        }
    }

    /// The reason text of this error.
    pub fn reason(&self) -> (r: &str)
        ensures
            r@ == self.reason_view(),
    {
        match self {
            DaemonRpcError::Unconfigured(m) => m.as_str(),
            DaemonRpcError::Unauthorized(m) => m.as_str(),
            DaemonRpcError::MethodUnavailable(m) => m.as_str(),
            DaemonRpcError::UnknownJob(m) => m.as_str(),
            DaemonRpcError::External(m) => m.as_str(),
            DaemonRpcError::InvalidResponse(m) => m.as_str(),
            DaemonRpcError::Remote(m) => m.as_str(),
        }
    }
}

/// The source line of bridge views.
pub fn bridge_source() -> (r: &'static str)
    ensures
        r@ == "daemon bridge · durable write plane"@,
{
    "daemon bridge · durable write plane"
}

/// The provider, account and provider session a write must be signed under.
#[derive(Debug, Clone, PartialEq, Eq)]
pub struct ActorWriteSignerAuthority {
    pub provider_runtime_id: String,
    pub account_identity_id: String,
    pub provider_signer_session_id: Option<String>,
}

/// A remote signer session as the daemon lists it.
#[derive(Debug, Clone, PartialEq, Eq)]
pub struct Nip46SessionRemote {
    pub session_id: String,
    pub role: String,
    pub client_pubkey: String,
    pub signer_pubkey: String,
    pub user_pubkey: Option<String>,
    pub relays: Vec<String>,
    pub permissions: Vec<String>,
    pub auth_required: bool,
    pub authorized: bool,
    pub expires_in_secs: Option<u64>,
    pub signer_authority: Option<ActorWriteSignerAuthority>,
}

/// Whether `perms` grants signing events of `kind`: a bare `sign_event`, or `sign_event:<kind>`.
pub open spec fn sign_event_granted(perms: Seq<Seq<char>>, kind: u32) -> bool {
    exists|i: int|
        0 <= i < perms.len() && (#[trigger] perms[i] == "sign_event"@ || perms[i] == "sign_event:"@
            + decimal(kind as nat))
}

/// Whether `perms` grants signing events of `kind`.
pub fn sign_event_allowed(perms: &Vec<String>, kind: u32) -> (r: bool)
    ensures
        r == sign_event_granted(strings_view(perms@), kind),
{
    let digits = decimal_string(kind as u128);
    let scoped = concat2("sign_event:", digits.as_str());
    let mut i: usize = 0;
    while i < perms.len()
        invariant
            i <= perms@.len(),
            scoped@ == "sign_event:"@ + decimal(kind as nat),
            forall|j: int|
                0 <= j < i ==> !(perms@[j]@ == "sign_event"@ || perms@[j]@ == "sign_event:"@
                    + decimal(kind as nat)),
        decreases perms@.len() - i,
    {
        if str_eq(perms[i].as_str(), "sign_event") || str_eq(perms[i].as_str(), scoped.as_str()) {
            proof {
                assert(strings_view(perms@)[i as int] == perms@[i as int]@);
            }
            return true;
        }
        i += 1;
    }
    proof {
        assert forall|j: int|
            0 <= j < strings_view(perms@).len() implies !(#[trigger] strings_view(perms@)[j]
            == "sign_event"@ || strings_view(perms@)[j] == "sign_event:"@ + decimal(kind as nat)) by {
            assert(strings_view(perms@)[j] == perms@[j]@);
        }
    }
    false
}

/// `o`'s text, or `<none>`.
pub open spec fn or_none(o: Option<Seq<char>>) -> Seq<char> {
    match o {
        Some(s) => s,
        None => "<none>"@,
    }
}

/// Why `session` does not carry the signer authority `expected` requires, if it does not.
pub open spec fn authority_error(
    session: Nip46SessionRemote,
    expected: Option<ActorWriteSignerAuthority>,
) -> Option<Seq<char>> {
    let id = session.session_id@;
    match expected {
        None => None,
        Some(e) => match session.signer_authority {
            None => Some(
                "requested signer session `"@ + id
                    + "` is missing signer authority continuity metadata"@,
            ),
            Some(a) => if a.provider_runtime_id@ != e.provider_runtime_id@ {
                Some(
                    "requested signer session `"@ + id + "` provider `"@ + a.provider_runtime_id@
                        + "` does not match required provider `"@ + e.provider_runtime_id@ + "`"@,
                )
            } else if a.account_identity_id@ != e.account_identity_id@ {
                Some(
                    "requested signer session `"@ + id + "` account identity `"@
                        + a.account_identity_id@ + "` does not match required account `"@
                        + e.account_identity_id@ + "`"@,
                )
            } else if opt_str_view(a.provider_signer_session_id) != opt_str_view(
                e.provider_signer_session_id,
            ) {
                Some(
                    "requested signer session `"@ + id + "` provider signer session `"@ + or_none(
                        opt_str_view(a.provider_signer_session_id),
                    ) + "` does not match required provider session `"@ + or_none(
                        opt_str_view(e.provider_signer_session_id),
                    ) + "`"@,
                )
            } else {
                None
            },
        },
    }
}

fn opt_str_eq(a: &Option<String>, b: &Option<String>) -> (r: bool)
    ensures
        r == (opt_str_view(*a) == opt_str_view(*b)),
{
    match (a, b) {
        (Some(x), Some(y)) => str_eq(x.as_str(), y.as_str()),
        (None, None) => true,
        _ => false,
    }
}

fn or_none_str(o: &Option<String>) -> (r: &str)
    ensures
        r@ == or_none(opt_str_view(*o)),
{
    match o {
        Some(s) => s.as_str(),
        None => "<none>",
    }
}

/// Checks that `session` carries the signer authority `signer_authority` requires.
pub fn validate_signer_authority(
    session: &Nip46SessionRemote,
    signer_authority: Option<&ActorWriteSignerAuthority>,
) -> (r: Result<(), DaemonRpcError>)
    ensures
        match authority_error(
            *session,
            match signer_authority {
                Some(a) => Some(*a),
                None => None,
            },
        ) {
            None => r is Ok,
            Some(m) => r matches Err(DaemonRpcError::Unconfigured(x)) && x@ == m,
        },
{
    let expected = match signer_authority {
        Some(e) => e,
        None => {
            return Ok(());
        },
    };
    let actual = match &session.signer_authority {
        Some(a) => a,
        None => {
            let mut m = concat2("requested signer session `", session.session_id.as_str());
            append_str(&mut m, "` is missing signer authority continuity metadata");
            return Err(DaemonRpcError::Unconfigured(m));
        },
    };
    if !str_eq(actual.provider_runtime_id.as_str(), expected.provider_runtime_id.as_str()) {
        let mut m = concat2("requested signer session `", session.session_id.as_str());
        append_str(&mut m, "` provider `");
        append_str(&mut m, actual.provider_runtime_id.as_str());
        append_str(&mut m, "` does not match required provider `");
        append_str(&mut m, expected.provider_runtime_id.as_str());
        append_str(&mut m, "`");
        return Err(DaemonRpcError::Unconfigured(m));
    }
    if !str_eq(actual.account_identity_id.as_str(), expected.account_identity_id.as_str()) {
        let mut m = concat2("requested signer session `", session.session_id.as_str());
        append_str(&mut m, "` account identity `");
        append_str(&mut m, actual.account_identity_id.as_str());
        append_str(&mut m, "` does not match required account `");
        append_str(&mut m, expected.account_identity_id.as_str());
        append_str(&mut m, "`");
        return Err(DaemonRpcError::Unconfigured(m));
    }
    if !opt_str_eq(&actual.provider_signer_session_id, &expected.provider_signer_session_id) {
        let mut m = concat2("requested signer session `", session.session_id.as_str());
        append_str(&mut m, "` provider signer session `");
        append_str(&mut m, or_none_str(&actual.provider_signer_session_id));
        append_str(&mut m, "` does not match required provider session `");
        append_str(&mut m, or_none_str(&expected.provider_signer_session_id));
        append_str(&mut m, "`");
        return Err(DaemonRpcError::Unconfigured(m));
    }
    Ok(())
}

/// Why `session` cannot sign events of `kind` for the actor, if it cannot.
pub open spec fn session_error(
    session: Nip46SessionRemote,
    actor_role: Seq<char>,
    actor_pubkey: Seq<char>,
    kind: u32,
    expected: Option<ActorWriteSignerAuthority>,
) -> Option<Seq<char>> {
    let id = session.session_id@;
    if !session.authorized {
        Some("requested signer session `"@ + id + "` is not authorized"@)
    } else if !eq_ignore_ascii_case(session.signer_pubkey@, actor_pubkey) {
        Some(
            "requested signer session `"@ + id + "` signer pubkey `"@ + session.signer_pubkey@
                + "` does not match "@ + actor_role + " pubkey `"@ + actor_pubkey + "`"@,
        )
    } else if !sign_event_granted(strings_view(session.permissions@), kind) {
        Some(
            "requested signer session `"@ + id + "` is not approved for sign_event:"@ + decimal(
                kind as nat,
            ),
        )
    } else {
        authority_error(session, expected)
    }
}

/// Whether `session` can sign events of `kind` for the actor with `actor_pubkey`.
pub open spec fn session_matches(
    session: Nip46SessionRemote,
    actor_pubkey: Seq<char>,
    kind: u32,
    expected: Option<ActorWriteSignerAuthority>,
) -> bool {
    session_error(session, ""@, actor_pubkey, kind, expected) is None
}

fn authority_ref(a: &Option<ActorWriteSignerAuthority>) -> (r: Option<&ActorWriteSignerAuthority>)
    ensures
        match r {
            Some(x) => *a == Some(*x),
            None => *a is None,
        },
{
    match a {
        Some(x) => Some(x),
        None => None,
    }
}

/// Checks that `session` can sign events of `event_kind` for the actor.
pub fn validate_signer_session(
    session: &Nip46SessionRemote,
    actor_role: &str,
    actor_pubkey: &str,
    event_kind: u32,
    signer_authority: Option<&ActorWriteSignerAuthority>,
) -> (r: Result<(), DaemonRpcError>)
    ensures
        match session_error(
            *session,
            actor_role@,
            actor_pubkey@,
            event_kind,
            match signer_authority {
                Some(a) => Some(*a),
                None => None,
            },
        ) {
            None => r is Ok,
            Some(m) => r matches Err(DaemonRpcError::Unconfigured(x)) && x@ == m,
        },
{
    if !session.authorized {
        let mut m = concat2("requested signer session `", session.session_id.as_str());
        append_str(&mut m, "` is not authorized");
        return Err(DaemonRpcError::Unconfigured(m));
    }
    if !str_eq_ignore_ascii_case(session.signer_pubkey.as_str(), actor_pubkey) {
        let mut m = concat2("requested signer session `", session.session_id.as_str());
        append_str(&mut m, "` signer pubkey `");
        append_str(&mut m, session.signer_pubkey.as_str());
        append_str(&mut m, "` does not match ");
        append_str(&mut m, actor_role);
        append_str(&mut m, " pubkey `");
        append_str(&mut m, actor_pubkey);
        append_str(&mut m, "`");
        return Err(DaemonRpcError::Unconfigured(m));
    }
    if !sign_event_allowed(&session.permissions, event_kind) {
        let mut m = concat2("requested signer session `", session.session_id.as_str());
        append_str(&mut m, "` is not approved for sign_event:");
        let digits = decimal_string(event_kind as u128);
        append_str(&mut m, digits.as_str());
        return Err(DaemonRpcError::Unconfigured(m));
    }
    validate_signer_authority(session, signer_authority)
}

/// Whether `session` can sign events of `event_kind` for the actor with `actor_pubkey`.
pub fn session_matches_actor(
    session: &Nip46SessionRemote,
    actor_pubkey: &str,
    event_kind: u32,
    signer_authority: Option<&ActorWriteSignerAuthority>,
) -> (r: bool)
    ensures
        r == session_matches(
            *session,
            actor_pubkey@,
            event_kind,
            match signer_authority {
                Some(a) => Some(*a),
                None => None,
            },
        ),
{
    session.authorized && str_eq_ignore_ascii_case(session.signer_pubkey.as_str(), actor_pubkey)
        && sign_event_allowed(&session.permissions, event_kind) && validate_signer_authority(
        session,
        signer_authority,
    ).is_ok()
}

/// The first session in `sessions` with id `id`.
pub open spec fn session_with_id(sessions: Seq<Nip46SessionRemote>, id: Seq<char>) -> Option<
    Nip46SessionRemote,
>
    decreases sessions.len(),
{
    if sessions.len() == 0 {
        None
    } else if sessions[0].session_id@ == id {
        Some(sessions[0])
    } else {
        session_with_id(sessions.drop_first(), id)
    }
}

/// The ids of the sessions that can sign events of `kind` for the actor, in order.
pub open spec fn matching_session_ids(
    sessions: Seq<Nip46SessionRemote>,
    actor_pubkey: Seq<char>,
    kind: u32,
    expected: Option<ActorWriteSignerAuthority>,
) -> Seq<Seq<char>>
    decreases sessions.len(),
{
    if sessions.len() == 0 {
        seq![]
    } else {
        let rest = matching_session_ids(sessions.drop_last(), actor_pubkey, kind, expected);
        if session_matches(sessions.last(), actor_pubkey, kind, expected) {
            rest.push(sessions.last().session_id@)
        } else {
            rest
        }
    }
}

/// The signer session a write uses: the requested one when it exists and can sign for the
/// actor; without a request, the one session that can, refusing none or several.
pub open spec fn signer_session_choice(
    sessions: Seq<Nip46SessionRemote>,
    actor_role: Seq<char>,
    actor_pubkey: Seq<char>,
    kind: u32,
    requested: Option<Seq<char>>,
    expected: Option<ActorWriteSignerAuthority>,
) -> Result<Seq<char>, Seq<char>> {
    match requested {
        Some(id) => match session_with_id(sessions, id) {
            None => Err("requested signer session `"@ + id + "` was not found"@),
            Some(s) => match session_error(s, actor_role, actor_pubkey, kind, expected) {
                Some(m) => Err(m),
                None => Ok(s.session_id@),
            },
        },
        None => {
            let ids = matching_session_ids(sessions, actor_pubkey, kind, expected);
            if ids.len() == 1 {
                Ok(ids[0])
            } else if ids.len() == 0 {
                Err(
                    "no authorized signer session matched "@ + actor_role + " pubkey `"@
                        + actor_pubkey + "` for sign_event:"@ + decimal(kind as nat)
                        + "; connect a signer session or pass --signer-session-id"@,
                )
            } else {
                Err(
                    "multiple authorized signer sessions matched "@ + actor_role + " pubkey `"@
                        + actor_pubkey + "` for sign_event:"@ + decimal(kind as nat)
                        + "; pass --signer-session-id"@,
                )
            }
        },
    }
}

fn find_session(sessions: &Vec<Nip46SessionRemote>, id: &str) -> (r: Option<usize>)
    ensures
        match session_with_id(sessions@, id@) {
            Some(s) => r matches Some(i) && i < sessions@.len() && sessions@[i as int] == s,
            None => r is None,
        },
{
    let mut i: usize = 0;
    proof {
        assert(sessions@.skip(0) =~= sessions@);
    }
    while i < sessions.len()
        invariant
            i <= sessions@.len(),
            session_with_id(sessions@, id@) == session_with_id(sessions@.skip(i as int), id@),
        decreases sessions@.len() - i,
    {
        proof {
            assert(sessions@.skip(i as int).drop_first() =~= sessions@.skip(i + 1));
        }
        if str_eq(sessions[i].session_id.as_str(), id) {
            return Some(i);
        }
        i += 1;
    }
    None
}

fn session_message(prefix: &str, role: &str, pubkey: &str, kind: u32, suffix: &str) -> (r: String)
    ensures
        r@ == prefix@ + role@ + " pubkey `"@ + pubkey@ + "` for sign_event:"@ + decimal(kind as nat)
            + suffix@,
{
    let mut m = concat2(prefix, role);
    append_str(&mut m, " pubkey `");
    append_str(&mut m, pubkey);
    append_str(&mut m, "` for sign_event:");
    let digits = decimal_string(kind as u128);
    append_str(&mut m, digits.as_str());
    append_str(&mut m, suffix);
    m
}

/// The signer session id a write uses, given the sessions the daemon listed (or why listing
/// them failed).
pub fn resolve_signer_session_id(
    listed: Result<Vec<Nip46SessionRemote>, DaemonRpcError>,
    actor_role: &str,
    actor_pubkey: &str,
    event_kind: u32,
    requested_session_id: Option<&str>,
    signer_authority: Option<&ActorWriteSignerAuthority>,
) -> (r: Result<String, DaemonRpcError>)
    ensures
        match listed {
            Err(e) => r == Err::<String, DaemonRpcError>(e),
            Ok(sessions) => match signer_session_choice(
                sessions@,
                actor_role@,
                actor_pubkey@,
                event_kind,
                match requested_session_id {
                    Some(s) => Some(s@),
                    None => None,
                },
                match signer_authority {
                    Some(a) => Some(*a),
                    None => None,
                },
            ) {
                Ok(id) => r matches Ok(x) && x@ == id,
                Err(m) => r matches Err(DaemonRpcError::Unconfigured(x)) && x@ == m,
            },
        },
{
    let sessions = match listed {
        Ok(s) => s,
        Err(e) => {
            return Err(e);
        },
    };
    if let Some(session_id) = requested_session_id {
        let i = match find_session(&sessions, session_id) {
            Some(i) => i,
            None => {
                let mut m = concat2("requested signer session `", session_id);
                append_str(&mut m, "` was not found");
                return Err(DaemonRpcError::Unconfigured(m));
            },
        };
        let session = &sessions[i];
        match validate_signer_session(session, actor_role, actor_pubkey, event_kind, signer_authority) {
            Ok(()) => {},
            Err(e) => {
                return Err(e);
            },
        }
        return Ok(session.session_id.clone());
    }
    let ghost expected = match signer_authority {
        Some(a) => Some(*a),
        None => None,
    };
    let mut matches: Vec<String> = Vec::new();
    let mut i: usize = 0;
    while i < sessions.len()
        invariant
            i <= sessions@.len(),
            expected == match signer_authority {
                Some(a) => Some(*a),
                None => None::<ActorWriteSignerAuthority>,
            },
            strings_view(matches@) == matching_session_ids(
                sessions@.take(i as int),
                actor_pubkey@,
                event_kind,
                expected,
            ),
        decreases sessions@.len() - i,
    {
        proof {
            assert(sessions@.take(i + 1).drop_last() =~= sessions@.take(i as int));
        }
        if session_matches_actor(&sessions[i], actor_pubkey, event_kind, signer_authority) {
            matches.push(sessions[i].session_id.clone());
        }
        proof {
            assert(strings_view(matches@) =~= matching_session_ids(
                sessions@.take(i + 1),
                actor_pubkey@,
                event_kind,
                expected,
            ));
        }
        i += 1;
    }
    proof {
        assert(sessions@.take(sessions@.len() as int) =~= sessions@);
    }
    if matches.len() == 1 {
        proof {
            assert(strings_view(matches@)[0] == matches@[0]@);
        }
        return Ok(matches[0].clone());
    }
    if matches.len() == 0 {
        let m = session_message(
            "no authorized signer session matched ",
            actor_role,
            actor_pubkey,
            event_kind,
            "; connect a signer session or pass --signer-session-id",
        );
        return Err(DaemonRpcError::Unconfigured(m));
    }
    let m = session_message(
        "multiple authorized signer sessions matched ",
        actor_role,
        actor_pubkey,
        event_kind,
        "; pass --signer-session-id",
    );
    Err(DaemonRpcError::Unconfigured(m))
}

/// The error object of a failed rpc reply.
#[derive(Debug, Clone, PartialEq, Eq)]
pub struct JsonRpcResponseError {
    pub code: i64,
    pub message: String,
}

/// The daemon error an rpc error object of `method` stands for.
pub open spec fn rpc_error_for(method: Seq<char>, code: i64, message: Seq<char>) -> (DaemonRpcKind, Seq<char>) {
    if code == -32601 {
        (DaemonRpcKind::MethodUnavailable, message)
    } else if code == -32001 {
        (DaemonRpcKind::Unauthorized, message)
    } else if code == -32000 && method == "bridge.job.status"@ && message.len() >= 19
        && message.take(19) == "unknown bridge job:"@ {
        (DaemonRpcKind::UnknownJob, message)
    } else if code == -32000 {
        (DaemonRpcKind::Remote, message)
    } else {
        (
            DaemonRpcKind::InvalidResponse,
            "daemon rpc returned unexpected error "@ + signed_decimal(code as int) + ": "@ + message,
        )
    }
}

/// The variants of `DaemonRpcError`, without their text.
#[derive(Debug, Clone, Copy, PartialEq, Eq, Structural)]
pub enum DaemonRpcKind {
    Unconfigured,
    Unauthorized,
    MethodUnavailable,
    UnknownJob,
    External,
    InvalidResponse,
    Remote,
}

impl DaemonRpcError {
    pub open spec fn kind(self) -> DaemonRpcKind {
        match self {
            DaemonRpcError::Unconfigured(_) => DaemonRpcKind::Unconfigured,
            DaemonRpcError::Unauthorized(_) => DaemonRpcKind::Unauthorized,
            DaemonRpcError::MethodUnavailable(_) => DaemonRpcKind::MethodUnavailable,
            DaemonRpcError::UnknownJob(_) => DaemonRpcKind::UnknownJob,
            DaemonRpcError::External(_) => DaemonRpcKind::External,
            DaemonRpcError::InvalidResponse(_) => DaemonRpcKind::InvalidResponse,
            DaemonRpcError::Remote(_) => DaemonRpcKind::Remote,
        }
    }
}

fn starts_with_unknown_job(m: &str) -> (r: bool)
    ensures
        r == (m@.len() >= 19 && m@.take(19) == "unknown bridge job:"@),
{
    let cs = crate::text::chars_of(m);
    let prefix = crate::text::chars_of("unknown bridge job:");
    proof {
        reveal_strlit("unknown bridge job:");
    }
    if cs.len() < prefix.len() {
        return false;
    }
    let mut i: usize = 0;
    while i < prefix.len()
        invariant
            prefix@ == "unknown bridge job:"@,
            prefix@.len() == 19,
            cs@ == m@,
            cs@.len() >= 19,
            i <= 19,
            forall|j: int| 0 <= j < i ==> cs@[j] == prefix@[j],
        decreases 19 - i,
    {
        if cs[i] != prefix[i] {
            proof {
                assert(m@.take(19)[i as int] != "unknown bridge job:"@[i as int]);
            }
            return false;
        }
        i += 1;
    }
    proof {
        assert(m@.take(19) =~= "unknown bridge job:"@);
    }
    true
}

/// The daemon error for the rpc error object `error` of a call to `method`.
pub fn map_rpc_error(method: &str, error: JsonRpcResponseError) -> (r: DaemonRpcError)
    ensures
        (r.kind(), r.reason_view()) == rpc_error_for(method@, error.code, error.message@),
{
    if error.code == -32601 {
        DaemonRpcError::MethodUnavailable(error.message)
    } else if error.code == -32001 {
        DaemonRpcError::Unauthorized(error.message)
    } else if error.code == -32000 && str_eq(method, "bridge.job.status") && starts_with_unknown_job(
        error.message.as_str(),
    ) {
        DaemonRpcError::UnknownJob(error.message)
    } else if error.code == -32000 {
        DaemonRpcError::Remote(error.message)
    } else {
        let digits = signed_decimal_string(error.code);
        let mut m = concat2("daemon rpc returned unexpected error ", digits.as_str());
        append_str(&mut m, ": ");
        append_str(&mut m, error.message.as_str());
        DaemonRpcError::InvalidResponse(m)
    }
}

/// A decoded rpc reply envelope.
#[derive(Debug, Clone, PartialEq, Eq)]
pub struct JsonRpcResponse<T> {
    pub result: Option<T>,
    pub error: Option<JsonRpcResponseError>,
}

/// The outcome of an rpc call to `method` given the http status and the decoded body (or the
/// decoder's message): a non-success status is refused first, then a body that did not decode,
/// then the result, the mapped error object, or a reply that carries neither.
pub fn rpc_reply_outcome<T>(
    method: &str,
    http_status: u16,
    decoded: Result<JsonRpcResponse<T>, String>,
) -> (r: Result<T, DaemonRpcError>)
    ensures
        !(200 <= http_status < 300) ==> (r matches Err(DaemonRpcError::External(m)) && m@
            == "daemon rpc returned http "@ + decimal(http_status as nat)),
        (200 <= http_status < 300) ==> match decoded {
            Err(e) => r matches Err(DaemonRpcError::InvalidResponse(m)) && m@
                == "parse daemon rpc response: "@ + e@,
            Ok(env) => match env.result {
                Some(v) => r == Ok::<T, DaemonRpcError>(v),
                None => match env.error {
                    Some(err) => r matches Err(e) && (e.kind(), e.reason_view()) == rpc_error_for(
                        method@,
                        err.code,
                        err.message@,
                    ),
                    None => r matches Err(DaemonRpcError::InvalidResponse(m)) && m@
                        == "daemon rpc response did not include a result"@,
                },
            },
        },
{
    if !(200 <= http_status && http_status < 300) {
        let digits = decimal_string(http_status as u128);
        return Err(DaemonRpcError::External(concat2("daemon rpc returned http ", digits.as_str())));
    }
    let envelope = match decoded {
        Ok(env) => env,
        Err(e) => {
            return Err(DaemonRpcError::InvalidResponse(concat2("parse daemon rpc response: ", e.as_str())));
        },
    };
    if let Some(result) = envelope.result {
        return Ok(result);
    }
    match envelope.error {
        Some(error) => Err(map_rpc_error(method, error)),
        None => Err(DaemonRpcError::InvalidResponse(owned("daemon rpc response did not include a result"))),
    }
}

/// Whether a call is made with the bridge bearer token.
#[derive(Debug, Clone, Copy, PartialEq, Eq)]
pub enum RpcAuthMode {
    Unauthenticated,
    BridgeBearer,
}

/// The bearer token a call sends: none without bridge auth; with it, the configured token,
/// refusing a missing one.
pub fn rpc_bearer_token(auth_mode: RpcAuthMode, token: &Option<String>) -> (r: Result<Option<String>, DaemonRpcError>)
    ensures
        auth_mode == RpcAuthMode::Unauthenticated ==> r matches Ok(None),
        auth_mode == RpcAuthMode::BridgeBearer ==> match token {
            Some(t) => r matches Ok(Some(x)) && x@ == t@,
            None => r matches Err(DaemonRpcError::Unconfigured(m)) && m@
                == "bridge bearer token is not configured"@,
        },
{
    match auth_mode {
        RpcAuthMode::Unauthenticated => Ok(None),
        RpcAuthMode::BridgeBearer => match token {
            Some(t) => Ok(Some(t.clone())),
            None => Err(DaemonRpcError::Unconfigured(owned("bridge bearer token is not configured"))),
        },
    }
}

/// The command name a job of bridge command `command` is shown under.
pub open spec fn job_command_name(command: Seq<char>) -> Seq<char> {
    if command == "bridge.listing.publish"@ {
        "listing.publish"@
    } else if command == "bridge.order.request"@ {
        "order.submit"@
    } else {
        command
    }
}

/// The command name a job of bridge command `command` is shown under.
pub fn map_job_command(command: String) -> (r: String)
    ensures
        r@ == job_command_name(command@),
{
    if str_eq(command.as_str(), "bridge.listing.publish") {
        owned("listing.publish")
    } else if str_eq(command.as_str(), "bridge.order.request") {
        owned("order.submit")
    } else {
        command
    }
}

/// A bridge job as the daemon reports it.
#[derive(Debug, Clone, PartialEq, Eq)]
pub struct BridgeJobRemote {
    pub job_id: String,
    pub command: String,
    pub status: String,
    pub terminal: bool,
    pub recovered_after_restart: bool,
    pub requested_at_unix: u64,
    pub completed_at_unix: Option<u64>,
    pub signer_mode: String,
    pub signer_session_id: Option<String>,
    pub event_id: Option<String>,
    pub event_addr: Option<String>,
    pub delivery_policy: String,
    pub delivery_quorum: Option<usize>,
    pub relay_count: usize,
    pub acknowledged_relay_count: usize,
    pub required_acknowledged_relay_count: usize,
    pub attempt_count: usize,
    pub relay_outcome_summary: String,
    pub attempt_summaries: Vec<String>,
}

/// One job in a job list.
#[derive(Debug, Clone, PartialEq, Eq)]
pub struct JobSummaryView {
    pub id: String,
    pub command: String,
    pub state: String,
    pub terminal: bool,
    pub signer: String,
    pub signer_session_id: Option<String>,
    pub requested_at_unix: u64,
    pub completed_at_unix: Option<u64>,
    pub recovered_after_restart: bool,
}

/// One job in full.
#[derive(Debug, Clone, PartialEq, Eq)]
pub struct JobDetailView {
    pub id: String,
    pub command: String,
    pub state: String,
    pub terminal: bool,
    pub signer: String,
    pub signer_session_id: Option<String>,
    pub requested_at_unix: u64,
    pub completed_at_unix: Option<u64>,
    pub recovered_after_restart: bool,
    pub event_id: Option<String>,
    pub event_addr: Option<String>,
    pub delivery_policy: String,
    pub delivery_quorum: Option<usize>,
    pub relay_count: usize,
    pub acknowledged_relay_count: usize,
    pub required_acknowledged_relay_count: usize,
    pub attempt_count: usize,
    pub relay_outcome_summary: String,
    pub attempt_summaries: Vec<String>,
}

/// The list entry of a bridge job.
pub fn map_job_summary_view(job: BridgeJobRemote) -> (r: JobSummaryView)
    ensures
        r.id == job.job_id,
        r.command@ == job_command_name(job.command@),
        r.state == job.status,
        r.terminal == job.terminal,
        r.signer == job.signer_mode,
        r.signer_session_id == job.signer_session_id,
        r.requested_at_unix == job.requested_at_unix,
        r.completed_at_unix == job.completed_at_unix,
        r.recovered_after_restart == job.recovered_after_restart,
{
    JobSummaryView {
        id: job.job_id,
        command: map_job_command(job.command),
        state: job.status,
        terminal: job.terminal,
        signer: job.signer_mode,
        signer_session_id: job.signer_session_id,
        requested_at_unix: job.requested_at_unix,
        completed_at_unix: job.completed_at_unix,
        recovered_after_restart: job.recovered_after_restart,
    }
}

/// The full view of a bridge job.
pub fn map_job_detail_view(job: BridgeJobRemote) -> (r: JobDetailView)
    ensures
        r.id == job.job_id,
        r.command@ == job_command_name(job.command@),
        r.state == job.status,
        r.terminal == job.terminal,
        r.signer == job.signer_mode,
        r.signer_session_id == job.signer_session_id,
        r.requested_at_unix == job.requested_at_unix,
        r.completed_at_unix == job.completed_at_unix,
        r.recovered_after_restart == job.recovered_after_restart,
        r.event_id == job.event_id,
        r.event_addr == job.event_addr,
        r.delivery_policy == job.delivery_policy,
        r.delivery_quorum == job.delivery_quorum,
        r.relay_count == job.relay_count,
        r.acknowledged_relay_count == job.acknowledged_relay_count,
        r.required_acknowledged_relay_count == job.required_acknowledged_relay_count,
        r.attempt_count == job.attempt_count,
        r.relay_outcome_summary == job.relay_outcome_summary,
        r.attempt_summaries == job.attempt_summaries,
{
    JobDetailView {
        id: job.job_id,
        command: map_job_command(job.command),
        state: job.status,
        terminal: job.terminal,
        signer: job.signer_mode,
        signer_session_id: job.signer_session_id,
        requested_at_unix: job.requested_at_unix,
        completed_at_unix: job.completed_at_unix,
        recovered_after_restart: job.recovered_after_restart,
        event_id: job.event_id,
        event_addr: job.event_addr,
        delivery_policy: job.delivery_policy,
        delivery_quorum: job.delivery_quorum,
        relay_count: job.relay_count,
        acknowledged_relay_count: job.acknowledged_relay_count,
        required_acknowledged_relay_count: job.required_acknowledged_relay_count,
        attempt_count: job.attempt_count,
        relay_outcome_summary: job.relay_outcome_summary,
        attempt_summaries: job.attempt_summaries,
    }
}

/// The job list the daemon returned, or why it could not.
pub fn bridge_job_list(listed: Result<Vec<BridgeJobRemote>, DaemonRpcError>) -> (r: Result<
    Vec<JobSummaryView>,
    DaemonRpcError,
>)
    ensures
        match listed {
            Err(e) => r == Err::<Vec<JobSummaryView>, DaemonRpcError>(e),
            Ok(jobs) => r matches Ok(v) && v@.len() == jobs@.len() && forall|i: int|
                0 <= i < v@.len() ==> #[trigger] v@[i].id == jobs@[i].job_id && v@[i].command@
                    == job_command_name(jobs@[i].command@) && v@[i].state == jobs@[i].status,
        },
{
    let jobs = match listed {
        Ok(j) => j,
        Err(e) => {
            return Err(e);
        },
    };
    let mut out: Vec<JobSummaryView> = Vec::new();
    let mut rest = jobs;
    let ghost all = rest@;
    let total = rest.len();
    let mut taken: usize = 0;
    while rest.len() > 0
        invariant
            taken + rest@.len() == all.len(),
            all.len() == total,
            rest@ == all.skip(taken as int),
            out@.len() == taken,
            forall|i: int|
                0 <= i < taken ==> #[trigger] out@[i].id == all[i].job_id && out@[i].command@
                    == job_command_name(all[i].command@) && out@[i].state == all[i].status,
        decreases rest@.len(),
    {
        let job = rest.remove(0);
        proof {
            assert(all.skip(taken as int)[0] == job);
            assert(all.skip(taken + 1) =~= all.skip(taken as int).drop_first());
        }
        out.push(map_job_summary_view(job));
        taken += 1;
    }
    Ok(out)
}

/// The job with the given id, `None` when the daemon does not know it, or why it could not.
pub fn bridge_job(fetched: Result<BridgeJobRemote, DaemonRpcError>) -> (r: Result<
    Option<JobDetailView>,
    DaemonRpcError,
>)
    ensures
        match fetched {
            Ok(job) => r matches Ok(Some(v)) && v.id == job.job_id && v.command@ == job_command_name(
                job.command@,
            ),
            Err(DaemonRpcError::UnknownJob(_)) => r matches Ok(None),
            Err(e) => r == Err::<Option<JobDetailView>, DaemonRpcError>(e),
        },
{
    match fetched {
        Ok(job) => Ok(Some(map_job_detail_view(job))),
        Err(DaemonRpcError::UnknownJob(_)) => Ok(None),
        Err(e) => Err(e),
    }
}

/// One remote signer session as `rpc sessions` shows it.
#[derive(Debug, Clone, PartialEq, Eq)]
pub struct RpcSessionView {
    pub session_id: String,
    pub role: String,
    pub client_pubkey: String,
    pub signer_pubkey: String,
    pub user_pubkey: Option<String>,
    pub relay_count: usize,
    pub permissions_count: usize,
    pub auth_required: bool,
    pub authorized: bool,
    pub expires_in_secs: Option<u64>,
}

/// The view of one listed session.
pub fn map_session_view(session: Nip46SessionRemote) -> (r: RpcSessionView)
    ensures
        r.session_id == session.session_id,
        r.role == session.role,
        r.client_pubkey == session.client_pubkey,
        r.signer_pubkey == session.signer_pubkey,
        r.user_pubkey == session.user_pubkey,
        r.relay_count == session.relays@.len(),
        r.permissions_count == session.permissions@.len(),
        r.auth_required == session.auth_required,
        r.authorized == session.authorized,
        r.expires_in_secs == session.expires_in_secs,
{
    RpcSessionView {
        relay_count: session.relays.len(),
        permissions_count: session.permissions.len(),
        session_id: session.session_id,
        role: session.role,
        client_pubkey: session.client_pubkey,
        signer_pubkey: session.signer_pubkey,
        user_pubkey: session.user_pubkey,
        auth_required: session.auth_required,
        authorized: session.authorized,
        expires_in_secs: session.expires_in_secs,
    }
}

/// What `rpc status` shows.
#[derive(Debug, Clone, PartialEq, Eq)]
pub struct RpcStatusView {
    pub state: String,
    pub source: String,
    pub url: String,
    pub reason: Option<String>,
    pub auth_mode: Option<String>,
    pub signer_mode: Option<String>,
    pub default_signer_mode: Option<String>,
    pub supported_signer_modes: Vec<String>,
    pub bridge_enabled: Option<bool>,
    pub bridge_ready: Option<bool>,
    pub relay_count: Option<usize>,
    pub available_nip46_signer_sessions: Option<usize>,
    pub job_status_retention: Option<usize>,
    pub retained_jobs: Option<usize>,
    pub accepted_jobs: Option<usize>,
    pub published_jobs: Option<usize>,
    pub failed_jobs: Option<usize>,
    pub recovered_failed_jobs: Option<usize>,
    pub session_surface_enabled: bool,
    pub methods_count: usize,
    pub actions: Vec<String>,
}

/// What `rpc sessions` shows.
#[derive(Debug, Clone, PartialEq, Eq)]
pub struct RpcSessionsView {
    pub state: String,
    pub source: String,
    pub url: String,
    pub count: usize,
    pub reason: Option<String>,
    pub sessions: Vec<RpcSessionView>,
    pub actions: Vec<String>,
}

/// The bridge status the daemon reports.
#[derive(Debug, Clone, PartialEq, Eq)]
pub struct BridgeStatusRemote {
    pub enabled: bool,
    pub ready: bool,
    pub auth_mode: String,
    pub signer_mode: String,
    pub default_signer_mode: String,
    pub supported_signer_modes: Vec<String>,
    pub available_nip46_signer_sessions: usize,
    pub relay_count: usize,
    pub job_status_retention: usize,
    pub retained_jobs: usize,
    pub accepted_jobs: usize,
    pub published_jobs: usize,
    pub failed_jobs: usize,
    pub recovered_failed_jobs: usize,
    pub methods: Vec<String>,
}

/// The source line of rpc views.
pub open spec fn rpc_source() -> Seq<char> {
    "daemon rpc · durable write plane"@
}

/// An rpc status view with nothing but its state, url, reason and actions.
pub open spec fn rpc_status_bare(v: RpcStatusView) -> bool {
    &&& v.auth_mode is None
    &&& v.signer_mode is None
    &&& v.default_signer_mode is None
    &&& v.supported_signer_modes@.len() == 0
    &&& v.bridge_enabled is None
    &&& v.bridge_ready is None
    &&& v.relay_count is None
    &&& v.available_nip46_signer_sessions is None
    &&& v.job_status_retention is None
    &&& v.retained_jobs is None
    &&& v.accepted_jobs is None
    &&& v.published_jobs is None
    &&& v.failed_jobs is None
    &&& v.recovered_failed_jobs is None
    &&& !v.session_surface_enabled
    &&& v.methods_count == 0
}

/// What `rpc status` reports for the daemon at `url` given the bridge status call's outcome.
pub open spec fn rpc_status_holds(
    out: CommandOutput,
    url: Seq<char>,
    bridge: Result<BridgeStatusRemote, DaemonRpcError>,
) -> bool {
    &&& out.view matches CommandView::RpcStatus(v)
    &&& v.source@ == rpc_source()
    &&& v.url@ == url
    &&& match bridge {
        Ok(s) => {
            &&& out.disposition == OutputDisposition::Success
            &&& v.state@ == (if s.ready { "ready"@ } else { "degraded"@ })
            &&& opt_str_view(v.reason) == (if s.ready {
                None
            } else {
                Some("bridge is reachable but not ready for durable publish traffic"@)
            })
            &&& opt_str_view(v.auth_mode) == Some(s.auth_mode@)
            &&& opt_str_view(v.signer_mode) == Some(s.signer_mode@)
            &&& opt_str_view(v.default_signer_mode) == Some(s.default_signer_mode@)
            &&& v.supported_signer_modes == s.supported_signer_modes
            &&& v.bridge_enabled == Some(s.enabled)
            &&& v.bridge_ready == Some(s.ready)
            &&& v.relay_count == Some(s.relay_count)
            &&& v.available_nip46_signer_sessions == Some(s.available_nip46_signer_sessions)
            &&& v.job_status_retention == Some(s.job_status_retention)
            &&& v.retained_jobs == Some(s.retained_jobs)
            &&& v.accepted_jobs == Some(s.accepted_jobs)
            &&& v.published_jobs == Some(s.published_jobs)
            &&& v.failed_jobs == Some(s.failed_jobs)
            &&& v.recovered_failed_jobs == Some(s.recovered_failed_jobs)
            &&& v.session_surface_enabled == strings_view(s.methods@).contains(
                "nip46.session.list"@,
            )
            &&& v.methods_count == s.methods@.len()
            &&& strings_view(v.actions@) == (if s.ready {
                seq![]
            } else {
                seq!["radroots relay ls"@]
            })
        },
        Err(e) => {
            &&& rpc_status_bare(v)
            &&& opt_str_view(v.reason) == Some(e.reason_view())
            &&& match e {
                DaemonRpcError::Unconfigured(_) | DaemonRpcError::Unauthorized(_)
                | DaemonRpcError::MethodUnavailable(_) => {
                    &&& out.disposition == OutputDisposition::Unconfigured
                    &&& v.state@ == "unconfigured"@
                    &&& strings_view(v.actions@) == seq![
                        "set RADROOTS_RPC_BEARER_TOKEN in .env or your shell"@,
                        "start radrootsd with bridge ingress enabled"@,
                    ]
                },
                DaemonRpcError::External(_) => {
                    &&& out.disposition == OutputDisposition::ExternalUnavailable
                    &&& v.state@ == "unavailable"@
                    &&& strings_view(v.actions@) == seq!["start radrootsd and verify the rpc url"@]
                },
                DaemonRpcError::InvalidResponse(_) | DaemonRpcError::Remote(_) => {
                    &&& out.disposition == OutputDisposition::InternalError
                    &&& v.state@ == "error"@
                    &&& strings_view(v.actions@) == seq![
                        "inspect the daemon rpc response contract"@,
                    ]
                },
                DaemonRpcError::UnknownJob(_) => {
                    &&& out.disposition == OutputDisposition::InternalError
                    &&& v.state@ == "error"@
                    &&& v.actions@.len() == 0
                },
            }
        },
    }
}

fn contains_str(v: &Vec<String>, t: &str) -> (r: bool)
    ensures
        r == strings_view(v@).contains(t@),
{
    let mut i: usize = 0;
    while i < v.len()
        invariant
            i <= v@.len(),
            forall|j: int| 0 <= j < i ==> v@[j]@ != t@,
        decreases v@.len() - i,
    {
        if str_eq(v[i].as_str(), t) {
            proof {
                assert(strings_view(v@)[i as int] == t@);
            }
            return true;
        }
        i += 1;
    }
    proof {
        if strings_view(v@).contains(t@) {
            let j = choose|j: int| 0 <= j < strings_view(v@).len() && strings_view(v@)[j] == t@;
            assert(v@[j]@ == t@);
        }
    }
    false
}

fn one_string(a: &str) -> (r: Vec<String>)
    ensures
        strings_view(r@) == seq![a@],
{
    let mut r: Vec<String> = Vec::new();
    r.push(owned(a));
    proof {
        assert(strings_view(r@) =~= seq![a@]);
    }
    r
}

fn bare_status(state: &str, url: &str, reason: String, actions: Vec<String>) -> (r: RpcStatusView)
    ensures
        rpc_status_bare(r),
        r.state@ == state@,
        r.source@ == rpc_source(),
        r.url@ == url@,
        opt_str_view(r.reason) == Some(reason@),
        r.actions == actions,
{
    RpcStatusView {
        state: owned(state),
        source: owned("daemon rpc · durable write plane"),
        url: owned(url),
        reason: Some(reason),
        auth_mode: None,
        signer_mode: None,
        default_signer_mode: None,
        supported_signer_modes: Vec::new(),
        bridge_enabled: None,
        bridge_ready: None,
        relay_count: None,
        available_nip46_signer_sessions: None,
        job_status_retention: None,
        retained_jobs: None,
        accepted_jobs: None,
        published_jobs: None,
        failed_jobs: None,
        recovered_failed_jobs: None,
        session_surface_enabled: false,
        methods_count: 0,
        actions,
    }
}

/// The `rpc status` output for the daemon at `url` given the bridge status call's outcome.
pub fn status(url: &str, bridge: Result<BridgeStatusRemote, DaemonRpcError>) -> (r: CommandOutput)
    ensures
        rpc_status_holds(r, url@, bridge),
{
    match bridge {
        Ok(status) => {
            let session_surface_enabled = contains_str(&status.methods, "nip46.session.list");
            let methods_count = status.methods.len();
            let view = RpcStatusView {
                state: if status.ready {
                    owned("ready")
                } else {
                    owned("degraded")
                },
                source: owned("daemon rpc · durable write plane"),
                url: owned(url),
                reason: if status.ready {
                    None
                } else {
                    Some(owned("bridge is reachable but not ready for durable publish traffic"))
                },
                auth_mode: Some(status.auth_mode),
                signer_mode: Some(status.signer_mode),
                default_signer_mode: Some(status.default_signer_mode),
                supported_signer_modes: status.supported_signer_modes,
                bridge_enabled: Some(status.enabled),
                bridge_ready: Some(status.ready),
                relay_count: Some(status.relay_count),
                available_nip46_signer_sessions: Some(status.available_nip46_signer_sessions),
                job_status_retention: Some(status.job_status_retention),
                retained_jobs: Some(status.retained_jobs),
                accepted_jobs: Some(status.accepted_jobs),
                published_jobs: Some(status.published_jobs),
                failed_jobs: Some(status.failed_jobs),
                recovered_failed_jobs: Some(status.recovered_failed_jobs),
                session_surface_enabled,
                methods_count,
                actions: if status.ready {
                    Vec::new()
                } else {
                    one_string("radroots relay ls")
                },
            };
            proof {
                if status.ready {
                    assert(strings_view(view.actions@) =~= Seq::<Seq<char>>::empty());
                }
            }
            CommandOutput::success(CommandView::RpcStatus(view))
        },
        Err(error) => {
            let reason = owned(error.reason());
            match error {
                DaemonRpcError::Unconfigured(_) | DaemonRpcError::Unauthorized(_)
                | DaemonRpcError::MethodUnavailable(_) => {
                    let mut actions: Vec<String> = Vec::new();
                    actions.push(owned("set RADROOTS_RPC_BEARER_TOKEN in .env or your shell"));
                    actions.push(owned("start radrootsd with bridge ingress enabled"));
                    proof {
                        assert(strings_view(actions@) =~= seq![
                            "set RADROOTS_RPC_BEARER_TOKEN in .env or your shell"@,
                            "start radrootsd with bridge ingress enabled"@,
                        ]);
                    }
                    CommandOutput::unconfigured(
                        CommandView::RpcStatus(bare_status("unconfigured", url, reason, actions)),
                    )
                },
                DaemonRpcError::External(_) => CommandOutput::external_unavailable(
                    CommandView::RpcStatus(
                        bare_status(
                            "unavailable",
                            url,
                            reason,
                            one_string("start radrootsd and verify the rpc url"),
                        ),
                    ),
                ),
                DaemonRpcError::InvalidResponse(_) | DaemonRpcError::Remote(_) => CommandOutput::internal_error(
                    CommandView::RpcStatus(
                        bare_status(
                            "error",
                            url,
                            reason,
                            one_string("inspect the daemon rpc response contract"),
                        ),
                    ),
                ),
                DaemonRpcError::UnknownJob(_) => CommandOutput::internal_error(
                    CommandView::RpcStatus(bare_status("error", url, reason, Vec::new())),
                ),
            }
        },
    }
}

/// What `rpc sessions` reports for the daemon at `url` given the session list call's outcome.
pub open spec fn rpc_sessions_holds(
    out: CommandOutput,
    url: Seq<char>,
    listed: Result<Vec<Nip46SessionRemote>, DaemonRpcError>,
) -> bool {
    &&& out.view matches CommandView::RpcSessions(v)
    &&& v.source@ == rpc_source()
    &&& v.url@ == url
    &&& v.count == v.sessions@.len()
    &&& match listed {
        Ok(sessions) => {
            &&& out.disposition == OutputDisposition::Success
            &&& v.sessions@.len() == sessions@.len()
            &&& forall|i: int|
                0 <= i < sessions@.len() ==> #[trigger] v.sessions@[i].session_id
                    == sessions@[i].session_id
            &&& v.state@ == (if sessions@.len() == 0 { "empty"@ } else { "ready"@ })
            &&& v.reason is None
            &&& v.actions@.len() == 0
        },
        Err(e) => {
            &&& v.sessions@.len() == 0
            &&& opt_str_view(v.reason) == Some(e.reason_view())
            &&& match e {
                DaemonRpcError::MethodUnavailable(_) => {
                    &&& out.disposition == OutputDisposition::Unconfigured
                    &&& v.state@ == "unconfigured"@
                    &&& strings_view(v.actions@) == seq![
                        "enable nip46.public_jsonrpc_enabled in radrootsd"@,
                    ]
                },
                DaemonRpcError::External(_) => {
                    &&& out.disposition == OutputDisposition::ExternalUnavailable
                    &&& v.state@ == "unavailable"@
                    &&& strings_view(v.actions@) == seq!["start radrootsd and verify the rpc url"@]
                },
                _ => {
                    &&& out.disposition == OutputDisposition::InternalError
                    &&& v.state@ == "error"@
                    &&& v.actions@.len() == 0
                },
            }
        },
    }
}

/// The `rpc sessions` output for the daemon at `url` given the session list call's outcome.
pub fn sessions(url: &str, listed: Result<Vec<Nip46SessionRemote>, DaemonRpcError>) -> (r: CommandOutput)
    ensures
        rpc_sessions_holds(r, url@, listed),
{
    match listed {
        Ok(list) => {
            let mut entries: Vec<RpcSessionView> = Vec::new();
            let mut rest = list;
            let ghost all = rest@;
            let total = rest.len();
            let mut taken: usize = 0;
            while rest.len() > 0
                invariant
                    taken + rest@.len() == all.len(),
                    all.len() == total,
                    rest@ == all.skip(taken as int),
                    entries@.len() == taken,
                    forall|i: int| 0 <= i < taken ==> #[trigger] entries@[i].session_id == all[i].session_id,
                decreases rest@.len(),
            {
                let session = rest.remove(0);
                proof {
                    assert(all.skip(taken as int)[0] == session);
                    assert(all.skip(taken + 1) =~= all.skip(taken as int).drop_first());
                }
                entries.push(map_session_view(session));
                taken += 1;
            }
            let count = entries.len();
            let state = if count == 0 { owned("empty") } else { owned("ready") };
            CommandOutput::success(
                CommandView::RpcSessions(
                    RpcSessionsView {
                        state,
                        source: owned("daemon rpc · durable write plane"),
                        url: owned(url),
                        count,
                        reason: None,
                        sessions: entries,
                        actions: Vec::new(),
                    },
                ),
            )
        },
        Err(error) => {
            let reason = owned(error.reason());
            let (disposition, state, actions) = match error {
                DaemonRpcError::MethodUnavailable(_) => (
                    OutputDisposition::Unconfigured,
                    "unconfigured",
                    one_string("enable nip46.public_jsonrpc_enabled in radrootsd"),
                ),
                DaemonRpcError::External(_) => (
                    OutputDisposition::ExternalUnavailable,
                    "unavailable",
                    one_string("start radrootsd and verify the rpc url"),
                ),
                _ => (OutputDisposition::InternalError, "error", Vec::new()),
            };
            CommandOutput {
                disposition,
                view: CommandView::RpcSessions(
                    RpcSessionsView {
                        state: owned(state),
                        source: owned("daemon rpc · durable write plane"),
                        url: owned(url),
                        count: 0,
                        reason: Some(reason),
                        sessions: Vec::new(),
                        actions,
                    },
                ),
            }
        },
    }
}

/// The outcome of a listing publish through the daemon.
#[derive(Debug, Clone, PartialEq, Eq)]
pub struct BridgeListingPublishResult {
    pub deduplicated: bool,
    pub job_id: String,
    pub idempotency_key: Option<String>,
    pub status: String,
    pub signer_mode: String,
    pub signer_session_id: Option<String>,
    pub event_kind: Option<u32>,
    pub event_id: Option<String>,
    pub event_addr: Option<String>,
}

/// The outcome of an order request through the daemon.
#[derive(Debug, Clone, PartialEq, Eq)]
pub struct BridgeOrderRequestResult {
    pub deduplicated: bool,
    pub job_id: String,
    pub idempotency_key: Option<String>,
    pub status: String,
    pub signer_mode: String,
    pub signer_session_id: Option<String>,
    pub event_id: Option<String>,
    pub event_addr: Option<String>,
}

/// What the daemon's write plane acknowledged for a publish.
#[derive(Debug, Clone, PartialEq, Eq)]
pub struct DaemonTransportReceipt {
    pub deduplicated: bool,
    pub job_id: Option<String>,
    pub status: Option<String>,
    pub signer_mode: Option<String>,
    pub signer_session_id: Option<String>,
    pub event_addr: Option<String>,
}

/// A publish receipt: the daemon's acknowledgement (absent when another transport answered)
/// and the event it names.
#[derive(Debug, Clone, PartialEq, Eq)]
pub struct PublishReceipt {
    pub transport: Option<DaemonTransportReceipt>,
    pub event_kind: Option<u32>,
    pub event_id: Option<String>,
}

/// Why a receipt of a `what` publish (`listing` or `order`) is unusable, if it is.
pub open spec fn receipt_error(what: Seq<char>, receipt: PublishReceipt) -> Option<Seq<char>> {
    match receipt.transport {
        None => Some("sdk "@ + what + " publish returned a non-radrootsd transport receipt"@),
        Some(t) => if t.job_id is None {
            Some("sdk "@ + what + " publish did not return a job id"@)
        } else if t.status is None {
            Some("sdk "@ + what + " publish did not return a job status"@)
        } else if t.signer_mode is None {
            Some("sdk "@ + what + " publish did not return a signer mode"@)
        } else {
            None
        },
    }
}

fn receipt_problem(what: &str, receipt: &PublishReceipt) -> (r: Option<String>)
    ensures
        opt_str_view(r) == receipt_error(what@, *receipt),
{
    match &receipt.transport {
        None => {
            let mut m = concat2("sdk ", what);
            append_str(&mut m, " publish returned a non-radrootsd transport receipt");
            Some(m)
        },
        Some(t) => {
            let tail = if t.job_id.is_none() {
                " publish did not return a job id"
            } else if t.status.is_none() {
                " publish did not return a job status"
            } else if t.signer_mode.is_none() {
                " publish did not return a signer mode"
            } else {
                return None;
            };
            let mut m = concat2("sdk ", what);
            append_str(&mut m, tail);
            Some(m)
        },
    }
}

fn opt_owned(o: Option<&str>) -> (r: Option<String>)
    ensures
        opt_str_view(r) == (match o {
            Some(s) => Some(s@),
            None => None::<Seq<char>>,
        }),
{
    match o {
        Some(s) => Some(owned(s)),
        None => None,
    }
}

/// The result of a listing publish from its receipt.
pub fn map_listing_publish_receipt(receipt: PublishReceipt, idempotency_key: Option<&str>) -> (r: Result<
    BridgeListingPublishResult,
    DaemonRpcError,
>)
    ensures
        match receipt_error("listing"@, receipt) {
            Some(m) => r matches Err(DaemonRpcError::InvalidResponse(x)) && x@ == m,
            None => r matches Ok(v) && receipt.transport matches Some(t) && v.deduplicated == t.deduplicated
                && Some(v.job_id) == t.job_id && Some(v.status) == t.status && Some(v.signer_mode)
                == t.signer_mode && v.signer_session_id == t.signer_session_id && v.event_addr
                == t.event_addr && v.event_kind == receipt.event_kind && v.event_id == receipt.event_id
                && opt_str_view(v.idempotency_key) == (match idempotency_key {
                Some(k) => Some(k@),
                None => None::<Seq<char>>,
            }),
        },
{
    if let Some(m) = receipt_problem("listing", &receipt) {
        return Err(DaemonRpcError::InvalidResponse(m));
    }
    let t = match receipt.transport {
        Some(t) => t,
        None => {
            return Err(DaemonRpcError::InvalidResponse(owned("sdk listing publish returned a non-radrootsd transport receipt")));
        },
    };
    match (t.job_id, t.status, t.signer_mode) {
        (Some(job_id), Some(status), Some(signer_mode)) => Ok(
            BridgeListingPublishResult {
                deduplicated: t.deduplicated,
                job_id,
                idempotency_key: opt_owned(idempotency_key),
                status,
                signer_mode,
                signer_session_id: t.signer_session_id,
                event_kind: receipt.event_kind,
                event_id: receipt.event_id,
                event_addr: t.event_addr,
            },
        ),
        _ => Err(DaemonRpcError::InvalidResponse(owned("sdk listing publish did not return a job id"))),
    }
}

/// The result of an order request from its receipt.
pub fn map_order_request_receipt(receipt: PublishReceipt, idempotency_key: Option<&str>) -> (r: Result<
    BridgeOrderRequestResult,
    DaemonRpcError,
>)
    ensures
        match receipt_error("order"@, receipt) {
            Some(m) => r matches Err(DaemonRpcError::InvalidResponse(x)) && x@ == m,
            None => r matches Ok(v) && receipt.transport matches Some(t) && v.deduplicated == t.deduplicated
                && Some(v.job_id) == t.job_id && Some(v.status) == t.status && Some(v.signer_mode)
                == t.signer_mode && v.signer_session_id == t.signer_session_id && v.event_addr
                == t.event_addr && v.event_id == receipt.event_id && opt_str_view(v.idempotency_key)
                == (match idempotency_key {
                Some(k) => Some(k@),
                None => None::<Seq<char>>,
            }),
        },
{
    if let Some(m) = receipt_problem("order", &receipt) {
        return Err(DaemonRpcError::InvalidResponse(m));
    }
    let t = match receipt.transport {
        Some(t) => t,
        None => {
            return Err(DaemonRpcError::InvalidResponse(owned("sdk order publish returned a non-radrootsd transport receipt")));
        },
    };
    match (t.job_id, t.status, t.signer_mode) {
        (Some(job_id), Some(status), Some(signer_mode)) => Ok(
            BridgeOrderRequestResult {
                deduplicated: t.deduplicated,
                job_id,
                idempotency_key: opt_owned(idempotency_key),
                status,
                signer_mode,
                signer_session_id: t.signer_session_id,
                event_id: receipt.event_id,
                event_addr: t.event_addr,
            },
        ),
        _ => Err(DaemonRpcError::InvalidResponse(owned("sdk order publish did not return a job id"))),
    }
}

/// The signer session a listing publish of `kind` uses: only kind 30402 is published, and a
/// signer session is required.
pub fn listing_publish_session(kind: u32, signer_session_id: Option<&str>) -> (r: Result<String, DaemonRpcError>)
    ensures
        kind != 30402 ==> (r matches Err(DaemonRpcError::External(m)) && m@
            == "sdk listing publish only supports kind 30402, got "@ + decimal(kind as nat)),
        kind == 30402 && signer_session_id is None ==> (r matches Err(DaemonRpcError::Unconfigured(m))
            && m@ == "listing publish requires a signer session id"@),
        kind == 30402 && signer_session_id is Some ==> (r matches Ok(s) && s@ == signer_session_id->0@),
{
    if kind != 30402 {
        let digits = decimal_string(kind as u128);
        return Err(
            DaemonRpcError::External(concat2("sdk listing publish only supports kind 30402, got ", digits.as_str())),
        );
    }
    match signer_session_id {
        Some(s) => Ok(owned(s)),
        None => Err(DaemonRpcError::Unconfigured(owned("listing publish requires a signer session id"))),
    }
}

/// The signer session an order request uses; one is required.
pub fn order_request_session(signer_session_id: Option<&str>) -> (r: Result<String, DaemonRpcError>)
    ensures
        signer_session_id is None ==> (r matches Err(DaemonRpcError::Unconfigured(m)) && m@
            == "order publish requires a signer session id"@),
        signer_session_id is Some ==> (r matches Ok(s) && s@ == signer_session_id->0@),
{
    match signer_session_id {
        Some(s) => Ok(owned(s)),
        None => Err(DaemonRpcError::Unconfigured(owned("order publish requires a signer session id"))),
    }
}

} // verus!
