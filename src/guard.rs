use vstd::prelude::*;

use crate::identity::{
    bearer_identity, bearer_of, bearer_parts, digits, lemma_digits_injective, lemma_digits_plain,
    now_seconds, signed_claims, Cliams, CredentialError, Identity,
};

verus! {

/// The session tokens the store holds, by subject id: one entry per existing
/// subject, empty when the subject has no live session.
pub type SessionTable = Map<i64, Seq<char>>;

/// The view of the anonymous identity.
pub open spec fn anonymous() -> (i64, Seq<char>) {
    (0, Seq::<char>::empty())
}

/// The session token the store holds for `id`, if the subject exists.
pub open spec fn stored_token(store: SessionTable, id: i64) -> Option<Seq<char>> {
    if store.dom().contains(id) {
        Some(store[id])
    } else {
        None
    }
}

/// The store once a login of subject `id` (a subject the login found) has
/// recorded `token`.
pub open spec fn after_login(store: SessionTable, id: i64, token: Seq<char>) -> SessionTable {
    store.insert(id, token)
}

/// The store once the logout of `subject` has been carried out: its token is
/// cleared when the subject exists; the anonymous subject changes nothing.
pub open spec fn after_logout(store: SessionTable, subject: i64) -> SessionTable {
    if subject != 0 && store.dom().contains(subject) {
        store.insert(subject, Seq::<char>::empty())
    } else {
        store
    }
}

/// The identity the guard attaches to a request whose credential decoded to
/// `candidate`, when the store holds `stored` for that subject: the candidate
/// when its token is the live, non-empty session token, else the anonymous one.
pub open spec fn admitted(candidate: (i64, Seq<char>), stored: Option<Seq<char>>) -> (i64, Seq<char>) {
    match stored {
        Some(p) => if p.len() > 0 && p == candidate.1 {
            candidate
        } else {
            anonymous()
        },
        None => anonymous(),
    }
}

/// The view of an optional stored token.
pub open spec fn view_of(s: Option<String>) -> Option<Seq<char>> {
    match s {
        Some(p) => Some(p@),
        None => None,
    }
}

/// The first step of the guard for one request.
#[derive(Debug, Clone)]
pub enum GuardStep {
    /// The request is decided without the store: it carries no credential, or
    /// one that does not decode.
    Resolved(Identity),
    /// The credential decoded to this identity; the store's session token for its
    /// subject decides (see `guard_finish`).
    CheckSession(Identity),
}

/// The guard's first step at time `now`, given the bearer string of the
/// request's authorization header, if any.
pub fn guard_begin_at(bearer: Option<String>, secret: &[u8], now: i64) -> (r: GuardStep)
    ensures
        bearer is None ==> r is Resolved && r->Resolved_0@ == anonymous(),
        bearer matches Some(b) ==> match bearer_identity(b@, secret@, now) {
            Some(v) => r is CheckSession && r->CheckSession_0@ == v,
            None => r is Resolved && r->Resolved_0@ == anonymous(),
        },
        r is CheckSession ==> r->CheckSession_0.wf(),
        forall|k: Cliams, session: Seq<char>|
            0 <= k.exp && now < k.exp && k.id != 0 && !session.contains('~') && view_of(bearer) == Some(
                #[trigger] bearer_of(session, signed_claims(k.exp, k.iat, k.id, secret@)),
            ) ==> r is CheckSession && r->CheckSession_0@ == (k.id, session),
{
    match bearer {
        None => GuardStep::Resolved(Identity::empty()),
        Some(b) => match Identity::decode_at(b, secret, now) {
            Ok(x) => GuardStep::CheckSession(x),
            Err(_) => GuardStep::Resolved(Identity::empty()),
        },
    }
}

/// The guard's first step at the current time (see `guard_begin_at`).
pub fn guard_begin(bearer: Option<String>, secret: &[u8]) -> (r: GuardStep)
    ensures
        bearer is None ==> r is Resolved && r->Resolved_0@ == anonymous(),
        bearer matches Some(b) && bearer_parts(b@) is None ==> r is Resolved && r->Resolved_0@
            == anonymous(),
        r is CheckSession ==> r->CheckSession_0.wf() && r->CheckSession_0@.0 != 0 && exists|now: i64|
            0 <= now && bearer_identity(view_of(bearer)->0, secret@, now) == Some(
                #[trigger] r->CheckSession_0@,
            ),
{
    let ghost b = view_of(bearer);
    let now = now_seconds();
    let r = guard_begin_at(bearer, secret, now);
    proof {
        if r is CheckSession {
            assert(bearer_identity(b->0, secret@, now) == Some(r->CheckSession_0@));
        }
    }
    r
}

/// The guard's second step: the identity attached to the request, given the
/// session token the store holds for the candidate's subject (`None` when the
/// subject no longer exists).
pub fn guard_finish(candidate: Identity, stored: Option<String>) -> (r: Identity)
    requires
        candidate.wf(),
    ensures
        r.wf(),
        r@ == admitted(candidate@, view_of(stored)),
{
    match stored {
        Some(p) => {
            if !p.as_str().is_empty() && candidate.match_token(p) {
                candidate
            } else {
                Identity::empty()
            }
        },
        None => Identity::empty(),
    }
}

/// The subject a route that requires a principal may act for: the anonymous
/// identity is refused as unauthenticated.
pub fn require_principal(identity: &Identity) -> (r: Result<i64, CredentialError>)
    ensures
        identity.subject() == 0 ==> r == Err::<i64, CredentialError>(CredentialError::Invalid),
        identity.subject() != 0 ==> r == Ok::<i64, CredentialError>(identity@.0),
{
    let id = identity.id();
    if id == 0 {
        Err(CredentialError::Invalid)
    } else {
        Ok(id)
    }
}

/// A credential that decoded to `candidate` is admitted by the guard right after
/// its login recorded the candidate's token for the subject.
pub proof fn lemma_fresh_session_admitted(store: SessionTable, candidate: (i64, Seq<char>))
    requires
        candidate.1.len() > 0,
    ensures
        admitted(candidate, stored_token(after_login(store, candidate.0, candidate.1), candidate.0))
            == candidate,
{
}

/// A credential that decodes but whose token is not the one the store holds for
/// its subject (a later login replaced it, or a logout cleared it) is treated as
/// unauthenticated.
pub proof fn lemma_superseded_session_rejected(store: SessionTable, candidate: (i64, Seq<char>))
    requires
        stored_token(store, candidate.0) != Some(candidate.1),
    ensures
        admitted(candidate, stored_token(store, candidate.0)) == anonymous(),
{
}

/// Logout is idempotent: a second logout changes nothing, the subject's stored
/// token is empty afterwards, logout of the anonymous identity leaves the store as
/// it was, and no credential of the subject is admitted any more.
pub proof fn lemma_logout_idempotent(store: SessionTable, subject: i64)
    ensures
        after_logout(after_logout(store, subject), subject) == after_logout(store, subject),
        subject == 0 ==> after_logout(store, subject) == store,
        subject != 0 && store.dom().contains(subject) ==> stored_token(
            after_logout(store, subject),
            subject,
        ) == Some(Seq::<char>::empty()),
        subject != 0 ==> forall|token: Seq<char>|
            #[trigger] admitted((subject, token), stored_token(after_logout(store, subject), subject))
                == anonymous(),
{
    if subject != 0 && store.dom().contains(subject) {
        let once = after_logout(store, subject);
        assert(once.insert(subject, Seq::<char>::empty()) =~= once);
    }
}

/// Of two logins of one subject, only the one recorded last stays valid: the
/// other's bearer string still decodes but fails the guard's comparison. Each
/// login's session token is spelled from the nonce it drew; the two nonces
/// differ (they are drawn at random).
pub proof fn lemma_latest_login_wins(store: SessionTable, subject: i64, first: u64, second: u64)
    requires
        first != second,
    ensures
        ({
            let s = after_login(
                after_login(store, subject, digits(first as nat)),
                subject,
                digits(second as nat),
            );
            &&& admitted((subject, digits(first as nat)), stored_token(s, subject)) == anonymous()
            &&& admitted((subject, digits(second as nat)), stored_token(s, subject)) == (
                subject,
                digits(second as nat),
            )
        }),
{
    lemma_digits_injective(first as nat, second as nat);
    lemma_digits_plain(second as nat);
}

} // verus!
