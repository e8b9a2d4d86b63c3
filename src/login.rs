use vstd::prelude::*;

use crate::guard::{after_logout, SessionTable};
use crate::identity::{
    bearer_of, decimal_u64, digits, lemma_digits_plain, now_seconds, signed_claims, Identity,
    CREDENTIAL_LIFETIME,
};

verus! {

/// A login request.
#[derive(Debug, Clone)]
pub struct ReqLogin {
    pub username: String,
    pub password: String,
}

/// What a successful login returns to the client.
#[derive(Debug, Clone)]
pub struct RespLogin {
    pub name: String,
    pub role: i64,
    pub auth_token: String,
}

/// The subject record that the login lookup found by login name.
#[derive(Debug, Clone)]
pub struct Account {
    pub employee_id: i64,
    pub realname: String,
    /// The stored bcrypt hash of the subject's password.
    pub login_pwd: String,
}

/// Which record a login could not find.
#[derive(Debug, Clone, Copy, PartialEq, Eq, Structural)]
pub enum MissingRecord {
    /// No subject has the login name.
    Account,
    /// The subject has no role assignment.
    Role,
}

/// Why a login did not succeed.
#[derive(Debug, Clone, Copy, PartialEq, Eq, Structural)]
pub enum AuthError {
    NotFound(MissingRecord),
    /// The password does not match the stored hash.
    InvalidCredentials,
    /// The credential could not be issued or the session could not be stored.
    SystemError,
}

/// A login that passed every check: the response for the client, and what the
/// session store must record for the subject before the response is sent: a
/// fresh session token, drawn at random for this login. The client's bearer
/// string carries the same token beside the signed claims, so a later login or
/// a logout revokes it.
#[derive(Debug, Clone)]
pub struct LoginGrant {
    pub subject_id: i64,
    pub login_at: i64,
    pub session_token: String,
    pub resp: RespLogin,
}

impl ReqLogin {
    /// Both the login name and the password are required.
    pub fn validate(&self) -> (r: bool)
        ensures
            r == (self.username@.len() > 0 && self.password@.len() > 0),
    {
        !self.username.as_str().is_empty() && !self.password.as_str().is_empty()
    }
}

impl LoginGrant {
    /// Completes the login once the store has been asked to record the session:
    /// the response when it was recorded, `SystemError` when it was not.
    pub fn confirm(self, stored: bool) -> (r: Result<RespLogin, AuthError>)
        ensures
            stored ==> r == Ok::<RespLogin, AuthError>(self.resp),
            !stored ==> r == Err::<RespLogin, AuthError>(AuthError::SystemError),
    {
        if stored {
            Ok(self.resp)
        } else {
            Err(AuthError::SystemError)
        }
    }
}

#[verifier::external_type_specification]
#[verifier::external_body]
pub struct ExBcryptError(bcrypt::BcryptError);

/// What bcrypt's verification says of `password` against the stored `hash`:
/// whether they match, or `None` when the hash is not in bcrypt's format.
pub uninterp spec fn password_verdict(password: Seq<char>, hash: Seq<char>) -> Option<bool>;

/// Relies on bcrypt::verify: cost and salt are read from the stored hash, so the
/// verdict depends on the password and the hash alone; a hash that does not
/// parse is an error.
#[verifier::external_body]
fn verify_password(password: &str, hash: &str) -> (r: Result<bool, bcrypt::BcryptError>)
    ensures
        r is Ok <==> password_verdict(password@, hash@) is Some,
        r matches Ok(b) ==> password_verdict(password@, hash@) == Some(b),
{
    bcrypt::verify(password, hash)
}

/// Relies on rand::random (thread-local generator seeded by the operating
/// system): nothing is known of the value drawn.
pub assume_specification<T>[ rand::random::<T> ]() -> (r: T)
    where
        rand::distributions::Standard: rand::distributions::Distribution<T>,
;

/// The login decision for an account that exists and holds a role, once the
/// password has been checked: a session token spelled from `nonce`, and the
/// bearer string issued at `now` that carries it.
pub fn grant_login(
    account: Account,
    role_id: i64,
    password_ok: bool,
    nonce: u64,
    secret: &[u8],
    now: i64,
) -> (r: Result<LoginGrant, AuthError>)
    ensures
        !password_ok ==> r == Err::<LoginGrant, AuthError>(AuthError::InvalidCredentials),
        password_ok && account.employee_id != 0 && 0 <= now + CREDENTIAL_LIFETIME <= i64::MAX
            ==> r is Ok,
        password_ok && !(account.employee_id != 0 && 0 <= now + CREDENTIAL_LIFETIME <= i64::MAX)
            ==> r == Err::<LoginGrant, AuthError>(AuthError::SystemError),
        r is Ok ==> granted(r->Ok_0, account, role_id, nonce, secret@, now),
{
    if !password_ok {
        return Err(AuthError::InvalidCredentials);
    }
    let session_token = decimal_u64(nonce);
    proof {
        lemma_digits_plain(nonce as nat);
    }
    let subject = Identity::new(account.employee_id, session_token.clone());
    match subject.to_bearer_at(secret, now) {
        Ok(auth_token) => Ok(
            LoginGrant {
                subject_id: account.employee_id,
                login_at: now,
                session_token,
                resp: RespLogin { name: account.realname, role: role_id, auth_token },
            },
        ),
        Err(_) => Err(AuthError::SystemError),
    }
}

/// What a successful login of `account` with role `role_id` hands back: the
/// subject, the time, the session token spelled from `nonce`, and the bearer
/// string carrying that token beside the claims signed at `now`.
pub open spec fn granted(
    g: LoginGrant,
    account: Account,
    role_id: i64,
    nonce: u64,
    secret: Seq<u8>,
    now: i64,
) -> bool {
    &&& account.employee_id != 0
    &&& 0 <= now + CREDENTIAL_LIFETIME <= i64::MAX
    &&& g.subject_id == account.employee_id
    &&& g.login_at == now
    &&& g.session_token@ == digits(nonce as nat)
    &&& g.resp.name@ == account.realname@
    &&& g.resp.role == role_id
    &&& g.resp.auth_token@ == bearer_of(
        digits(nonce as nat),
        signed_claims((now + CREDENTIAL_LIFETIME) as i64, now, account.employee_id, secret),
    )
}

/// The login decision at time `now` with the random `nonce`, given what the
/// lookups found: the account with the requested login name and the role
/// assigned to it. The supplied password must pass bcrypt's verification
/// against the stored hash.
pub fn login_at(
    req: &ReqLogin,
    account: Option<Account>,
    role: Option<i64>,
    nonce: u64,
    secret: &[u8],
    now: i64,
) -> (r: Result<LoginGrant, AuthError>)
    ensures
        account is None ==> r == Err::<LoginGrant, AuthError>(
            AuthError::NotFound(MissingRecord::Account),
        ),
        account is Some && role is None ==> r == Err::<LoginGrant, AuthError>(
            AuthError::NotFound(MissingRecord::Role),
        ),
        account matches Some(a) && role is Some && password_verdict(req.password@, a.login_pwd@)
            != Some(true) ==> r == Err::<LoginGrant, AuthError>(AuthError::InvalidCredentials),
        account matches Some(a) && role is Some && password_verdict(req.password@, a.login_pwd@)
            == Some(true) && a.employee_id != 0 && 0 <= now + CREDENTIAL_LIFETIME <= i64::MAX
            ==> r is Ok,
        account matches Some(a) && role is Some && password_verdict(req.password@, a.login_pwd@)
            == Some(true) && !(a.employee_id != 0 && 0 <= now + CREDENTIAL_LIFETIME <= i64::MAX)
            ==> r == Err::<LoginGrant, AuthError>(AuthError::SystemError),
        r is Ok ==> account is Some && role is Some && granted(
            r->Ok_0,
            account->0,
            role->0,
            nonce,
            secret@,
            now,
        ),
{
    let account = match account {
        Some(a) => a,
        None => return Err(AuthError::NotFound(MissingRecord::Account)),
    };
    let role_id = match role {
        Some(r) => r,
        None => return Err(AuthError::NotFound(MissingRecord::Role)),
    };
    let password_ok = match verify_password(req.password.as_str(), account.login_pwd.as_str()) {
        Ok(b) => b,
        Err(_) => false,
    };
    grant_login(account, role_id, password_ok, nonce, secret, now)
}

/// The login decision now, with a session token drawn at random (see
/// `login_at`).
pub fn login(req: &ReqLogin, account: Option<Account>, role: Option<i64>, secret: &[u8]) -> (r:
    Result<LoginGrant, AuthError>)
    ensures
        account is None ==> r == Err::<LoginGrant, AuthError>(
            AuthError::NotFound(MissingRecord::Account),
        ),
        account is Some && role is None ==> r == Err::<LoginGrant, AuthError>(
            AuthError::NotFound(MissingRecord::Role),
        ),
        account matches Some(a) && role is Some && password_verdict(req.password@, a.login_pwd@)
            != Some(true) ==> r == Err::<LoginGrant, AuthError>(AuthError::InvalidCredentials),
        account matches Some(a) && role is Some && password_verdict(req.password@, a.login_pwd@)
            == Some(true) ==> (r is Ok || r == Err::<LoginGrant, AuthError>(AuthError::SystemError)),
        account matches Some(a) && role is Some && password_verdict(req.password@, a.login_pwd@)
            == Some(true) && a.employee_id == 0 ==> r == Err::<LoginGrant, AuthError>(
            AuthError::SystemError,
        ),
        r is Ok ==> account is Some && role is Some && r->Ok_0.login_at >= 0 && exists|nonce: u64|
            #[trigger] granted(r->Ok_0, account->0, role->0, nonce, secret@, r->Ok_0.login_at),
{
    let nonce: u64 = rand::random::<u64>();
    let now = now_seconds();
    login_at(req, account, role, nonce, secret, now)
}

/// The subject whose stored session token a logout clears: none for the
/// anonymous identity, for which logout is a no-op success.
pub fn logout(identity: &Identity) -> (r: Option<i64>)
    ensures
        identity.subject() == 0 ==> r is None,
        identity.subject() != 0 ==> r == Some(identity@.0),
        forall|store: SessionTable|
            #[trigger] after_logout(store, identity@.0) == match r {
                Some(id) => if store.dom().contains(id) {
                    store.insert(id, Seq::<char>::empty())
                } else {
                    store
                },
                None => store,
            },
{
    let id = identity.id();
    if id == 0 {
        None
    } else {
        Some(id)
    }
}

} // verus!
