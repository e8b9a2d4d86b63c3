use vstd::prelude::*;

verus! {

/// How long a credential stays valid after it is issued, in seconds (24 hours).
pub const CREDENTIAL_LIFETIME: i64 = 24 * 60 * 60;

/// The claim set signed into a bearer credential.
#[derive(Debug, Clone, Copy)]
pub struct Cliams {
    /// Expiry, in seconds since the Unix epoch.
    pub exp: i64,
    /// Issue time, in seconds since the Unix epoch.
    pub iat: i64,
    /// The subject the credential was issued to.
    pub id: i64,
}

/// The claims `(exp, iat, id)` read back from a verified credential; each may be
/// missing from a token that some other issuer signed with the same key.
pub type ClaimFields = (Option<i64>, Option<i64>, Option<i64>);

/// Why a credential could not be produced or accepted.
#[derive(Debug, Clone, Copy, PartialEq, Eq, Structural)]
pub enum CredentialError {
    /// The signature does not verify, the token is malformed, or it has expired.
    Invalid,
    /// No credential can be issued: the identity is anonymous, the expiry is not
    /// a representable non-negative timestamp, or the session token holds a `~`.
    Unencodable,
}

#[verifier::external_type_specification]
#[verifier::external_body]
pub struct ExJwtError(jsonwebtoken::errors::Error);

/// The token that jsonwebtoken signs for the claims `{exp, iat, id}` under the
/// HMAC key `secret`, with the default HS256 header.
pub uninterp spec fn signed_claims(exp: i64, iat: i64, id: i64, secret: Seq<u8>) -> Seq<char>;

/// The integer claims `(exp, iat, id)` that jsonwebtoken recovers from `token`
/// under the HMAC key `secret`, with the expiry left unchecked; `None` when the
/// token is refused.
pub uninterp spec fn claims_in(token: Seq<char>, secret: Seq<u8>) -> Option<ClaimFields>;

/// Relies on jsonwebtoken::encode with `Header::default()` (HS256) and
/// `EncodingKey::from_secret`: the claims are serialised as a JSON object with the
/// keys exp, iat and id, and the token is a function of them and the key alone.
/// It does not fail: the key family matches HS256, the header and an integer map
/// always serialise, and HMAC signing returns a value.
#[verifier::external_body]
fn sign_claims(claims: &Cliams, secret: &[u8]) -> (r: Result<String, jsonwebtoken::errors::Error>)
    ensures
        r is Ok,
        r is Ok ==> r->Ok_0@ == signed_claims(claims.exp, claims.iat, claims.id, secret@),
{
    let fields = std::collections::BTreeMap::from(
        [("exp", claims.exp), ("iat", claims.iat), ("id", claims.id)],
    );
    jsonwebtoken::encode(
        &jsonwebtoken::Header::default(),
        &fields,
        &jsonwebtoken::EncodingKey::from_secret(secret),
    )
}

/// Relies on jsonwebtoken::decode with `Validation::default()` less its clock check
/// (`validate_exp = false`): it accepts a token when the HS256 signature verifies
/// under `secret` and the claims form a JSON object of integers whose `exp` is
/// present and non-negative; the empty token is refused as malformed. A token
/// that `encode` signed under the same key is accepted and gives back
/// its claims.
#[verifier::external_body]
fn verify_claims(token: &str, secret: &[u8]) -> (r: Result<ClaimFields, jsonwebtoken::errors::Error>)
    ensures
        r is Ok <==> claims_in(token@, secret@) is Some,
        r is Ok ==> token@.len() > 0,
        r matches Ok(c) ==> claims_in(token@, secret@) == Some(c),
        forall|k: Cliams|
            0 <= k.exp && token@ == #[trigger] signed_claims(k.exp, k.iat, k.id, secret@) ==> r is Ok
                && r->Ok_0 == (Some(k.exp), Some(k.iat), Some(k.id)),
{
    let mut validation = jsonwebtoken::Validation::default();
    validation.validate_exp = false;
    let key = jsonwebtoken::DecodingKey::from_secret(secret);
    let data = jsonwebtoken::decode::<std::collections::BTreeMap<String, i64>>(
        token,
        &key,
        &validation,
    )?;
    let c = &data.claims;
    Ok((c.get("exp").copied(), c.get("iat").copied(), c.get("id").copied()))
}

/// Relies on chrono's `Utc::now().timestamp()`: the current time in whole seconds
/// since the Unix epoch, which chrono only returns for times after the epoch.
#[verifier::external_body]
pub(crate) fn now_seconds() -> (r: i64)
    ensures
        r >= 0,
{
    chrono::Utc::now().timestamp()
}

/// The subject that a verified claim set names at time `now`: all three claims
/// present, the expiry still ahead, and a subject other than the anonymous one.
pub open spec fn claims_subject(claims: Option<ClaimFields>, now: i64) -> Option<i64> {
    match claims {
        Some((Some(exp), Some(_iat), Some(id))) => if now < exp && id != 0 {
            Some(id)
        } else {
            None
        },
        _ => None,
    }
}

/// The character of the decimal digit `d` (below 10).
pub open spec fn digit_char(d: nat) -> char {
    if d == 0 { '0' } else if d == 1 { '1' } else if d == 2 { '2' } else if d == 3 { '3' }
    else if d == 4 { '4' } else if d == 5 { '5' } else if d == 6 { '6' } else if d == 7 { '7' }
    else if d == 8 { '8' } else { '9' }
}

/// The decimal digits of `n`, most significant first.
pub open spec fn digits(n: nat) -> Seq<char>
    decreases n,
{
    let d = digit_char(n % 10);
    if n < 10 {
        seq![d]
    } else {
        digits(n / 10).push(d)
    }
}

/// The decimal spelling of `v`, with a leading '-' when it is negative.
pub open spec fn decimal(v: int) -> Seq<char> {
    if v < 0 {
        seq!['-'] + digits((-v) as nat)
    } else {
        digits(v as nat)
    }
}

/// Relies on `i64::to_string` (integer `Display`): the decimal spelling.
#[verifier::external_body]
fn decimal_string(v: i64) -> (r: String)
    ensures
        r@ == decimal(v as int),
{
    v.to_string()
}

/// Relies on `u64::to_string` (integer `Display`): the decimal spelling.
#[verifier::external_body]
pub(crate) fn decimal_u64(v: u64) -> (r: String)
    ensures
        r@ == digits(v as nat),
{
    v.to_string()
}

/// The bearer string a client presents: the session token, a `~`, and the
/// signed claims. The session token travels beside the signed claims, not in them.
pub open spec fn bearer_of(session: Seq<char>, credential: Seq<char>) -> Seq<char> {
    session + seq!['~'] + credential
}

/// `i` is the position of the first `~` in `b`.
pub open spec fn is_first_tilde(b: Seq<char>, i: int) -> bool {
    0 <= i < b.len() && b[i] == '~' && forall|j: int| 0 <= j < i ==> b[j] != '~'
}

/// The session token and the signed claims of a bearer string: the text before
/// its first `~` and the text after it.
pub open spec fn bearer_parts(b: Seq<char>) -> Option<(Seq<char>, Seq<char>)> {
    if exists|i: int| is_first_tilde(b, i) {
        let i = choose|i: int| is_first_tilde(b, i);
        Some((b.take(i), b.skip(i + 1)))
    } else {
        None
    }
}

/// The identity a bearer string proves at time `now`: the subject its signed
/// claims name and the session token it carries.
pub open spec fn bearer_identity(b: Seq<char>, secret: Seq<u8>, now: i64) -> Option<(i64, Seq<char>)> {
    match bearer_parts(b) {
        Some(p) => match claims_subject(claims_in(p.1, secret), now) {
            Some(id) => Some((id, p.0)),
            None => None,
        },
        None => None,
    }
}

/// The expiry in the verified claims of a bearer string, if it has one.
pub open spec fn bearer_expiry(b: Seq<char>, secret: Seq<u8>) -> Option<i64> {
    match bearer_parts(b) {
        Some(p) => match claims_in(p.1, secret) {
            Some((Some(exp), _, _)) => Some(exp),
            _ => None,
        },
        None => None,
    }
}

/// Relies on `str::split_once`: the text before the first `~` and the text after
/// it, or `None` when there is no `~`.
#[verifier::external_body]
fn split_bearer(b: &str) -> (r: Option<(String, String)>)
    ensures
        r is Some ==> b@ == (r->0).0@ + seq!['~'] + (r->0).1@,
        r is Some ==> !(r->0).0@.contains('~'),
        r is None ==> !b@.contains('~'),
{
    b.split_once('~').map(|(s, c)| (s.to_string(), c.to_string()))
}

proof fn lemma_first_tilde_unique(b: Seq<char>, i: int, j: int)
    requires
        is_first_tilde(b, i),
        is_first_tilde(b, j),
    ensures
        i == j,
{
}

/// A session token without `~` and a credential make a bearer string that
/// splits back into them.
pub proof fn lemma_bearer_parts(session: Seq<char>, credential: Seq<char>)
    requires
        !session.contains('~'),
    ensures
        bearer_parts(bearer_of(session, credential)) == Some((session, credential)),
{
    let b = bearer_of(session, credential);
    let n = session.len() as int;
    assert forall|j: int| 0 <= j < n implies b[j] != '~' by {
        assert(b[j] == session[j]);
        if session[j] == '~' {
            assert(session.contains('~'));
        }
    }
    assert(is_first_tilde(b, n));
    let i = choose|i: int| is_first_tilde(b, i);
    lemma_first_tilde_unique(b, i, n);
    assert(b.take(n) =~= session);
    assert(b.skip(n + 1) =~= credential);
}

proof fn lemma_split_matches(b: Seq<char>, before: Seq<char>, after: Seq<char>)
    requires
        b == before + seq!['~'] + after,
        !before.contains('~'),
    ensures
        bearer_parts(b) == Some((before, after)),
{
    lemma_bearer_parts(before, after);
}

proof fn lemma_no_tilde_no_parts(b: Seq<char>)
    requires
        !b.contains('~'),
    ensures
        bearer_parts(b) is None,
{
    if exists|i: int| is_first_tilde(b, i) {
        let i = choose|i: int| is_first_tilde(b, i);
        assert(b.contains('~'));
    }
}

/// Decimal digits are never a `~`, and there is at least one.
pub proof fn lemma_digits_plain(n: nat)
    ensures
        !digits(n).contains('~'),
        digits(n).len() >= 1,
        forall|k: int| 0 <= k < digits(n).len() ==> '0' <= #[trigger] digits(n)[k] <= '9',
    decreases n,
{
    if n >= 10 {
        lemma_digits_plain(n / 10);
    }
    assert forall|k: int| 0 <= k < digits(n).len() implies digits(n)[k] != '~' by {
    }
}

/// Different numbers have different decimal spellings.
pub proof fn lemma_digits_injective(n: nat, m: nat)
    requires
        n != m,
    ensures
        digits(n) != digits(m),
    decreases n + m,
{
    lemma_digits_plain(n / 10);
    lemma_digits_plain(m / 10);
    if n >= 10 && m >= 10 {
        if n / 10 != m / 10 {
            lemma_digits_injective(n / 10, m / 10);
            if digits(n) == digits(m) {
                assert(digits(n / 10) =~= digits(n).drop_last());
                assert(digits(m / 10) =~= digits(m).drop_last());
            }
        } else {
            assert(n % 10 != m % 10);
            assert(digits(n).last() != digits(m).last());
        }
    } else if n >= 10 || m >= 10 {
        assert(digits(n).len() != digits(m).len());
    } else {
        assert(digits(n)[0] != digits(m)[0]);
    }
}

/// A credential whose expiry has been reached names no subject, whatever its
/// signature.
pub proof fn lemma_expired_claims_rejected(claims: Option<ClaimFields>, now: i64)
    requires
        claims matches Some((Some(exp), _, _)) && now >= exp,
    ensures
        claims_subject(claims, now) is None,
{
}

/// The subject named by claims whose signature has been checked, at time `now`.
pub fn subject_of_claims(claims: ClaimFields, now: i64) -> (r: Option<i64>)
    ensures
        r == claims_subject(Some(claims), now),
{
    match claims {
        (Some(exp), Some(_iat), Some(id)) => {
            if now < exp && id != 0 {
                Some(id)
            } else {
                None
            }
        },
        _ => None,
    }
}

/// The principal resolved for one request: a subject id and the session token
/// that authenticated it. Subject id 0 is the anonymous identity.
#[derive(Debug, Clone)]
pub struct Identity {
    i: i64,
    t: String,
}

impl View for Identity {
    /// The subject id and the session token.
    type V = (i64, Seq<char>);

    closed spec fn view(&self) -> (i64, Seq<char>) {
        (self.i, self.t@)
    }
}

impl Identity {
    pub open spec fn subject(&self) -> int {
        self@.0 as int
    }

    pub open spec fn token(&self) -> Seq<char> {
        self@.1
    }

    /// An anonymous identity never carries a session token.
    pub open spec fn wf(&self) -> bool {
        self.subject() == 0 ==> self.token().len() == 0
    }

    /// An identity for `id` holding `token`; for id 0 the token is dropped, so
    /// that the anonymous identity stays token-free.
    pub fn new(id: i64, token: String) -> (r: Self)
        ensures
            r.wf(),
            r.subject() == id,
            id != 0 ==> r.token() == token@,
            id == 0 ==> r.token() == Seq::<char>::empty(),
    {
        if id == 0 {
            Self::empty()
        } else {
            Self { i: id, t: token }
        }
    }

    /// The anonymous identity.
    pub fn empty() -> (r: Self)
        ensures
            r.wf(),
            r.subject() == 0,
            r.token() == Seq::<char>::empty(),
    {
        Self { i: 0, t: String::new() }
    }

    pub fn id(&self) -> (r: i64)
        ensures
            r == self.subject(),
    {
        self.i
    }

    pub fn match_token(&self, token: String) -> (r: bool)
        ensures
            r == (self.token() == token@),
    {
        self.t == token
    }

    /// How the identity reads in logs: `<none>` for the anonymous identity,
    /// `id:<subject>|token:<token>` otherwise.
    pub fn to_string(&self) -> (r: String)
        ensures
            self.subject() == 0 ==> r@ == "<none>"@,
            self.subject() != 0 ==> r@ == "id:"@ + decimal(self.subject()) + "|token:"@ + self.token(),
    {
        if self.i == 0 {
            return String::from_str("<none>");
        }
        let mut out = String::from_str("id:");
        out.append(decimal_string(self.i).as_str());
        out.append("|token:");
        out.append(self.t.as_str());
        out
    }

    /// The signed claims for this identity issued at time `now`:
    /// `{exp: now + CREDENTIAL_LIFETIME, iat: now, id}` under `secret`. The session
    /// token is not among them. The anonymous identity gets none, nor does a time
    /// whose expiry is not a non-negative `i64`.
    pub fn to_auth_token_at(&self, secret: &[u8], now: i64) -> (r: Result<String, CredentialError>)
        ensures
            r is Ok <==> (self.subject() != 0 && 0 <= now + CREDENTIAL_LIFETIME <= i64::MAX),
            r is Ok ==> r->Ok_0@ == signed_claims(
                (now + CREDENTIAL_LIFETIME) as i64,
                now,
                self@.0,
                secret@,
            ),
            r is Err ==> r == Err::<String, CredentialError>(CredentialError::Unencodable),
    {
        if self.i == 0 || now < -CREDENTIAL_LIFETIME || now > i64::MAX - CREDENTIAL_LIFETIME {
            return Err(CredentialError::Unencodable);
        }
        let claims = Cliams { exp: now + CREDENTIAL_LIFETIME, iat: now, id: self.i };
        match sign_claims(&claims, secret) {
            Ok(s) => Ok(s),
            Err(_) => Err(CredentialError::Unencodable),
        }
    }

    /// The signed claims for this identity, issued now (see `to_auth_token_at`).
    pub fn to_auth_token(&self, secret: &[u8]) -> (r: Result<String, CredentialError>)
        ensures
            r matches Ok(s) ==> exists|now: i64|
                0 <= now && now + CREDENTIAL_LIFETIME <= i64::MAX && s@ == #[trigger] signed_claims(
                    (now + CREDENTIAL_LIFETIME) as i64,
                    now,
                    self@.0,
                    secret@,
                ),
            self.subject() == 0 ==> r == Err::<String, CredentialError>(
                CredentialError::Unencodable,
            ),
            self.subject() != 0 ==> (r is Ok || r == Err::<String, CredentialError>(
                CredentialError::Unencodable,
            )),
    {
        let now = now_seconds();
        self.to_auth_token_at(secret, now)
    }

    /// The bearer string for this identity issued at time `now`: its session
    /// token, `~`, and its signed claims. A session token holding `~` could not be
    /// read back, so it gets none.
    pub fn to_bearer_at(&self, secret: &[u8], now: i64) -> (r: Result<String, CredentialError>)
        ensures
            r is Ok <==> (self.subject() != 0 && 0 <= now + CREDENTIAL_LIFETIME <= i64::MAX
                && !self.token().contains('~')),
            r is Ok ==> r->Ok_0@ == bearer_of(
                self.token(),
                signed_claims((now + CREDENTIAL_LIFETIME) as i64, now, self@.0, secret@),
            ),
            r is Err ==> r == Err::<String, CredentialError>(CredentialError::Unencodable),
    {
        let parts = split_bearer(self.t.as_str());
        if parts.is_some() {
            proof {
                let p = parts->0;
                assert(self.t@[p.0@.len() as int] == '~');
            }
            return Err(CredentialError::Unencodable);
        }
        let signed = match self.to_auth_token_at(secret, now) {
            Ok(c) => c,
            Err(e) => return Err(e),
        };
        let mut out = self.t.clone();
        out.append("~");
        out.append(signed.as_str());
        proof {
            reveal_strlit("~");
        }
        assert(out@ =~= bearer_of(self.token(), signed@));
        Ok(out)
    }

    /// Decodes a bearer string at time `now`. The identity holds the subject its
    /// signed claims name and the session token it carries. A string without `~`,
    /// claims that do not verify, name the anonymous subject or have reached their
    /// expiry are `Invalid`.
    pub fn decode_at(bearer: String, secret: &[u8], now: i64) -> (r: Result<Identity, CredentialError>)
        ensures
            r is Ok <==> bearer_identity(bearer@, secret@, now) is Some,
            r is Ok ==> r->Ok_0.wf() && bearer_identity(bearer@, secret@, now) == Some(r->Ok_0@),
            r is Err ==> r == Err::<Identity, CredentialError>(CredentialError::Invalid),
            bearer_expiry(bearer@, secret@) matches Some(exp) && now >= exp ==> r is Err,
            forall|k: Cliams, session: Seq<char>|
                0 <= k.exp && !session.contains('~') && bearer@ == #[trigger] bearer_of(
                    session,
                    signed_claims(k.exp, k.iat, k.id, secret@),
                ) ==> (r is Ok <==> now < k.exp && k.id != 0) && (r is Ok ==> r->Ok_0@ == (
                    k.id,
                    session,
                )),
    {
        match split_bearer(bearer.as_str()) {
            None => {
                proof {
                    lemma_no_tilde_no_parts(bearer@);
                    assert forall|k: Cliams, session: Seq<char>|
                        !session.contains('~') && bearer@ == #[trigger] bearer_of(
                            session,
                            signed_claims(k.exp, k.iat, k.id, secret@),
                        ) implies false by {
                        lemma_bearer_parts(session, signed_claims(k.exp, k.iat, k.id, secret@));
                    }
                }
                Err(CredentialError::Invalid)
            },
            Some((session, signed)) => {
                proof {
                    lemma_split_matches(bearer@, session@, signed@);
                    assert forall|k: Cliams, s: Seq<char>|
                        !s.contains('~') && bearer@ == #[trigger] bearer_of(
                            s,
                            signed_claims(k.exp, k.iat, k.id, secret@),
                        ) implies s == session@ && signed@ == signed_claims(
                        k.exp,
                        k.iat,
                        k.id,
                        secret@,
                    ) by {
                        lemma_bearer_parts(s, signed_claims(k.exp, k.iat, k.id, secret@));
                    }
                }
                let claims = verify_claims(signed.as_str(), secret);
                match claims {
                    Ok(c) => match subject_of_claims(c, now) {
                        Some(id) => Ok(Identity { i: id, t: session }),
                        None => Err(CredentialError::Invalid),
                    },
                    Err(_) => Err(CredentialError::Invalid),
                }
            },
        }
    }

    /// Decodes a bearer string at the current time (see `decode_at`).
    pub fn from_auth_token(token: String, secret: &[u8]) -> (r: Result<Identity, CredentialError>)
        ensures
            bearer_parts(token@) is None ==> r is Err,
            r is Ok ==> r->Ok_0.wf() && exists|now: i64|
                0 <= now && #[trigger] bearer_identity(token@, secret@, now) == Some(r->Ok_0@),
            r is Err ==> r == Err::<Identity, CredentialError>(CredentialError::Invalid),
    {
        let now = now_seconds();
        Self::decode_at(token, secret, now)
    }
}

} // verus!
