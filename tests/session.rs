use pkg::guard::{guard_begin, guard_begin_at, guard_finish, require_principal, GuardStep};
use pkg::identity::{subject_of_claims, CredentialError, Identity, CREDENTIAL_LIFETIME};
use pkg::login::{grant_login, login, login_at, logout, Account, AuthError, MissingRecord, ReqLogin};

const SECRET: &[u8] = b"fixture-signing-secret";
const NOW: i64 = 1_700_000_000;

fn alice() -> Account {
    Account {
        employee_id: 7,
        realname: "Alice Liddell".to_string(),
        login_pwd: bcrypt::hash("correct", 4).unwrap(),
    }
}

fn req(password: &str) -> ReqLogin {
    ReqLogin { username: "alice".to_string(), password: password.to_string() }
}

fn candidate(step: GuardStep) -> Identity {
    match step {
        GuardStep::CheckSession(x) => x,
        GuardStep::Resolved(x) => panic!("resolved without the store: {}", x.to_string()),
    }
}

#[test]
fn login_success_then_guard_admits() {
    let grant = login_at(&req("correct"), Some(alice()), Some(3), 987654321, SECRET, NOW).unwrap();
    assert_eq!(grant.subject_id, 7);
    assert_eq!(grant.login_at, NOW);
    assert_eq!(grant.session_token, "987654321");
    assert_eq!(grant.resp.name, "Alice Liddell");
    assert_eq!(grant.resp.role, 3);
    assert!(grant.resp.auth_token.starts_with("987654321~"));

    let token = grant.resp.auth_token.clone();
    let stored = Some(grant.session_token.clone());
    let resp = grant.confirm(true).unwrap();
    assert_eq!(resp.auth_token, token);

    let x = candidate(guard_begin_at(Some(token), SECRET, NOW + 10));
    assert_eq!(x.id(), 7);
    let admitted = guard_finish(x, stored);
    assert_eq!(admitted.id(), 7);
    assert!(admitted.match_token("987654321".to_string()));
    assert_eq!(require_principal(&admitted), Ok(7));
}

#[test]
fn login_wrong_password_is_invalid_credentials() {
    let r = login_at(&req("wrong"), Some(alice()), Some(3), 1, SECRET, NOW);
    assert_eq!(r.err(), Some(AuthError::InvalidCredentials));
}

#[test]
fn login_against_malformed_hash_is_invalid_credentials() {
    let mut a = alice();
    a.login_pwd = "not-a-bcrypt-hash".to_string();
    let r = login_at(&req("correct"), Some(a), Some(3), 1, SECRET, NOW);
    assert_eq!(r.err(), Some(AuthError::InvalidCredentials));
}

#[test]
fn grant_follows_the_password_verdict() {
    let r = grant_login(alice(), 3, false, 5, SECRET, NOW);
    assert_eq!(r.err(), Some(AuthError::InvalidCredentials));
    let g = grant_login(alice(), 3, true, 5, SECRET, NOW).unwrap();
    assert_eq!(g.subject_id, 7);
    assert_eq!(g.resp.role, 3);
    assert_eq!(g.session_token, "5");
    let expected = Identity::new(7, "5".to_string()).to_bearer_at(SECRET, NOW).unwrap();
    assert_eq!(g.resp.auth_token, expected);
}

#[test]
fn wrong_password_leaves_old_credential_valid() {
    let grant = login_at(&req("correct"), Some(alice()), Some(3), 11, SECRET, NOW).unwrap();
    let token = grant.resp.auth_token.clone();
    let stored = Some(grant.session_token.clone());
    assert!(login_at(&req("wrong"), Some(alice()), Some(3), 12, SECRET, NOW + 5).is_err());
    let x = candidate(guard_begin_at(Some(token), SECRET, NOW + 6));
    assert_eq!(guard_finish(x, stored).id(), 7);
}

#[test]
fn login_unknown_account_is_not_found() {
    let r = login_at(&req("correct"), None, Some(3), 1, SECRET, NOW);
    assert_eq!(r.err(), Some(AuthError::NotFound(MissingRecord::Account)));
}

#[test]
fn login_without_role_is_not_found() {
    let r = login_at(&req("correct"), Some(alice()), None, 1, SECRET, NOW);
    assert_eq!(r.err(), Some(AuthError::NotFound(MissingRecord::Role)));
}

#[test]
fn login_of_subject_zero_is_system_error() {
    let mut a = alice();
    a.employee_id = 0;
    let r = login_at(&req("correct"), Some(a), Some(3), 1, SECRET, NOW);
    assert_eq!(r.err(), Some(AuthError::SystemError));
}

#[test]
fn login_with_expiry_out_of_range_is_system_error() {
    let r = login_at(&req("correct"), Some(alice()), Some(3), 1, SECRET, i64::MAX - 10);
    assert_eq!(r.err(), Some(AuthError::SystemError));
}

#[test]
fn unstored_session_fails_login() {
    let grant = login_at(&req("correct"), Some(alice()), Some(3), 1, SECRET, NOW).unwrap();
    assert_eq!(grant.confirm(false).err(), Some(AuthError::SystemError));
}

#[test]
fn login_at_current_time_round_trips() {
    let grant = login(&req("correct"), Some(alice()), Some(3), SECRET).unwrap();
    let token = grant.resp.auth_token.clone();
    let stored = grant.session_token.clone();
    assert!(!stored.is_empty());
    let x = Identity::from_auth_token(token.clone(), SECRET).unwrap();
    assert_eq!(x.id(), 7);
    assert!(x.match_token(stored.clone()));
    let step = guard_begin(Some(token), SECRET);
    assert_eq!(guard_finish(candidate(step), Some(stored)).id(), 7);
}

#[test]
fn logins_in_one_second_get_distinct_tokens() {
    let first = login(&req("correct"), Some(alice()), Some(3), SECRET).unwrap();
    let second = login(&req("correct"), Some(alice()), Some(3), SECRET).unwrap();
    assert_ne!(first.session_token, second.session_token);
    assert_ne!(first.resp.auth_token, second.resp.auth_token);
}

#[test]
fn bearer_then_decode_gives_subject_and_token() {
    let bearer = Identity::new(42, "s1".to_string()).to_bearer_at(SECRET, NOW).unwrap();
    let x = Identity::decode_at(bearer, SECRET, NOW).unwrap();
    assert_eq!(x.id(), 42);
    assert!(x.match_token("s1".to_string()));
}

#[test]
fn signed_claims_ignore_the_session_token() {
    let a = Identity::new(42, "s1".to_string()).to_auth_token_at(SECRET, NOW).unwrap();
    let b = Identity::new(42, "s2".to_string()).to_auth_token_at(SECRET, NOW).unwrap();
    assert_eq!(a, b);
    assert!(!a.contains('~'));
    assert_eq!(a.split('.').count(), 3);
}

#[test]
fn session_token_with_separator_gets_no_bearer() {
    let r = Identity::new(42, "a~b".to_string()).to_bearer_at(SECRET, NOW);
    assert_eq!(r.err(), Some(CredentialError::Unencodable));
}

#[test]
fn credential_expires_after_a_day() {
    let bearer = Identity::new(42, "s".to_string()).to_bearer_at(SECRET, NOW).unwrap();
    let last = NOW + CREDENTIAL_LIFETIME - 1;
    assert_eq!(Identity::decode_at(bearer.clone(), SECRET, last).unwrap().id(), 42);
    let r = Identity::decode_at(bearer.clone(), SECRET, NOW + CREDENTIAL_LIFETIME);
    assert_eq!(r.err(), Some(CredentialError::Invalid));
    let r = Identity::decode_at(bearer, SECRET, NOW + 3 * CREDENTIAL_LIFETIME);
    assert_eq!(r.err(), Some(CredentialError::Invalid));
}

#[test]
fn expired_claims_name_no_subject() {
    assert_eq!(subject_of_claims((Some(100), Some(10), Some(5)), 99), Some(5));
    assert_eq!(subject_of_claims((Some(100), Some(10), Some(5)), 100), None);
    assert_eq!(subject_of_claims((Some(100), Some(10), Some(0)), 50), None);
    assert_eq!(subject_of_claims((None, Some(10), Some(5)), 50), None);
    assert_eq!(subject_of_claims((Some(100), None, Some(5)), 50), None);
    assert_eq!(subject_of_claims((Some(100), Some(10), None), 50), None);
}

#[test]
fn wrong_secret_is_invalid() {
    let bearer = Identity::new(42, "s".to_string()).to_bearer_at(SECRET, NOW).unwrap();
    let r = Identity::decode_at(bearer, b"another-secret", NOW);
    assert_eq!(r.err(), Some(CredentialError::Invalid));
}

#[test]
fn tampered_credential_is_invalid() {
    let bearer = Identity::new(42, "s".to_string()).to_bearer_at(SECRET, NOW).unwrap();
    let mut bytes = bearer.into_bytes();
    let last = bytes.len() - 1;
    bytes[last] = if bytes[last] == b'A' { b'B' } else { b'A' };
    let tampered = String::from_utf8(bytes).unwrap();
    let r = Identity::decode_at(tampered, SECRET, NOW);
    assert_eq!(r.err(), Some(CredentialError::Invalid));
}

#[test]
fn malformed_credential_is_invalid() {
    for bad in ["", "abc", "a.b", "a.b.c", "s~", "s~a.b.c", "~"] {
        let r = Identity::decode_at(bad.to_string(), SECRET, NOW);
        assert_eq!(r.err(), Some(CredentialError::Invalid));
    }
    // The signed claims alone, without a session token, are no bearer string.
    let signed = Identity::new(42, "s".to_string()).to_auth_token_at(SECRET, NOW).unwrap();
    assert_eq!(Identity::decode_at(signed, SECRET, NOW).err(), Some(CredentialError::Invalid));
}

#[test]
fn anonymous_identity_gets_no_credential() {
    let r = Identity::empty().to_auth_token_at(SECRET, NOW);
    assert_eq!(r.err(), Some(CredentialError::Unencodable));
    let r = Identity::empty().to_auth_token(SECRET);
    assert_eq!(r.err(), Some(CredentialError::Unencodable));
    let r = Identity::empty().to_bearer_at(SECRET, NOW);
    assert_eq!(r.err(), Some(CredentialError::Unencodable));
}

#[test]
fn signed_claims_differ_by_issue_time() {
    let x = Identity::new(42, String::new());
    let a = x.to_auth_token_at(SECRET, NOW).unwrap();
    let b = x.to_auth_token_at(SECRET, NOW + 1).unwrap();
    assert_ne!(a, b);
    assert_eq!(a, x.to_auth_token_at(SECRET, NOW).unwrap());
    assert!(x.to_auth_token(SECRET).is_ok());
}

#[test]
fn superseded_session_is_rejected() {
    let bearer = Identity::new(42, "s1".to_string()).to_bearer_at(SECRET, NOW).unwrap();
    let x = candidate(guard_begin_at(Some(bearer), SECRET, NOW));
    assert_eq!(guard_finish(x.clone(), Some("s2".to_string())).id(), 0);
    assert_eq!(guard_finish(x.clone(), Some(String::new())).id(), 0);
    assert_eq!(guard_finish(x, None).id(), 0);
}

#[test]
fn latest_login_wins() {
    // Two logins of one subject in the same second, with different nonces.
    let first = login_at(&req("correct"), Some(alice()), Some(3), 111, SECRET, NOW).unwrap();
    let second = login_at(&req("correct"), Some(alice()), Some(3), 222, SECRET, NOW).unwrap();
    assert_ne!(first.session_token, second.session_token);
    assert_ne!(first.resp.auth_token, second.resp.auth_token);
    // The store holds the session recorded last.
    let stored = Some(second.session_token.clone());
    let x1 = candidate(guard_begin_at(Some(first.resp.auth_token.clone()), SECRET, NOW + 40));
    let x2 = candidate(guard_begin_at(Some(second.resp.auth_token.clone()), SECRET, NOW + 40));
    assert_eq!(x1.id(), 7);
    assert_eq!(guard_finish(x1, stored.clone()).id(), 0);
    assert_eq!(guard_finish(x2, stored).id(), 7);
}

#[test]
fn logout_clears_only_authenticated_subjects() {
    assert_eq!(logout(&Identity::empty()), None);
    assert_eq!(logout(&Identity::new(7, "tok".to_string())), Some(7));
    // Twice in a row: the same subject, never an error.
    let x = Identity::new(7, "tok".to_string());
    assert_eq!(logout(&x), Some(7));
    assert_eq!(logout(&x), Some(7));
}

#[test]
fn logged_out_session_is_rejected() {
    let grant = login_at(&req("correct"), Some(alice()), Some(3), 9, SECRET, NOW).unwrap();
    let token = grant.resp.auth_token.clone();
    let x = candidate(guard_begin_at(Some(token), SECRET, NOW + 1));
    assert_eq!(logout(&x), Some(7));
    // The store now holds an empty token for subject 7.
    assert_eq!(guard_finish(x, Some(String::new())).id(), 0);
}

#[test]
fn request_without_header_is_anonymous() {
    let step = guard_begin_at(None, SECRET, NOW);
    let x = match step {
        GuardStep::Resolved(x) => x,
        GuardStep::CheckSession(_) => panic!("no credential to check"),
    };
    assert_eq!(x.id(), 0);
    assert_eq!(require_principal(&x), Err(CredentialError::Invalid));
    assert_eq!(logout(&x), None);
    match guard_begin(None, SECRET) {
        GuardStep::Resolved(y) => assert_eq!(y.id(), 0),
        GuardStep::CheckSession(_) => panic!("no credential to check"),
    }
}

#[test]
fn bad_header_is_anonymous() {
    match guard_begin_at(Some("not-a-credential".to_string()), SECRET, NOW) {
        GuardStep::Resolved(x) => assert_eq!(x.id(), 0),
        GuardStep::CheckSession(_) => panic!("a bad credential must not reach the store"),
    }
}

#[test]
fn identity_constructors() {
    let x = Identity::new(5, "abc".to_string());
    assert_eq!(x.id(), 5);
    assert!(x.match_token("abc".to_string()));
    assert!(!x.match_token("abd".to_string()));
    let anon = Identity::new(0, "abc".to_string());
    assert_eq!(anon.id(), 0);
    assert!(anon.match_token(String::new()));
    let e = Identity::empty();
    assert_eq!(e.id(), 0);
    assert!(e.match_token(String::new()));
}

#[test]
fn identity_renders_for_logs() {
    assert_eq!(Identity::empty().to_string(), "<none>");
    assert_eq!(Identity::new(12, "tok".to_string()).to_string(), "id:12|token:tok");
    assert_eq!(Identity::new(-3, "t".to_string()).to_string(), "id:-3|token:t");
}

#[test]
fn login_request_validation() {
    let ok = ReqLogin { username: "alice".to_string(), password: "correct".to_string() };
    assert!(ok.validate());
    let no_user = ReqLogin { username: String::new(), password: "correct".to_string() };
    assert!(!no_user.validate());
    let no_pass = ReqLogin { username: "alice".to_string(), password: String::new() };
    assert!(!no_pass.validate());
}
