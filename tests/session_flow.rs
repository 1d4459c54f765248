use dnac::password::PasswordError;
use dnac::session::{AuthError, SessionAction, SessionEvent, SessionState};
use dnac::store::{store_credential_ops, StoreOp};
use dnac::token::{Token, TOKEN_VALIDITY_SECS};

const SALT: &str = "c29tZXNhbHRzb21lc2FsdA";

fn cached(value: &str, expires_at: u64) -> Option<Token> {
    Some(Token { value: value.to_string(), obtained_at: 0, expires_at })
}

fn through_setup(password: &str) -> (SessionState, String) {
    let s = SessionState::start(false);
    let (s, a) = s.step(SessionEvent::CacheRead { cached: None, now: 100 });
    assert!(matches!(a, SessionAction::LoadPasswordHash));
    let (s, a) = s.step(SessionEvent::HashRead { hash: None });
    assert!(matches!(a, SessionAction::PromptNewPassword));
    let (s, a) = s.step(SessionEvent::NewPasswordEntered {
        password: password.to_string(),
        confirmation: password.to_string(),
        salt: SALT.to_string(),
    });
    let hash = match a {
        SessionAction::StorePasswordHash(h) => h,
        other => panic!("unexpected {:?}", other),
    };
    (s, hash)
}

#[test]
fn valid_cached_token_is_returned_without_network() {
    let s = SessionState::start(false);
    let (s, a) = s.step(SessionEvent::CacheRead { cached: cached("abc", 2000), now: 1999 });
    match a {
        SessionAction::UseCached(t) => {
            assert_eq!(t, Token { value: "abc".to_string(), obtained_at: 0, expires_at: 2000 })
        }
        other => panic!("unexpected {:?}", other),
    }
    assert!(matches!(s, SessionState::Done));
    let (_, a) = s.step(SessionEvent::PasswordEntered { password: "x".to_string() });
    assert!(matches!(a, SessionAction::Idle));
}

#[test]
fn expired_cached_token_starts_authentication() {
    let s = SessionState::start(false);
    let (s, a) = s.step(SessionEvent::CacheRead { cached: cached("abc", 2000), now: 2000 });
    assert!(matches!(a, SessionAction::LoadPasswordHash));
    assert!(matches!(s, SessionState::AwaitingHash { after_setup: false }));
}

#[test]
fn forced_renewal_skips_a_valid_cache() {
    let s = SessionState::start(true);
    let (_, a) = s.step(SessionEvent::CacheRead { cached: cached("abc", 9999), now: 1 });
    assert!(matches!(a, SessionAction::LoadPasswordHash));
}

#[test]
fn absent_hash_runs_setup_once_then_authenticates() {
    let (s, hash) = through_setup("hunter2");
    assert!(hash.starts_with("$argon2"));
    let ops = store_credential_ops("ops".to_string(), hash.clone());
    assert!(matches!(ops[1], StoreOp::InsertCredential { .. }));
    let (s, a) = s.step(SessionEvent::HashRead { hash: Some(hash) });
    assert!(matches!(a, SessionAction::PromptPassword));
    let (s, a) = s.step(SessionEvent::PasswordEntered { password: "hunter2".to_string() });
    assert!(matches!(a, SessionAction::CallRemoteAuth));
    let (s, a) = s.step(SessionEvent::RemoteAnswered { status: 200, token: Some("tok".to_string()), now: 5000 });
    match a {
        SessionAction::StoreAndUse(t) => {
            assert_eq!(t.value, "tok");
            assert_eq!(t.obtained_at, 5000);
            assert_eq!(t.expires_at, 5000 + TOKEN_VALIDITY_SECS);
            assert_eq!(t.expires_at, 8600);
        }
        other => panic!("unexpected {:?}", other),
    }
    assert!(matches!(s, SessionState::Done));
}

#[test]
fn hash_still_absent_after_setup_fails() {
    let (s, _) = through_setup("pw");
    let (s, a) = s.step(SessionEvent::HashRead { hash: None });
    assert!(matches!(a, SessionAction::Fail(AuthError::MissingAfterSetup)));
    assert!(matches!(s, SessionState::Failed));
}

#[test]
fn differing_confirmation_fails_setup() {
    let s = SessionState::start(false);
    let (s, _) = s.step(SessionEvent::CacheRead { cached: None, now: 0 });
    let (s, _) = s.step(SessionEvent::HashRead { hash: None });
    let (_, a) = s.step(SessionEvent::NewPasswordEntered {
        password: "one".to_string(),
        confirmation: "two".to_string(),
        salt: SALT.to_string(),
    });
    assert!(matches!(a, SessionAction::Fail(AuthError::Local(PasswordError::ConfirmationMismatch))));
}

#[test]
fn wrong_password_fails_before_any_network_call() {
    let (s, hash) = through_setup("right");
    let (s, _) = s.step(SessionEvent::HashRead { hash: Some(hash) });
    let (s, a) = s.step(SessionEvent::PasswordEntered { password: "wrong".to_string() });
    assert!(matches!(a, SessionAction::Fail(AuthError::Local(PasswordError::Mismatch))));
    assert!(matches!(s, SessionState::Failed));
}

#[test]
fn corrupt_stored_hash_fails() {
    let s = SessionState::start(false);
    let (s, _) = s.step(SessionEvent::CacheRead { cached: None, now: 0 });
    let (s, _) = s.step(SessionEvent::HashRead { hash: Some("not a hash".to_string()) });
    let (_, a) = s.step(SessionEvent::PasswordEntered { password: "pw".to_string() });
    assert!(matches!(a, SessionAction::Fail(AuthError::Local(PasswordError::CorruptHash))));
}

#[test]
fn rejected_remote_authentication_fails_with_status() {
    let (s, hash) = through_setup("pw");
    let (s, _) = s.step(SessionEvent::HashRead { hash: Some(hash) });
    let (s, _) = s.step(SessionEvent::PasswordEntered { password: "pw".to_string() });
    let (s, a) = s.step(SessionEvent::RemoteAnswered { status: 401, token: None, now: 0 });
    assert!(matches!(a, SessionAction::Fail(AuthError::Rejected(401))));
    assert!(matches!(s, SessionState::Failed));
}

#[test]
fn success_without_token_fails() {
    let (s, hash) = through_setup("pw");
    let (s, _) = s.step(SessionEvent::HashRead { hash: Some(hash) });
    let (s, _) = s.step(SessionEvent::PasswordEntered { password: "pw".to_string() });
    let (_, a) = s.step(SessionEvent::RemoteAnswered { status: 204, token: None, now: 0 });
    assert!(matches!(a, SessionAction::Fail(AuthError::NoTokenInResponse)));
}
