use vstd::prelude::*;

use crate::password::{check_outcome, hash_new_password, setup_outcome, verify_password, PasswordError};
use crate::token::{issued, valid_at, Token};

verus! {

/// Why obtaining a session credential failed.
#[derive(Clone, Copy, Debug, PartialEq, Eq, Structural)]
pub enum AuthError {
    /// The local password check or setup failed; the controller was not contacted.
    Local(PasswordError),
    /// No password record exists even after first-use setup stored one.
    MissingAfterSetup,
    /// The authentication endpoint answered with this non-success status.
    Rejected(u16),
    /// The endpoint answered with success but its body held no token.
    NoTokenInResponse,
}

/// A status in the 2xx range.
pub open spec fn is_success_status(status: u16) -> bool {
    200 <= status && status <= 299
}

/// Whether an HTTP status is a success.
pub fn is_success(status: u16) -> (r: bool)
    ensures
        r == is_success_status(status),
{
    200 <= status && status <= 299
}

/// Where one attempt to obtain a credential stands.
#[derive(Debug)]
pub enum SessionState {
    /// Nothing read yet; `force` skips the cached credential (the controller
    /// has just refused it).
    Start { force: bool },
    /// Waiting for the stored password hash of the configured user.
    AwaitingHash { after_setup: bool },
    /// Waiting for a new password, typed twice, and a fresh salt.
    AwaitingNewPassword,
    /// Waiting for the operator's password, to check against `hash`.
    AwaitingPassword { hash: String },
    /// Waiting for the controller's answer to the authentication call.
    AwaitingRemote,
    /// A credential was handed out.
    Done,
    /// The attempt failed.
    Failed,
}

/// What the surrounding program reports back.
#[derive(Debug)]
pub enum SessionEvent {
    CacheRead { cached: Option<Token>, now: u64 },
    HashRead { hash: Option<String> },
    NewPasswordEntered { password: String, confirmation: String, salt: String },
    PasswordEntered { password: String },
    RemoteAnswered { status: u16, token: Option<String>, now: u64 },
}

/// What the surrounding program is asked to do next.
#[derive(Debug)]
pub enum SessionAction {
    /// Hand out this cached credential; nothing is contacted.
    UseCached(Token),
    LoadPasswordHash,
    PromptNewPassword,
    /// Persist this hash for the configured user, then read it back.
    StorePasswordHash(String),
    PromptPassword,
    /// Call the authentication endpoint with the password just checked.
    CallRemoteAuth,
    /// Persist this new credential, replacing any other, and hand it out.
    StoreAndUse(Token),
    Fail(AuthError),
    /// The event does not apply in this state; nothing to do.
    Idle,
}

/// `SessionAction` with the stored hash seen as its characters.
pub enum SessionActionView {
    UseCached(Token),
    LoadPasswordHash,
    PromptNewPassword,
    StorePasswordHash(Seq<char>),
    PromptPassword,
    CallRemoteAuth,
    StoreAndUse(Token),
    Fail(AuthError),
    Idle,
}

impl View for SessionAction {
    type V = SessionActionView;

    open spec fn view(&self) -> SessionActionView {
        match self {
            SessionAction::UseCached(t) => SessionActionView::UseCached(*t),
            SessionAction::LoadPasswordHash => SessionActionView::LoadPasswordHash,
            SessionAction::PromptNewPassword => SessionActionView::PromptNewPassword,
            SessionAction::StorePasswordHash(h) => SessionActionView::StorePasswordHash(h@),
            SessionAction::PromptPassword => SessionActionView::PromptPassword,
            SessionAction::CallRemoteAuth => SessionActionView::CallRemoteAuth,
            SessionAction::StoreAndUse(t) => SessionActionView::StoreAndUse(*t),
            SessionAction::Fail(e) => SessionActionView::Fail(*e),
            SessionAction::Idle => SessionActionView::Idle,
        }
    }
}

/// One transition of the credential lifecycle.
pub open spec fn session_step(s: SessionState, e: SessionEvent) -> (SessionState, SessionActionView) {
    match (s, e) {
        (SessionState::Start { force }, SessionEvent::CacheRead { cached, now }) => {
            if !force && cached is Some && valid_at(cached->Some_0, now) {
                (SessionState::Done, SessionActionView::UseCached(cached->Some_0))
            } else {
                (SessionState::AwaitingHash { after_setup: false }, SessionActionView::LoadPasswordHash)
            }
        },
        (SessionState::AwaitingHash { after_setup }, SessionEvent::HashRead { hash }) => {
            match hash {
                Some(h) => (SessionState::AwaitingPassword { hash: h }, SessionActionView::PromptPassword),
                None => if after_setup {
                    (SessionState::Failed, SessionActionView::Fail(AuthError::MissingAfterSetup))
                } else {
                    (SessionState::AwaitingNewPassword, SessionActionView::PromptNewPassword)
                },
            }
        },
        (SessionState::AwaitingNewPassword, SessionEvent::NewPasswordEntered { password, confirmation, salt }) => {
            match setup_outcome(password@, confirmation@, salt@) {
                Ok(h) => (SessionState::AwaitingHash { after_setup: true }, SessionActionView::StorePasswordHash(h)),
                Err(pe) => (SessionState::Failed, SessionActionView::Fail(AuthError::Local(pe))),
            }
        },
        (SessionState::AwaitingPassword { hash }, SessionEvent::PasswordEntered { password }) => {
            match check_outcome(password@, hash@) {
                Ok(_) => (SessionState::AwaitingRemote, SessionActionView::CallRemoteAuth),
                Err(pe) => (SessionState::Failed, SessionActionView::Fail(AuthError::Local(pe))),
            }
        },
        (SessionState::AwaitingRemote, SessionEvent::RemoteAnswered { status, token, now }) => {
            if !is_success_status(status) {
                (SessionState::Failed, SessionActionView::Fail(AuthError::Rejected(status)))
            } else {
                match token {
                    Some(v) => (SessionState::Done, SessionActionView::StoreAndUse(issued(v, now))),
                    None => (SessionState::Failed, SessionActionView::Fail(AuthError::NoTokenInResponse)),
                }
            }
        },
        (s, _) => (s, SessionActionView::Idle),
    }
}

/// Runs the machine over a sequence of events, collecting every action.
pub open spec fn session_run(s: SessionState, evs: Seq<SessionEvent>) -> (SessionState, Seq<SessionActionView>)
    decreases evs.len(),
{
    if evs.len() == 0 {
        (s, Seq::empty())
    } else {
        let (s1, a) = session_step(s, evs[0]);
        let (sf, rest) = session_run(s1, evs.drop_first());
        (sf, seq![a] + rest)
    }
}

/// How many calls to the authentication endpoint a list of actions makes.
pub open spec fn remote_calls(acts: Seq<SessionActionView>) -> nat
    decreases acts.len(),
{
    if acts.len() == 0 {
        0
    } else {
        (if acts[0] is CallRemoteAuth { 1nat } else { 0nat }) + remote_calls(acts.drop_first())
    }
}

proof fn lemma_remote_calls_prepend(a: SessionActionView, rest: Seq<SessionActionView>)
    ensures
        remote_calls(seq![a] + rest) == (if a is CallRemoteAuth { 1nat } else { 0nat }) + remote_calls(rest),
{
    assert((seq![a] + rest).drop_first() =~= rest);
}

/// Once done or failed, the machine stays put and asks for nothing.
proof fn lemma_terminal_run(s: SessionState, evs: Seq<SessionEvent>)
    requires
        s.is_terminal(),
    ensures
        session_run(s, evs).0 == s,
        session_run(s, evs).1.len() == evs.len(),
        forall|i: int| 0 <= i < evs.len() ==> (#[trigger] session_run(s, evs).1[i]) is Idle,
        remote_calls(session_run(s, evs).1) == 0,
    decreases evs.len(),
{
    if evs.len() > 0 {
        lemma_terminal_run(s, evs.drop_first());
        let rest = session_run(s, evs.drop_first()).1;
        lemma_remote_calls_prepend(SessionActionView::Idle, rest);
        assert forall|i: int| 0 <= i < evs.len() implies (#[trigger] session_run(s, evs).1[i]) is Idle by {
            if i > 0 {
                assert(session_run(s, evs).1[i] == rest[i - 1]);
            }
        }
    }
}

/// While the authentication call is outstanding, a run that ends with a
/// credential makes no further call.
proof fn lemma_after_remote_run(s: SessionState, evs: Seq<SessionEvent>)
    requires
        s is AwaitingRemote || s.is_terminal(),
    ensures
        remote_calls(session_run(s, evs).1) == 0,
    decreases evs.len(),
{
    if s.is_terminal() {
        lemma_terminal_run(s, evs);
    } else if evs.len() > 0 {
        let (s1, a) = session_step(s, evs[0]);
        lemma_after_remote_run(s1, evs.drop_first());
        lemma_remote_calls_prepend(a, session_run(s1, evs.drop_first()).1);
    }
}

/// Before the password has been checked, a run calls the authentication
/// endpoint at most once, and exactly once where it ends with a credential.
proof fn lemma_before_remote_run(s: SessionState, evs: Seq<SessionEvent>)
    requires
        s is AwaitingHash || s is AwaitingNewPassword || s is AwaitingPassword,
    ensures
        remote_calls(session_run(s, evs).1) <= 1,
        session_run(s, evs).0 is Done ==> remote_calls(session_run(s, evs).1) == 1,
    decreases evs.len(),
{
    if evs.len() > 0 {
        let (s1, a) = session_step(s, evs[0]);
        let rest = session_run(s1, evs.drop_first()).1;
        lemma_remote_calls_prepend(a, rest);
        if s1 is AwaitingRemote {
            lemma_after_remote_run(s1, evs.drop_first());
            assert(a is CallRemoteAuth);
        } else if s1.is_terminal() {
            lemma_terminal_run(s1, evs.drop_first());
        } else {
            lemma_before_remote_run(s1, evs.drop_first());
        }
    }
}

/// A cached credential that is still valid is handed out as it is: the first
/// action returns exactly that credential, the attempt is done, and nothing
/// afterwards prompts, authenticates or contacts the controller.
pub proof fn lemma_valid_cache_is_used(t: Token, now: u64, evs: Seq<SessionEvent>)
    requires
        valid_at(t, now),
    ensures
        ({
            let (sf, acts) = session_run(
                SessionState::Start { force: false },
                seq![SessionEvent::CacheRead { cached: Some(t), now }] + evs,
            );
            &&& sf is Done
            &&& acts.len() == evs.len() + 1
            &&& acts[0] == SessionActionView::UseCached(t)
            &&& forall|i: int| 1 <= i < acts.len() ==> (#[trigger] acts[i]) is Idle
            &&& remote_calls(acts) == 0
        }),
{
    let all = seq![SessionEvent::CacheRead { cached: Some(t), now }] + evs;
    assert(all.drop_first() =~= evs);
    lemma_terminal_run(SessionState::Done, evs);
    let rest = session_run(SessionState::Done, evs).1;
    lemma_remote_calls_prepend(SessionActionView::UseCached(t), rest);
    let acts = session_run(SessionState::Start { force: false }, all).1;
    assert forall|i: int| 1 <= i < acts.len() implies (#[trigger] acts[i]) is Idle by {
        assert(acts[i] == rest[i - 1]);
    }
}

/// With no usable cached credential (absent, expired, or refused by the
/// controller), no run calls the authentication endpoint more than once, and
/// every run that ends with a credential has called it exactly once.
pub proof fn lemma_renewal_calls_remote_once(force: bool, cached: Option<Token>, now: u64, evs: Seq<SessionEvent>)
    requires
        force || cached is None || !valid_at(cached->Some_0, now),
    ensures
        ({
            let (sf, acts) = session_run(
                SessionState::Start { force },
                seq![SessionEvent::CacheRead { cached, now }] + evs,
            );
            &&& remote_calls(acts) <= 1
            &&& sf is Done ==> remote_calls(acts) == 1
        }),
{
    let all = seq![SessionEvent::CacheRead { cached, now }] + evs;
    assert(all.drop_first() =~= evs);
    let s1 = SessionState::AwaitingHash { after_setup: false };
    lemma_before_remote_run(s1, evs);
    lemma_remote_calls_prepend(SessionActionView::LoadPasswordHash, session_run(s1, evs).1);
}

impl SessionState {
    /// A fresh attempt; `force` when the controller has refused the cached credential.
    pub fn start(force: bool) -> (r: SessionState)
        ensures
            r == (SessionState::Start { force }),
    {
        SessionState::Start { force }
    }

    /// The attempt is over, one way or the other.
    pub open spec fn is_terminal(self) -> bool {
        self is Done || self is Failed
    }

    /// Feeds one event in; yields the next state and what to do.
    pub fn step(self, e: SessionEvent) -> (r: (SessionState, SessionAction))
        ensures
            (r.0, r.1@) == session_step(self, e),
    {
        match self {
            SessionState::Start { force } => match e {
                SessionEvent::CacheRead { cached, now } => match cached {
                    Some(t) => {
                        if !force && t.is_valid_at(now) {
                            (SessionState::Done, SessionAction::UseCached(t))
                        } else {
                            (SessionState::AwaitingHash { after_setup: false }, SessionAction::LoadPasswordHash)
                        }
                    },
                    None => (SessionState::AwaitingHash { after_setup: false }, SessionAction::LoadPasswordHash),
                },
                _ => (SessionState::Start { force }, SessionAction::Idle),
            },
            SessionState::AwaitingHash { after_setup } => match e {
                SessionEvent::HashRead { hash } => match hash {
                    Some(h) => (SessionState::AwaitingPassword { hash: h }, SessionAction::PromptPassword),
                    None => {
                        if after_setup {
                            (SessionState::Failed, SessionAction::Fail(AuthError::MissingAfterSetup))
                        } else {
                            (SessionState::AwaitingNewPassword, SessionAction::PromptNewPassword)
                        }
                    },
                },
                _ => (SessionState::AwaitingHash { after_setup }, SessionAction::Idle),
            },
            SessionState::AwaitingNewPassword => match e {
                SessionEvent::NewPasswordEntered { password, confirmation, salt } => {
                    match hash_new_password(password.as_str(), confirmation.as_str(), salt.as_str()) {
                        Ok(h) => (SessionState::AwaitingHash { after_setup: true }, SessionAction::StorePasswordHash(h)),
                        Err(pe) => (SessionState::Failed, SessionAction::Fail(AuthError::Local(pe))),
                    }
                },
                _ => (SessionState::AwaitingNewPassword, SessionAction::Idle),
            },
            SessionState::AwaitingPassword { hash } => match e {
                SessionEvent::PasswordEntered { password } => {
                    match verify_password(password.as_str(), hash.as_str()) {
                        Ok(_) => (SessionState::AwaitingRemote, SessionAction::CallRemoteAuth),
                        Err(pe) => (SessionState::Failed, SessionAction::Fail(AuthError::Local(pe))),
                    }
                },
                _ => (SessionState::AwaitingPassword { hash }, SessionAction::Idle),
            },
            SessionState::AwaitingRemote => match e {
                SessionEvent::RemoteAnswered { status, token, now } => {
                    if !is_success(status) {
                        (SessionState::Failed, SessionAction::Fail(AuthError::Rejected(status)))
                    } else {
                        match token {
                            Some(v) => (SessionState::Done, SessionAction::StoreAndUse(Token::issue(v, now))),
                            None => (SessionState::Failed, SessionAction::Fail(AuthError::NoTokenInResponse)),
                        }
                    }
                },
                _ => (SessionState::AwaitingRemote, SessionAction::Idle),
            },
            SessionState::Done => (SessionState::Done, SessionAction::Idle),
            SessionState::Failed => (SessionState::Failed, SessionAction::Idle),
        }
    }
}

} // verus!
