use vstd::prelude::*;

verus! {

/// How long a freshly issued session token is trusted locally, in seconds.
pub const TOKEN_VALIDITY_SECS: u64 = 3600;

/// A session credential issued by the controller.
#[derive(Clone, Debug, PartialEq, Eq)]
pub struct Token {
    pub value: String,
    pub obtained_at: u64,
    pub expires_at: u64,
}

/// The token may still be presented at time `now` without asking the controller.
pub open spec fn valid_at(t: Token, now: u64) -> bool {
    t.expires_at > now
}

/// The expiry stamped on a token obtained at `now` (held at the largest
/// representable time rather than wrapping).
pub open spec fn expiry_for(now: u64) -> u64 {
    if now as int + TOKEN_VALIDITY_SECS as int > u64::MAX as int {
        u64::MAX
    } else {
        (now + TOKEN_VALIDITY_SECS) as u64
    }
}

/// The token that a successful authentication at `now` yields.
pub open spec fn issued(value: String, now: u64) -> Token {
    Token { value, obtained_at: now, expires_at: expiry_for(now) }
}

impl Token {
    /// Stamps a freshly issued token value with its lifetime.
    pub fn issue(value: String, now: u64) -> (r: Token)
        ensures
            r == issued(value, now),
    {
        Token { value, obtained_at: now, expires_at: now.saturating_add(TOKEN_VALIDITY_SECS) }
    }

    /// Whether the token may still be used at `now` without renewal.
    pub fn is_valid_at(&self, now: u64) -> (r: bool)
        ensures
            r == valid_at(*self, now),
    {
        self.expires_at > now
    }
}

} // verus!
