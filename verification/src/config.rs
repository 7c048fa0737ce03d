//! Persisted configuration: client identity and the cached access token.
//!
//! The configuration is a single document stored outside this crate; callers
//! load it, hand it to the decision functions here, and save it back.  Any
//! field may be absent in a stored document, so every field is optional.

use vstd::prelude::*;

verus! {

/// Number of seconds a cached access token stays valid after it was issued.
pub const TOKEN_VALIDITY_SECS: u64 = 3600;

/// A cached access token together with the moment it was issued,
/// as seconds since the Unix epoch.
#[derive(Debug, Clone, PartialEq)]
pub struct TokenInfo {
    pub access_token: String,
    pub created_at: u64,
}

/// The persisted configuration: client identity and the cached token.
#[derive(Debug, Clone, PartialEq)]
pub struct Config {
    pub client_id: Option<String>,
    pub client_secret: Option<String>,
    pub token_info: Option<TokenInfo>,
}

impl TokenInfo {
    /// A token is fresh at `now` while less than an hour has passed since it
    /// was issued.  A token stamped after `now` is treated as stale, so a
    /// fresh token is never accepted on the word of a clock that ran ahead.
    pub open spec fn is_fresh(self, now: u64) -> bool {
        self.created_at <= now && now - self.created_at < TOKEN_VALIDITY_SECS
    }
}

impl Config {
    /// The stored token, if one exists and is still fresh at `now`.
    pub open spec fn fresh_token(self, now: u64) -> Option<TokenInfo> {
        match self.token_info {
            Some(t) => if t.is_fresh(now) {
                Some(t)
            } else {
                None
            },
            None => None,
        }
    }

    /// An empty configuration: the state of a document that was never saved.
    pub fn empty() -> (r: Config)
        ensures
            r.client_id is None,
            r.client_secret is None,
            r.token_info is None,
    {
        Config { client_id: None, client_secret: None, token_info: None }
    }

    /// Replaces the cached token wholesale; the client identity is kept.
    pub fn store_token(&mut self, token: TokenInfo)
        ensures
            final(self).client_id == old(self).client_id,
            final(self).client_secret == old(self).client_secret,
            final(self).token_info == Some(token),
    {
        self.token_info = Some(token);
    }
}

} // verus!
