//! The cached bearer token of the HTTP-volume backend.
//!
//! The backend authenticates via a client-credentials exchange and caches
//! the resulting token with its expiry. A cached token is used only while
//! it stays valid past a fixed safety margin; a failed refresh retains the
//! previously cached token for the next attempt. The surrounding
//! read-check / write-lock double-check belongs to the caller.

use vstd::prelude::*;

verus! {

/// How much validity, in seconds, a token must have left to be used.
pub const TOKEN_SAFETY_MARGIN_SECS: u64 = 60;

/// Addition that saturates instead of wrapping.
pub open spec fn sat_add(a: u64, b: u64) -> u64 {
    if a + b > u64::MAX {
        u64::MAX
    } else {
        (a + b) as u64
    }
}

/// A cached bearer token and its expiry, in epoch seconds.
pub struct TokenCache {
    token: Option<(Vec<u8>, u64)>,
}

impl View for TokenCache {
    type V = Option<(Seq<u8>, u64)>;

    closed spec fn view(&self) -> Option<(Seq<u8>, u64)> {
        match self.token {
            Option::Some((ref t, e)) => Option::Some((t@, e)),
            Option::None => Option::None,
        }
    }
}

/// Is a token expiring at `expires_at` still usable at `now`? It must stay
/// valid for more than the safety margin.
pub open spec fn token_usable(expires_at: u64, now: u64) -> bool {
    expires_at > now + TOKEN_SAFETY_MARGIN_SECS
}

impl TokenCache {
    /// An empty cache: the first use must authenticate.
    pub fn new() -> (r: TokenCache)
        ensures
            r@ is None,
    {
        TokenCache { token: Option::None }
    }

    /// The cached token, if it stays usable past the safety margin at `now`;
    /// `None` exactly when a refresh is due.
    pub fn fresh_token(&self, now: u64) -> (r: Option<Vec<u8>>)
        ensures
            match r {
                Option::Some(t) => {
                    &&& self@ is Some
                    &&& t@ == self@->Some_0.0
                    &&& token_usable(self@->Some_0.1, now)
                },
                Option::None => match self@ {
                    Option::Some(c) => !token_usable(c.1, now),
                    Option::None => true,
                },
            },
    {
        match &self.token {
            Option::Some((t, e)) => {
                if *e > now && *e - now > TOKEN_SAFETY_MARGIN_SECS {
                    let mut out: Vec<u8> = Vec::new();
                    crate::domain::append_bytes(&mut out, t.as_slice());
                    assert(out@ =~= t@);
                    Option::Some(out)
                } else {
                    Option::None
                }
            },
            Option::None => Option::None,
        }
    }

    /// Cache the token of a successful exchange, expiring `expires_in`
    /// seconds from `now`. A failed exchange stores nothing, so the previous
    /// token is retained for the next attempt.
    pub fn store(&mut self, token: Vec<u8>, now: u64, expires_in: u64)
        ensures
            final(self)@ == Option::Some((token@, sat_add(now, expires_in))),
    {
        let expires_at: u64 = if now <= u64::MAX - expires_in {
            now + expires_in
        } else {
            u64::MAX
        };
        self.token = Option::Some((token, expires_at));
    }
}

} // verus!
