//! The bearer token and the window in which it is valid.

use std::time::Duration;
use std::time::SystemTime;
use std::time::UNIX_EPOCH;
use vstd::prelude::*;
use vstd::string::*;

use crate::text::clone_opt;
use crate::text::opt_text;

verus! {

/// The margin, in seconds, by which a token must outlive the present to be
/// used without a refresh.
pub const REFRESH_SKEW_SECS: u64 = 30;

/// An OAuth token as the token file holds it.
#[derive(Debug, PartialEq, Eq)]
pub struct OAuthToken {
    pub access_token: String,
    pub token_type: String,
    pub scope: Option<String>,
    pub refresh_token: Option<String>,
    /// When the token was obtained, in seconds since the Unix epoch.
    pub obtained_at: u64,
    /// The token's lifetime from `obtained_at`, in seconds.
    pub expires_in: Option<u64>,
}

/// An [`OAuthToken`] with its texts as sequences of characters.
pub struct OAuthTokenView {
    pub access_token: Seq<char>,
    pub token_type: Seq<char>,
    pub scope: Option<Seq<char>>,
    pub refresh_token: Option<Seq<char>>,
    pub obtained_at: u64,
    pub expires_in: Option<u64>,
}

impl View for OAuthToken {
    type V = OAuthTokenView;

    open spec fn view(&self) -> OAuthTokenView {
        OAuthTokenView {
            access_token: self.access_token@,
            token_type: self.token_type@,
            scope: opt_text(self.scope),
            refresh_token: opt_text(self.refresh_token),
            obtained_at: self.obtained_at,
            expires_in: self.expires_in,
        }
    }
}

/// The sum of two times in seconds, held at the largest time there is.
pub open spec fn saturating_sum(a: u64, b: u64) -> u64 {
    if a + b > u64::MAX {
        u64::MAX
    } else {
        (a + b) as u64
    }
}

impl OAuthTokenView {
    /// The second at which the token runs out, where it ever does.
    pub open spec fn expires_at(self) -> Option<u64> {
        match self.expires_in {
            Some(lifetime) => Some(saturating_sum(self.obtained_at, lifetime)),
            None => None,
        }
    }

    /// Whether the token still has more than `skew` seconds to live at `now`.
    /// A token that never runs out always has.
    pub open spec fn valid_at(self, now: u64, skew: u64) -> bool {
        match self.expires_at() {
            Some(end) => saturating_sum(now, skew) < end,
            None => true,
        }
    }
}

/// The present, in whole seconds since the Unix epoch.
///
/// Trusted: `SystemTime::now`, of which nothing is claimed. A clock set
/// before the epoch, where `SystemTime::duration_since` fails, reads as zero.
#[verifier::external_body]
pub(crate) fn now_secs() -> u64 {
    match SystemTime::now().duration_since(UNIX_EPOCH) {
        Ok(since) => since.as_secs(),
        Err(_) => 0,
    }
}

/// The whole seconds of a duration.
///
/// Trusted: `Duration::as_secs`, of which nothing is claimed.
#[verifier::external_body]
pub(crate) fn whole_secs(d: &Duration) -> u64 {
    d.as_secs()
}

impl OAuthToken {
    /// The second at which the token runs out; `None` for one that never does.
    pub fn expires_at(&self) -> (r: Option<u64>)
        ensures
            r == self@.expires_at(),
    {
        match self.expires_in {
            Some(lifetime) => Some(self.obtained_at.saturating_add(lifetime)),
            None => None,
        }
    }

    /// Whether, at the second `now`, the token has more than `skew_secs`
    /// seconds to live.
    pub fn is_valid_at(&self, now: u64, skew_secs: u64) -> (r: bool)
        ensures
            r == self@.valid_at(now, skew_secs),
    {
        match self.expires_at() {
            Some(end) => now.saturating_add(skew_secs) < end,
            None => true,
        }
    }

    /// Whether the token has more than `skew` to live, by the system clock.
    ///
    /// The answer is that of [`OAuthToken::is_valid_at`] for the second that
    /// the clock shows and the whole seconds of `skew`.
    pub fn is_valid_for(&self, skew: Duration) -> (r: bool)
        ensures
            self@.expires_in is None ==> r,
            exists|now: u64, skew_secs: u64| r == self@.valid_at(now, skew_secs),
    {
        let now = now_secs();
        let skew_secs = whole_secs(&skew);
        self.is_valid_at(now, skew_secs)
    }

}

impl Clone for OAuthToken {
    fn clone(&self) -> (r: OAuthToken)
        ensures
            r@ == self@,
    {
        OAuthToken {
            access_token: self.access_token.clone(),
            token_type: self.token_type.clone(),
            scope: clone_opt(&self.scope),
            refresh_token: clone_opt(&self.refresh_token),
            obtained_at: self.obtained_at,
            expires_in: self.expires_in,
        }
    }
}


/// A token is valid exactly while the present plus the skew lies before
/// the second at which it runs out, `obtained_at + expires_in`.
///
/// Times are held at `u64::MAX`, so this speaks of the presents whose sum
/// with the skew either fits the clock or does not lie before that second.
pub proof fn lemma_validity_window(token: OAuthTokenView, lifetime: u64, now: u64, skew: u64)
    requires
        token.expires_in == Some(lifetime),
        now + skew < u64::MAX || now + skew >= token.obtained_at + lifetime,
    ensures
        token.valid_at(now, skew) <==> now + skew < token.obtained_at + lifetime,
{
}

/// A token without a lifetime is valid at every time and for every skew.
pub proof fn lemma_no_lifetime_always_valid(token: OAuthTokenView, now: u64, skew: u64)
    requires
        token.expires_in is None,
    ensures
        token.valid_at(now, skew),
{
}

} // verus!
