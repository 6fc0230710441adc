//! The token-refresh policy a caller applies around `fetch`.
//!
//! A fetch that fails with an HTTP 403 means the session token has expired.
//! The caller then logs in again, persists the fresh token, rebuilds the
//! client, and retries the same fetch exactly once; any further failure,
//! 403 or not, is surfaced as it is.

use vstd::prelude::*;
use crate::error::{spec_http_status, FetchError};

verus! {

/// The state of the policy across one fetch: whether the single retry has
/// been spent.
pub struct RefreshPolicy {
    pub retried: bool,
}

/// Whether a failure with the given transport status earns the retry: only
/// a 403, and only while the retry is unspent.
pub open spec fn spec_should_retry(p: RefreshPolicy, status: Option<u16>) -> bool {
    !p.retried && status == Some(403u16)
}

/// The policy after a failure was seen: the retry is spent the moment it is
/// granted.
pub open spec fn spec_after_failure(p: RefreshPolicy, status: Option<u16>) -> RefreshPolicy {
    RefreshPolicy { retried: p.retried || spec_should_retry(p, status) }
}

impl RefreshPolicy {
    pub fn new() -> (r: Self)
        ensures
            !r.retried,
    {
        RefreshPolicy { retried: false }
    }

    /// Judges a failed fetch: grants the one retry exactly when the failure
    /// is a session expiry and none was granted before.
    pub fn on_failure(&mut self, error: &FetchError) -> (r: bool)
        ensures
            r == spec_should_retry(*old(self), spec_http_status(*error)),
            *final(self) == spec_after_failure(*old(self), spec_http_status(*error)),
    {
        let expired = match error.http_status() {
            Some(status) => status == 403,
            None => false,
        };
        let grant = !self.retried && expired;
        if grant {
            self.retried = true;
        }
        grant
    }
}

/// Law: a 403 earns exactly one retry. From a fresh policy, an expiry is
/// granted the retry, and after it no failure whatever, a second 403
/// included, is granted another.
pub proof fn lemma_refresh_retries_once(second: Option<u16>)
    ensures
        spec_should_retry(RefreshPolicy { retried: false }, Some(403u16)),
        !spec_should_retry(
            spec_after_failure(RefreshPolicy { retried: false }, Some(403u16)),
            second,
        ),
{
}

} // verus!
