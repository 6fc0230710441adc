//! The outcome of one login step.

use vstd::prelude::*;

verus! {

/// What a login reply resolves to: either a session token, or a request for
/// an out-of-band verification code, with the upstream's message.
#[derive(Debug, Clone, PartialEq)]
pub enum LoginResult {
    GotToken { login_token: String },
    NeedCode { message: String },
}

} // verus!
