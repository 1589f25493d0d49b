//! Signing out.

use crate::error::Error;
use crate::service::auth::AuthService;
use vstd::prelude::*;

verus! {

/// The answer to a sign-out.
#[derive(Clone, Debug, PartialEq, Eq)]
pub struct PostResponseBody {
    pub result: String,
}

/// Closes the open session and answers `OK`.
pub fn post(auth_service: &mut AuthService) -> (answer: Result<PostResponseBody, Error>)
    ensures
        final(auth_service).same_rules(old(auth_service)),
        final(auth_service).session() is None,
        answer matches Ok(body) && body.result@ == "OK"@,
{
    match auth_service.sign_out() {
        Ok(_) => Ok(PostResponseBody { result: "OK".to_owned() }),
        Err(error) => Err(error),
    }
}

} // verus!
