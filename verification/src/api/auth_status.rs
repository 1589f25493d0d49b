//! Asking whether the presented session is good.

use crate::error::Error;
use crate::extractor::user_session::UserSession;
use vstd::prelude::*;

verus! {

/// The answer to a caller whose session was admitted.
#[derive(Clone, Debug, PartialEq, Eq)]
pub struct PostResponseBody {
    pub status: String,
}

/// Answers `OK` to a caller whose session was admitted. The admission
/// is the whole check: a caller without it never gets here.
pub fn post(_user_session: UserSession) -> (answer: Result<PostResponseBody, Error>)
    ensures
        answer matches Ok(body) && body.status@ == "OK"@,
{
    Ok(PostResponseBody { status: "OK".to_owned() })
}

} // verus!
