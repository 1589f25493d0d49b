//! Signing in.

use crate::error::Error;
use crate::service::auth::{
    argon2_accepts, parsed_session_id, session_id_text, signed_in, write_session_id, AuthService,
    Session,
};
use vstd::prelude::*;

verus! {

/// What the caller sends: the password.
#[derive(Clone, Debug, PartialEq, Eq)]
pub struct PostRequestBody {
    pub password: String,
}

/// The answer: the token under which the new session is presented.
#[derive(Clone, Debug, PartialEq, Eq)]
pub struct PostResponseBody {
    pub auth_token: String,
}

/// What a sign-in comes to, with the token as a text: the session that
/// is open afterwards, and the token or the refusal.
pub open spec fn answered(opened: (Option<Session>, Result<u128, Error>)) -> (
    Option<Session>,
    Result<Seq<char>, Error>,
) {
    (
        opened.0,
        match opened.1 {
            Ok(id) => Ok(session_id_text(id)),
            Err(error) => Err(error),
        },
    )
}

/// The answer with its token as a text.
pub open spec fn answer_view(answer: Result<PostResponseBody, Error>) -> Result<Seq<char>, Error> {
    match answer {
        Ok(body) => Ok(body.auth_token@),
        Err(error) => Err(error),
    }
}

/// Signs the caller in and answers with the token of the new session.
/// The outcome is that of `signed_in` for the password sent, at the time
/// the clock showed and with the number that was drawn. The token is one
/// that reads back as the number of the session.
pub fn post(auth_service: &mut AuthService, payload: PostRequestBody) -> (answer: Result<
    PostResponseBody,
    Error,
>)
    ensures
        final(auth_service).same_rules(old(auth_service)),
        exists|now: i64, fresh_id: u128|
            (final(auth_service).session(), answer_view(answer)) == answered(
                #[trigger] signed_in(
                    old(auth_service).session(),
                    argon2_accepts(payload.password@, old(auth_service).password_hash()),
                    old(auth_service).session_duration(),
                    old(auth_service).session_cooldown(),
                    now,
                    fresh_id,
                ),
            ),
        answer matches Ok(body) ==> final(auth_service).session() matches Some(session)
            && parsed_session_id(body.auth_token@) == Some(session.id),
{
    match auth_service.sign_in(payload.password) {
        Ok(session_id) => Ok(PostResponseBody { auth_token: write_session_id(session_id) }),
        Err(error) => Err(error),
    }
}

} // verus!
