//! Under which session a request comes.

use crate::error::Error;
use crate::service::auth::{
    parse_session_id, parsed_session_id, validated, AuthService, Session, SessionId,
};
use vstd::prelude::*;

verus! {

/// The session that a request was admitted under.
#[derive(Clone, Copy, Debug, PartialEq, Eq, Structural)]
pub struct UserSession {
    pub session_id: SessionId,
}

/// What presenting a bearer token at `now` comes to: the session that is
/// open afterwards, and the admission or the refusal. A request without
/// a token, or with a token that holds no session number, is refused
/// and changes nothing; any other is judged as its session number is.
pub open spec fn admitted(current: Option<Session>, token: Option<Seq<char>>, now: i64) -> (
    Option<Session>,
    Result<UserSession, Error>,
) {
    match token {
        None => (current, Err(Error::Unauthenticated)),
        Some(text) => match parsed_session_id(text) {
            None => (current, Err(Error::Unauthenticated)),
            Some(session_id) => {
                let judged = validated(current, session_id, now);
                match judged.1 {
                    Ok(_) => (judged.0, Ok(UserSession { session_id })),
                    Err(error) => (judged.0, Err(error)),
                }
            },
        },
    }
}

/// The text of a token, if there is one.
pub open spec fn token_text(token: Option<&str>) -> Option<Seq<char>> {
    match token {
        Some(text) => Some(text@),
        None => None,
    }
}

impl UserSession {
    /// Admits a request by its session number at a given time.
    pub fn from_session_id_at(
        session_id: Option<SessionId>,
        auth_service: &mut AuthService,
        now: i64,
    ) -> (admission: Result<UserSession, Error>)
        ensures
            final(auth_service).same_rules(old(auth_service)),
            match session_id {
                None => final(auth_service).session() == old(auth_service).session()
                    && admission == Err::<UserSession, Error>(Error::Unauthenticated),
                Some(id) => {
                    let judged = validated(old(auth_service).session(), id, now);
                    &&& final(auth_service).session() == judged.0
                    &&& admission == match judged.1 {
                        Ok(_) => Ok::<UserSession, Error>(UserSession { session_id: id }),
                        Err(error) => Err::<UserSession, Error>(error),
                    }
                },
            },
    {
        match session_id {
            None => Err(Error::Unauthenticated),
            Some(session_id) => match auth_service.validate_session_at(session_id, now) {
                Ok(_) => Ok(UserSession { session_id }),
                Err(error) => Err(error),
            },
        }
    }

    /// Admits a request by its bearer token, now. The outcome is that of
    /// `admitted` at the time the clock showed.
    pub fn from_request_parts(
        bearer_token: Option<&str>,
        auth_service: &mut AuthService,
    ) -> (admission: Result<UserSession, Error>)
        ensures
            final(auth_service).same_rules(old(auth_service)),
            exists|now: i64|
                (final(auth_service).session(), admission) == #[trigger] admitted(
                    old(auth_service).session(),
                    token_text(bearer_token),
                    now,
                ),
    {
        let session_id = match bearer_token {
            Some(token) => parse_session_id(token),
            None => None,
        };
        match session_id {
            None => {
                proof {
                    let refused = admitted(
                        auth_service.session(),
                        token_text(bearer_token),
                        0,
                    );
                    assert(refused == (auth_service.session(), Err::<UserSession, Error>(
                        Error::Unauthenticated,
                    )));
                }
                Err(Error::Unauthenticated)
            },
            Some(session_id) => {
                let ghost before = auth_service.session();
                match auth_service.validate_session(session_id) {
                    Ok(_) => {
                        proof {
                            let now = choose|now: i64|
                                (auth_service.session(), Ok::<(), Error>(()))
                                    == #[trigger] validated(before, session_id, now);
                            assert((auth_service.session(), Ok::<UserSession, Error>(
                                UserSession { session_id },
                            )) == admitted(before, token_text(bearer_token), now));
                        }
                        Ok(UserSession { session_id })
                    },
                    Err(error) => {
                        proof {
                            let now = choose|now: i64|
                                (auth_service.session(), Err::<(), Error>(error))
                                    == #[trigger] validated(before, session_id, now);
                            assert((auth_service.session(), Err::<UserSession, Error>(error))
                                == admitted(before, token_text(bearer_token), now));
                        }
                        Err(error)
                    },
                }
            },
        }
    }
}

} // verus!
