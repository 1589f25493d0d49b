//! The operator's session: one at a time, opened with the password, good
//! for a while, and not to be replaced while it is fresh.

use crate::error::Error;
use argon2::{Argon2, PasswordVerifier};
use chrono::Utc;
use uuid::Uuid;
use vstd::prelude::*;

verus! {

/// The number by which a session is presented.
pub type SessionId = u128;

/// An open session. Times are in milliseconds since the Unix epoch.
#[derive(Clone, Copy, Debug, PartialEq, Eq, Structural)]
pub struct Session {
    pub id: SessionId,
    pub created_at: i64,
    pub expires_at: i64,
}

/// The time at which a session opened at `now` ends: `duration` later,
/// or at the last time that can be written where that lies beyond it.
pub open spec fn expiry(now: i64, duration: i64) -> i64 {
    if now + duration > i64::MAX {
        i64::MAX
    } else if now + duration < i64::MIN {
        i64::MIN
    } else {
        (now + duration) as i64
    }
}

/// Whether a session is so fresh at `now` that no other may replace it.
pub open spec fn in_cooldown(session: Session, cooldown: i64, now: i64) -> bool {
    now < session.created_at + cooldown
}

/// What presenting a session at `now` comes to: the session that is
/// open afterwards, and the verdict. A session other than the open one
/// is refused. The open one is accepted until it ends; presented after
/// that, it is closed.
pub open spec fn validated(current: Option<Session>, session_id: SessionId, now: i64) -> (
    Option<Session>,
    Result<(), Error>,
) {
    match current {
        None => (current, Err(Error::Unauthenticated)),
        Some(session) => if session.id != session_id {
            (current, Err(Error::Unauthenticated))
        } else if now >= session.expires_at {
            (None, Err(Error::SessionExpired))
        } else {
            (current, Ok(()))
        },
    }
}

/// What signing in at `now` comes to: the session that is open
/// afterwards, and its number or the refusal. A wrong password changes
/// nothing, and neither does a sign-in while the open session is fresh.
/// Otherwise a session with the new number replaces what was there.
pub open spec fn signed_in(
    current: Option<Session>,
    password_accepted: bool,
    duration: i64,
    cooldown: i64,
    now: i64,
    fresh_id: SessionId,
) -> (Option<Session>, Result<SessionId, Error>) {
    if !password_accepted {
        (current, Err(Error::IncorrectPassword))
    } else if current matches Some(session) && in_cooldown(session, cooldown, now) {
        (current, Err(Error::SessionCooldown))
    } else {
        (
            Some(Session { id: fresh_id, created_at: now, expires_at: expiry(now, duration) }),
            Ok(fresh_id),
        )
    }
}

/// Whether `argon2` accepts a password for a password hash in PHC form.
pub uninterp spec fn argon2_accepts(password: Seq<char>, password_hash: Seq<char>) -> bool;

/// Checks a password with `argon2::Argon2::default().verify_password`.
///
/// Taken on trust: the verdict depends on the password and the hash
/// string alone, so it is `argon2_accepts` of them.
#[verifier::external_body]
fn verify_password(password: &str, password_hash: &str) -> (accepted: bool)
    ensures
        accepted == argon2_accepts(password@, password_hash@),
{
    Argon2::default().verify_password(password.as_bytes(), password_hash).is_ok()
}

/// Reads the clock with `chrono::Utc::now`, in milliseconds since the
/// Unix epoch. Nothing is known of the result.
#[verifier::external_body]
fn current_time() -> (now: i64) {
    Utc::now().timestamp_millis()
}

/// Draws a random session number with `uuid::Uuid::new_v4`. Nothing is
/// known of the result.
#[verifier::external_body]
fn fresh_session_id() -> (id: SessionId) {
    Uuid::new_v4().as_u128()
}

/// The session numbers, password and timing rules of the control plane.
#[derive(Clone, Debug)]
pub struct AuthService {
    password_hash_str: String,
    session_duration: i64,
    session_cooldown: i64,
    session: Option<Session>,
}

impl AuthService {
    /// The operator's password hash, in PHC form.
    pub closed spec fn password_hash(&self) -> Seq<char> {
        self.password_hash_str@
    }

    /// How long a session is good for, in milliseconds.
    pub closed spec fn session_duration(&self) -> i64 {
        self.session_duration
    }

    /// How long a session cannot be replaced, in milliseconds.
    pub closed spec fn session_cooldown(&self) -> i64 {
        self.session_cooldown
    }

    /// The open session, if there is one.
    pub closed spec fn session(&self) -> Option<Session> {
        self.session
    }

    /// The same password and timing rules hold before and after.
    pub open spec fn same_rules(&self, other: &AuthService) -> bool {
        &&& self.password_hash() == other.password_hash()
        &&& self.session_duration() == other.session_duration()
        &&& self.session_cooldown() == other.session_cooldown()
    }

    /// A service with no open session.
    pub fn new(password_hash_str: String, session_duration: i64, session_cooldown: i64) -> (service:
        AuthService)
        ensures
            service.password_hash() == password_hash_str@,
            service.session_duration() == session_duration,
            service.session_cooldown() == session_cooldown,
            service.session() is None,
    {
        AuthService { password_hash_str, session_duration, session_cooldown, session: None }
    }

    /// Returns the open session, if there is one.
    pub fn active_session(&self) -> (session: Option<Session>)
        ensures
            session == self.session(),
    {
        self.session
    }

    fn is_session_in_cooldown(&self, session: &Session, now: i64) -> (fresh: bool)
        ensures
            fresh == in_cooldown(*session, self.session_cooldown, now),
    {
        (now as i128) < (session.created_at as i128) + (self.session_cooldown as i128)
    }

    /// Presents a session at a given time.
    pub fn validate_session_at(&mut self, session_id: SessionId, now: i64) -> (verdict: Result<
        (),
        Error,
    >)
        ensures
            final(self).same_rules(old(self)),
            (final(self).session(), verdict) == validated(old(self).session(), session_id, now),
    {
        match self.session {
            None => Err(Error::Unauthenticated),
            Some(session) => {
                if session_id != session.id {
                    return Err(Error::Unauthenticated);
                }
                if now >= session.expires_at {
                    self.session = None;
                    return Err(Error::SessionExpired);
                }
                Ok(())
            },
        }
    }

    /// Presents a session now. The verdict is that of `validated` at the
    /// time the clock showed.
    pub fn validate_session(&mut self, session_id: SessionId) -> (verdict: Result<(), Error>)
        ensures
            final(self).same_rules(old(self)),
            exists|now: i64|
                (final(self).session(), verdict) == #[trigger] validated(
                    old(self).session(),
                    session_id,
                    now,
                ),
    {
        let now = current_time();
        self.validate_session_at(session_id, now)
    }

    /// Signs in at a given time, with the verdict on the password and the
    /// number for the new session given.
    pub fn sign_in_at(&mut self, password_accepted: bool, now: i64, fresh_id: SessionId) -> (opened:
        Result<SessionId, Error>)
        ensures
            final(self).same_rules(old(self)),
            (final(self).session(), opened) == signed_in(
                old(self).session(),
                password_accepted,
                old(self).session_duration(),
                old(self).session_cooldown(),
                now,
                fresh_id,
            ),
    {
        if !password_accepted {
            return Err(Error::IncorrectPassword);
        }
        match self.session {
            Some(session) => {
                if self.is_session_in_cooldown(&session, now) {
                    return Err(Error::SessionCooldown);
                }
            },
            None => {},
        }
        let end: i128 = (now as i128) + (self.session_duration as i128);
        let expires_at: i64 = if end > i64::MAX as i128 {
            i64::MAX
        } else if end < i64::MIN as i128 {
            i64::MIN
        } else {
            end as i64
        };
        self.session = Some(Session { id: fresh_id, created_at: now, expires_at });
        Ok(fresh_id)
    }

    /// Signs in now. The password is checked against the operator's
    /// hash; the outcome is that of `signed_in` with that verdict, at the
    /// time the clock showed and with the number that was drawn.
    pub fn sign_in(&mut self, password: String) -> (opened: Result<SessionId, Error>)
        ensures
            final(self).same_rules(old(self)),
            exists|now: i64, fresh_id: SessionId|
                (final(self).session(), opened) == #[trigger] signed_in(
                    old(self).session(),
                    argon2_accepts(password@, old(self).password_hash()),
                    old(self).session_duration(),
                    old(self).session_cooldown(),
                    now,
                    fresh_id,
                ),
    {
        let accepted = verify_password(password.as_str(), self.password_hash_str.as_str());
        if !accepted {
            proof {
                let unchanged = signed_in(
                    self.session(),
                    argon2_accepts(password@, self.password_hash()),
                    self.session_duration(),
                    self.session_cooldown(),
                    0,
                    0,
                );
                assert(unchanged == (self.session(), Err::<SessionId, Error>(
                    Error::IncorrectPassword,
                )));
            }
            return Err(Error::IncorrectPassword);
        }
        let fresh_id = fresh_session_id();
        let now = current_time();
        self.sign_in_at(accepted, now, fresh_id)
    }

    /// Closes the open session, if there is one.
    pub fn sign_out(&mut self) -> (closed: Result<(), Error>)
        ensures
            final(self).same_rules(old(self)),
            final(self).session() is None,
            closed is Ok,
    {
        self.session = None;
        Ok(())
    }
}

/// The session number that `uuid` reads out of a text, or nothing where
/// the text is no UUID.
pub uninterp spec fn parsed_session_id(text: Seq<char>) -> Option<SessionId>;

/// The text in which `uuid` writes a session number.
pub uninterp spec fn session_id_text(id: SessionId) -> Seq<char>;

/// Reads a session number with `uuid::Uuid::try_from`.
///
/// Taken on trust: the parser's answer depends on the text alone, so it
/// is `parsed_session_id` of that text.
#[verifier::external_body]
pub(crate) fn parse_session_id(text: &str) -> (parsed: Option<SessionId>)
    ensures
        parsed == parsed_session_id(text@),
{
    match Uuid::try_from(text) {
        Ok(id) => Some(id.as_u128()),
        Err(_) => None,
    }
}

/// Writes a session number with `uuid::Uuid::from_u128` and `to_string`.
///
/// Taken on trust: the text depends on the number alone, so it is
/// `session_id_text` of that number; and `uuid` reads the number back
/// out of the text that it wrote.
#[verifier::external_body]
pub(crate) fn write_session_id(id: SessionId) -> (text: String)
    ensures
        text@ == session_id_text(id),
        parsed_session_id(text@) == Some(id),
{
    Uuid::from_u128(id).to_string()
}

} // verus!
