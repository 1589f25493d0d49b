//! The error kinds that the control plane reports to its callers.

use crate::service::netlink::NetlinkError;
use vstd::prelude::*;
use vstd::std_specs::convert::FromSpecImpl;

verus! {

/// A failure that a caller of the control plane can tell apart by kind.
#[derive(Clone, Copy, Debug, PartialEq, Eq, Structural)]
pub enum Error {
    /// A kernel exchange failed, or a confirmation did not show what was expected.
    UnexpectedError,
    /// The caller's hardware address could not be resolved.
    RouterClientIdentificationFailed,
    /// A new session was asked for while the last one is still fresh.
    SessionCooldown,
    /// The password does not match.
    IncorrectPassword,
    /// No session, or a session other than the one presented.
    Unauthenticated,
    /// The presented session is past its end.
    SessionExpired,
    /// No interface of the requested name exists.
    InterfaceNotFound,
    /// The requested state or mode can be observed but not set.
    InvalidTarget,
}

impl Error {
    /// The HTTP status that stands for this kind.
    pub open spec fn spec_status_code(self) -> u16 {
        match self {
            Error::UnexpectedError | Error::RouterClientIdentificationFailed => 500,
            Error::SessionCooldown => 429,
            Error::IncorrectPassword | Error::Unauthenticated | Error::SessionExpired => 401,
            Error::InterfaceNotFound => 404,
            Error::InvalidTarget => 400,
        }
    }

    /// The text shown to the caller for this kind.
    pub open spec fn spec_message(self) -> Seq<char> {
        match self {
            Error::UnexpectedError => "Unexpected error happened"@,
            Error::RouterClientIdentificationFailed => "Failed to identify the router client"@,
            Error::SessionCooldown => "Session creation is on cooldown"@,
            Error::IncorrectPassword => "Incorrect credentials"@,
            Error::Unauthenticated => "User is not authenticated"@,
            Error::SessionExpired => "Session has expired"@,
            Error::InterfaceNotFound => "Interface not found"@,
            Error::InvalidTarget => "Requested state cannot be set"@,
        }
    }

    /// The kind under which a failure of the network-state engine is
    /// reported.
    pub open spec fn of_netlink(error: NetlinkError) -> Error {
        match error {
            NetlinkError::NotFound => Error::InterfaceNotFound,
            NetlinkError::InvalidTarget => Error::InvalidTarget,
            NetlinkError::ProtocolFailure => Error::UnexpectedError,
            NetlinkError::ConfirmationMismatch => Error::UnexpectedError,
        }
    }

    /// Returns the HTTP status code for this error.
    pub fn status_code(&self) -> (code: u16)
        ensures
            code == self.spec_status_code(),
    {
        match self {
            Error::UnexpectedError | Error::RouterClientIdentificationFailed => 500,
            Error::SessionCooldown => 429,
            Error::IncorrectPassword => 401,
            Error::Unauthenticated => 401,
            Error::SessionExpired => 401,
            Error::InterfaceNotFound => 404,
            Error::InvalidTarget => 400,
        }
    }

    /// Returns the message for this error.
    pub fn message(&self) -> (text: &'static str)
        ensures
            text@ == self.spec_message(),
    {
        match self {
            Error::UnexpectedError => "Unexpected error happened",
            Error::RouterClientIdentificationFailed => "Failed to identify the router client",
            Error::SessionCooldown => "Session creation is on cooldown",
            Error::IncorrectPassword => "Incorrect credentials",
            Error::Unauthenticated => "User is not authenticated",
            Error::SessionExpired => "Session has expired",
            Error::InterfaceNotFound => "Interface not found",
            Error::InvalidTarget => "Requested state cannot be set",
        }
    }
}

impl FromSpecImpl<NetlinkError> for Error {
    open spec fn obeys_from_spec() -> bool {
        true
    }

    open spec fn from_spec(error: NetlinkError) -> Error {
        Error::of_netlink(error)
    }
}

impl From<NetlinkError> for Error {
    /// Reports a failure of the network-state engine to a caller. A name
    /// that was not found and a target that cannot be set keep their
    /// kind; what went wrong with the kernel is an unexpected error.
    fn from(error: NetlinkError) -> (reported: Error) {
        match error {
            NetlinkError::NotFound => Error::InterfaceNotFound,
            NetlinkError::InvalidTarget => Error::InvalidTarget,
            NetlinkError::ProtocolFailure => Error::UnexpectedError,
            NetlinkError::ConfirmationMismatch => Error::UnexpectedError,
        }
    }
}

} // verus!
