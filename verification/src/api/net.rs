//! The entry points that read and change network interfaces.

pub mod ifmode;
pub mod ifstate;
pub mod interfaces;

use crate::error::Error;
use crate::service::netlink::merge::KernelSnapshot;
use crate::service::netlink::NetlinkError;
use vstd::prelude::*;

verus! {

/// How far a change has come. A change runs in three rounds with the
/// kernel: the interface is resolved, the change is requested, and the
/// interface is read again to see what came of it.
#[derive(Clone, Copy, Debug, PartialEq, Eq, Structural)]
pub enum Phase {
    /// Waiting for the snapshot in which the interface is looked up.
    Resolving,
    /// Waiting for the kernel's answer to the request.
    Mutating,
    /// Waiting for the snapshot that shows the interface after the change.
    Confirming,
    /// The answer to the caller has been given.
    Finished,
}

/// What came back from the kernel.
#[derive(Clone, Debug, PartialEq, Eq)]
pub enum Event {
    /// A round of enumerations ended, with these records.
    Snapshot(KernelSnapshot),
    /// A round of enumerations failed.
    QueryFailed,
    /// The kernel accepted the request.
    Accepted,
    /// The kernel refused the request, or the exchange failed.
    Rejected,
}

/// How a failed exchange with the kernel is reported: an enumeration
/// that failed, a request that was refused, an event out of turn.
pub open spec fn protocol_failure() -> Error {
    Error::of_netlink(NetlinkError::ProtocolFailure)
}

/// How it is reported that the interface read back after a change lacks
/// what the change set.
pub open spec fn confirmation_mismatch() -> Error {
    Error::of_netlink(NetlinkError::ConfirmationMismatch)
}

} // verus!
