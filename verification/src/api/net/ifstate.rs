//! Setting a link up or down, and reporting the state that the link then
//! shows.

use crate::api::net::{confirmation_mismatch, protocol_failure, Event, Phase};
use crate::error::Error;
use crate::service::netlink::merge::{KernelSnapshot, NetlinkService};
use crate::service::netlink::route::{OperState, RouteManager};
use crate::service::netlink::NetlinkError;
use rtnetlink::packet_route::link::LinkMessage;
use vstd::prelude::*;
use vstd::std_specs::convert::FromSpecImpl;

verus! {

/// The states that a caller can ask for.
#[derive(Clone, Copy, Debug, PartialEq, Eq, Structural)]
pub enum IfState {
    Down,
    Up,
}

impl IfState {
    /// The operational state that the wish stands for.
    pub open spec fn target(self) -> OperState {
        match self {
            IfState::Down => OperState::Down,
            IfState::Up => OperState::Up,
        }
    }
}

impl FromSpecImpl<IfState> for OperState {
    open spec fn obeys_from_spec() -> bool {
        true
    }

    open spec fn from_spec(state: IfState) -> OperState {
        state.target()
    }
}

impl From<IfState> for OperState {
    /// The operational state that a caller's wish stands for.
    fn from(state: IfState) -> (oper_state: OperState) {
        match state {
            IfState::Down => OperState::Down,
            IfState::Up => OperState::Up,
        }
    }
}

/// A caller's wish: the interface, by name, and the state it shall take.
#[derive(Clone, Debug, PartialEq, Eq)]
pub struct PostRequestBody {
    pub interface_name: String,
    pub oper_state: IfState,
}

/// The answer: the state that the interface showed after the change.
#[derive(Clone, Copy, Debug, PartialEq, Eq, Structural)]
pub struct PostResponseBody {
    pub oper_state: OperState,
}

/// What is to be done next for a change of link state.
#[derive(Debug, PartialEq, Eq)]
pub enum Action {
    /// Take a fresh snapshot and hand it back.
    Query,
    /// Send this request to the kernel and hand back whether it was
    /// accepted.
    Send(LinkMessage),
    /// Give the caller this answer.
    Respond(Result<PostResponseBody, Error>),
}

/// The decision taken on an event, as a value: the phase that follows,
/// and what is to be done.
pub open spec fn decide(payload: PostRequestBody, phase: Phase, event: Event) -> (Phase, Action) {
    match (phase, event) {
        (Phase::Resolving, Event::Snapshot(snapshot)) => match snapshot.interface_named(
            payload.interface_name@,
        ) {
            None => (Phase::Finished, Action::Respond(Err(Error::InterfaceNotFound))),
            Some(interface) => match RouteManager::link_state_request(
                interface.index,
                payload.oper_state.target(),
            ) {
                Ok(request) => (Phase::Mutating, Action::Send(request)),
                Err(error) => (Phase::Finished, Action::Respond(Err(Error::of_netlink(error)))),
            },
        },
        (Phase::Mutating, Event::Accepted) => (Phase::Confirming, Action::Query),
        (Phase::Confirming, Event::Snapshot(snapshot)) => match snapshot.interface_named(
            payload.interface_name@,
        ) {
            Some(interface) => (
                Phase::Finished,
                Action::Respond(Ok(PostResponseBody { oper_state: interface.oper_state })),
            ),
            None => (Phase::Finished, Action::Respond(Err(confirmation_mismatch()))),
        },
        _ => (Phase::Finished, Action::Respond(Err(protocol_failure()))),
    }
}

/// The first step of a change: nothing is known yet, so a snapshot is
/// asked for.
pub fn begin() -> (first: (Phase, Action))
    ensures
        first == (Phase::Resolving, Action::Query),
{
    (Phase::Resolving, Action::Query)
}

/// Decides the next step of a change of link state.
///
/// The interface is resolved by name in a fresh snapshot; a name that is
/// not there ends the change with `InterfaceNotFound`. The request is
/// then handed out to be sent. Once the kernel has accepted it, the
/// interface is resolved again, and the state that it shows then is the
/// answer. A failed enumeration, a refused request, an interface that
/// is gone at the second look, and an event that does not belong to
/// the phase all end the change with `UnexpectedError`. Nothing is
/// tried twice.
pub fn post(payload: &PostRequestBody, phase: Phase, event: &Event) -> (next: (Phase, Action))
    ensures
        next == decide(*payload, phase, *event),
{
    match (phase, event) {
        (Phase::Resolving, Event::Snapshot(snapshot)) => {
            match NetlinkService::find_interface_by_name(
                snapshot,
                payload.interface_name.as_str(),
            ) {
                Err(_) => (Phase::Finished, Action::Respond(Err(Error::InterfaceNotFound))),
                Ok(interface) => {
                    let target = OperState::from(payload.oper_state);
                    match NetlinkService::set_interface_state(&interface, target) {
                        Ok(request) => (Phase::Mutating, Action::Send(request)),
                        Err(error) => (
                            Phase::Finished,
                            Action::Respond(Err(Error::from(error))),
                        ),
                    }
                },
            }
        },
        (Phase::Mutating, Event::Accepted) => (Phase::Confirming, Action::Query),
        (Phase::Confirming, Event::Snapshot(snapshot)) => {
            match NetlinkService::find_interface_by_name(
                snapshot,
                payload.interface_name.as_str(),
            ) {
                Ok(interface) => (
                    Phase::Finished,
                    Action::Respond(Ok(PostResponseBody { oper_state: interface.oper_state })),
                ),
                Err(_) => (
                    Phase::Finished,
                    Action::Respond(Err(Error::from(NetlinkError::ConfirmationMismatch))),
                ),
            }
        },
        _ => (Phase::Finished, Action::Respond(Err(Error::from(NetlinkError::ProtocolFailure)))),
    }
}

/// The answer that a whole change ends with: the interface is resolved
/// in a first snapshot, the kernel accepts the request or not, and a
/// second snapshot shows what came of it.
pub open spec fn outcome(
    payload: PostRequestBody,
    first: KernelSnapshot,
    accepted: bool,
    second: KernelSnapshot,
) -> Result<PostResponseBody, Error> {
    let resolved = decide(payload, Phase::Resolving, Event::Snapshot(first));
    match resolved.1 {
        Action::Respond(answer) => answer,
        _ => {
            let mutated = decide(
                payload,
                resolved.0,
                if accepted {
                    Event::Accepted
                } else {
                    Event::Rejected
                },
            );
            match mutated.1 {
                Action::Respond(answer) => answer,
                _ => {
                    let confirmed = decide(payload, mutated.0, Event::Snapshot(second));
                    match confirmed.1 {
                        Action::Respond(answer) => answer,
                        _ => Err(protocol_failure()),
                    }
                },
            }
        },
    }
}

/// A change that the kernel accepts ends with the state that the second
/// snapshot shows, whatever the state was before.
pub proof fn lemma_outcome_is_observed_state(
    payload: PostRequestBody,
    first: KernelSnapshot,
    second: KernelSnapshot,
)
    requires
        first.interface_named(payload.interface_name@) is Some,
        second.interface_named(payload.interface_name@) is Some,
    ensures
        outcome(payload, first, true, second) == Ok::<PostResponseBody, Error>(
            PostResponseBody {
                oper_state: second.interface_named(payload.interface_name@)->0.oper_state,
            },
        ),
{
}

/// Asking twice for `Up` is no error. The first change starts from any
/// state and ends with `Up` once the kernel shows the link up; the
/// second starts from that state, is requested all the same, and ends
/// with `Up` again.
pub proof fn lemma_up_twice(
    payload: PostRequestBody,
    before: KernelSnapshot,
    after_first: KernelSnapshot,
    after_second: KernelSnapshot,
)
    requires
        payload.oper_state is Up,
        before.interface_named(payload.interface_name@) is Some,
        after_first.interface_named(payload.interface_name@) matches Some(interface)
            && interface.oper_state is Up,
        after_second.interface_named(payload.interface_name@) matches Some(interface)
            && interface.oper_state is Up,
    ensures
        outcome(payload, before, true, after_first) == Ok::<PostResponseBody, Error>(
            PostResponseBody { oper_state: OperState::Up },
        ),
        outcome(payload, after_first, true, after_second) == Ok::<PostResponseBody, Error>(
            PostResponseBody { oper_state: OperState::Up },
        ),
        decide(payload, Phase::Resolving, Event::Snapshot(after_first)).1 is Send,
{
    lemma_outcome_is_observed_state(payload, before, after_first);
    lemma_outcome_is_observed_state(payload, after_first, after_second);
}

} // verus!
