//! Changing the mode of a wireless interface, and reporting the mode that
//! the interface then shows.

use crate::api::net::{confirmation_mismatch, protocol_failure, Event, Phase};
use crate::error::Error;
use crate::service::netlink::merge::NetlinkService;
use crate::service::netlink::{NetlinkError, NetlinkInterfaceMode};
use vstd::prelude::*;
use wl_nl80211::Nl80211Attr;

verus! {

/// A caller's wish: the interface, by name, and the mode it shall take.
#[derive(Clone, Debug, PartialEq, Eq)]
pub struct PostRequestBody {
    pub interface_name: String,
    pub interface_mode: NetlinkInterfaceMode,
}

/// The answer: the mode that the interface showed after the change.
#[derive(Clone, Copy, Debug, PartialEq, Eq, Structural)]
pub struct PostResponseBody {
    pub interface_mode: NetlinkInterfaceMode,
}

/// What is to be done next for a change of mode.
#[derive(Debug, PartialEq, Eq)]
pub enum Action {
    /// Take a fresh snapshot and hand it back.
    Query,
    /// Send a request of these attributes to the kernel and hand back
    /// whether it was accepted.
    Send(Vec<Nl80211Attr>),
    /// Give the caller this answer.
    Respond(Result<PostResponseBody, Error>),
}

/// The mathematical value of an `Action`.
pub enum ActionView {
    Query,
    Send(Seq<Nl80211Attr>),
    Respond(Result<PostResponseBody, Error>),
}

impl View for Action {
    type V = ActionView;

    open spec fn view(&self) -> ActionView {
        match self {
            Action::Query => ActionView::Query,
            Action::Send(attrs) => ActionView::Send(attrs@),
            Action::Respond(answer) => ActionView::Respond(*answer),
        }
    }
}

/// The decision taken on an event, as a value: the phase that follows,
/// and what is to be done.
pub open spec fn decide(payload: PostRequestBody, phase: Phase, event: Event) -> (
    Phase,
    ActionView,
) {
    match (phase, event) {
        (Phase::Resolving, Event::Snapshot(snapshot)) => match snapshot.interface_named(
            payload.interface_name@,
        ) {
            None => (Phase::Finished, ActionView::Respond(Err(Error::InterfaceNotFound))),
            Some(interface) => match NetlinkService::interface_mode_request(
                snapshot.wireless(),
                interface.index,
                payload.interface_mode,
            ) {
                Ok(request) => (Phase::Mutating, ActionView::Send(request)),
                Err(error) => (
                    Phase::Finished,
                    ActionView::Respond(Err(Error::of_netlink(error))),
                ),
            },
        },
        (Phase::Mutating, Event::Accepted) => (Phase::Confirming, ActionView::Query),
        (Phase::Confirming, Event::Snapshot(snapshot)) => match snapshot.interface_named(
            payload.interface_name@,
        ) {
            Some(interface) => match interface.mode_status {
                Some(status) => (
                    Phase::Finished,
                    ActionView::Respond(Ok(PostResponseBody { interface_mode: status.active })),
                ),
                None => (Phase::Finished, ActionView::Respond(Err(confirmation_mismatch()))),
            },
            None => (Phase::Finished, ActionView::Respond(Err(confirmation_mismatch()))),
        },
        _ => (Phase::Finished, ActionView::Respond(Err(protocol_failure()))),
    }
}

/// The first step of a change: nothing is known yet, so a snapshot is
/// asked for.
pub fn begin() -> (first: (Phase, Action))
    ensures
        first.0 == Phase::Resolving,
        first.1@ == ActionView::Query,
{
    (Phase::Resolving, Action::Query)
}

/// Decides the next step of a change of mode.
///
/// The interface is resolved by name in a fresh snapshot; a name that is
/// not there ends the change with `InterfaceNotFound`, and so does an
/// interface that the wireless view does not show. `OtherWireless` as
/// the wished mode ends it with `InvalidTarget`. Otherwise the request
/// is handed out to be sent. Once the kernel has accepted it, the
/// interface is resolved again, and the mode that it shows then is the
/// answer. A failed enumeration, a refused request, an interface that
/// is gone or shows no mode at the second look, and an event that does
/// not belong to the phase all end the change with `UnexpectedError`.
/// Nothing is tried twice.
pub fn post(payload: &PostRequestBody, phase: Phase, event: &Event) -> (next: (Phase, Action))
    ensures
        (next.0, next.1@) == decide(*payload, phase, *event),
{
    match (phase, event) {
        (Phase::Resolving, Event::Snapshot(snapshot)) => {
            match NetlinkService::find_interface_by_name(
                snapshot,
                payload.interface_name.as_str(),
            ) {
                Err(_) => (Phase::Finished, Action::Respond(Err(Error::InterfaceNotFound))),
                Ok(interface) => {
                    match NetlinkService::set_interface_mode(
                        snapshot,
                        &interface,
                        payload.interface_mode,
                    ) {
                        Ok(request) => (Phase::Mutating, Action::Send(request)),
                        Err(error) => (
                            Phase::Finished,
                            Action::Respond(Err(Error::from(error))),
                        ),
                    }
                },
            }
        },
        (Phase::Mutating, Event::Accepted) => (Phase::Confirming, Action::Query),
        (Phase::Confirming, Event::Snapshot(snapshot)) => {
            match NetlinkService::find_interface_by_name(
                snapshot,
                payload.interface_name.as_str(),
            ) {
                Ok(interface) => match interface.mode_status {
                    Some(status) => (
                        Phase::Finished,
                        Action::Respond(Ok(PostResponseBody { interface_mode: status.active })),
                    ),
                    None => (
                        Phase::Finished,
                        Action::Respond(Err(Error::from(NetlinkError::ConfirmationMismatch))),
                    ),
                },
                Err(_) => (
                    Phase::Finished,
                    Action::Respond(Err(Error::from(NetlinkError::ConfirmationMismatch))),
                ),
            }
        },
        _ => (Phase::Finished, Action::Respond(Err(Error::from(NetlinkError::ProtocolFailure)))),
    }
}

/// A mode that can only be observed is never requested: whatever the
/// snapshot shows, the change ends without a request.
pub proof fn lemma_other_wireless_is_never_sent(
    payload: PostRequestBody,
    phase: Phase,
    event: Event,
)
    requires
        payload.interface_mode is OtherWireless,
    ensures
        !(decide(payload, phase, event).1 is Send),
{
}

} // verus!
