//! Listing the interfaces.

use crate::api::net::protocol_failure;
use crate::error::Error;
use crate::service::netlink::merge::{KernelSnapshot, NetlinkService};
use crate::service::netlink::{NetlinkError, NetlinkInterface, NetlinkInterfaceView};
use vstd::prelude::*;
use vstd::std_specs::convert::FromSpecImpl;

verus! {

/// An interface as the list shows it.
#[derive(Clone, Debug, PartialEq, Eq)]
pub struct Interface {
    pub index: u32,
    pub name: String,
}

/// The mathematical value of an `Interface`.
pub struct InterfaceView {
    pub index: u32,
    pub name: Seq<char>,
}

impl View for Interface {
    type V = InterfaceView;

    open spec fn view(&self) -> InterfaceView {
        InterfaceView { index: self.index, name: self.name@ }
    }
}

impl Interface {
    /// What the list shows of an interface of the merged view.
    pub open spec fn of(interface: NetlinkInterfaceView) -> InterfaceView {
        InterfaceView { index: interface.index, name: interface.name }
    }

    /// Copies the index and the name of an interface of the merged view.
    pub fn from_ref(value: &NetlinkInterface) -> (interface: Interface)
        ensures
            interface@ == Interface::of(value@),
    {
        Interface { index: value.index, name: value.name.clone() }
    }
}

impl FromSpecImpl<NetlinkInterface> for Interface {
    open spec fn obeys_from_spec() -> bool {
        true
    }

    open spec fn from_spec(value: NetlinkInterface) -> Interface {
        Interface { index: value.index, name: value.name }
    }
}

impl From<NetlinkInterface> for Interface {
    /// Keeps the index and the name of an interface of the merged view.
    fn from(value: NetlinkInterface) -> (interface: Interface) {
        Interface { index: value.index, name: value.name }
    }
}

/// The answer: the interfaces, each name once.
#[derive(Clone, Debug, PartialEq, Eq)]
pub struct PostResponseBody {
    pub interfaces: Vec<Interface>,
}

impl PostResponseBody {
    /// The values of the listed interfaces.
    pub open spec fn listed(self) -> Seq<InterfaceView> {
        self.interfaces@.map_values(|interface: Interface| interface@)
    }
}

/// What the list shows of a merged view.
pub open spec fn listing(interfaces: Seq<NetlinkInterfaceView>) -> Seq<InterfaceView> {
    interfaces.map_values(|interface: NetlinkInterfaceView| Interface::of(interface))
}

/// Answers with the interfaces of a snapshot, or with `UnexpectedError`
/// where the enumeration failed.
pub fn post(snapshot: Option<&KernelSnapshot>) -> (answer: Result<PostResponseBody, Error>)
    ensures
        match snapshot {
            Some(snapshot) => answer matches Ok(body) && body.listed() == listing(
                snapshot.interfaces(),
            ),
            None => answer == Err::<PostResponseBody, Error>(protocol_failure()),
        },
{
    match snapshot {
        None => Err(Error::from(NetlinkError::ProtocolFailure)),
        Some(snapshot) => {
            let merged = NetlinkService::get_interfaces(snapshot);
            let mut interfaces: Vec<Interface> = Vec::new();
            let mut i: usize = 0;
            while i < merged.len()
                invariant
                    i <= merged.len(),
                    interfaces@.len() == i,
                    forall|k: int|
                        0 <= k < i ==> (#[trigger] interfaces@[k])@ == Interface::of(
                            merged@[k]@,
                        ),
                decreases merged.len() - i,
            {
                interfaces.push(Interface::from_ref(&merged[i]));
                i += 1;
            }
            let body = PostResponseBody { interfaces };
            assert(body.listed() =~= listing(snapshot.interfaces()));
            Ok(body)
        },
    }
}

} // verus!
