//! The generic link view: interfaces with their operational state, the
//! neighbour table, and requests that set a link up or down.

use crate::addr::{link_layer_mac, IpAddress, MacAddress};
use rtnetlink::packet_route::link::LinkMessage;
use rtnetlink::LinkUnspec;
use crate::service::netlink::neighbor::{NeighborEntry, NeighborTable};
use crate::service::netlink::NetlinkError;
use vstd::prelude::*;
use vstd::std_specs::convert::FromSpecImpl;

verus! {

/// Link-layer type code of Ethernet.
pub const LINK_LAYER_ETHER: u16 = 1;

/// Link-layer type code of the loopback device.
pub const LINK_LAYER_LOOPBACK: u16 = 772;

/// Link-layer type code of plain IEEE 802.11.
pub const LINK_LAYER_IEEE80211: u16 = 801;

/// Link-layer type code of IEEE 802.11 with a Prism header.
pub const LINK_LAYER_IEEE80211_PRISM: u16 = 802;

/// Link-layer type code of IEEE 802.11 with a Radiotap header.
pub const LINK_LAYER_IEEE80211_RADIOTAP: u16 = 803;

/// Operational state code of a link that is down.
pub const OPER_STATE_DOWN: u8 = 2;

/// Operational state code of a link that is up.
pub const OPER_STATE_UP: u8 = 6;

/// What sort of device an interface is.
#[derive(Clone, Copy, Debug, PartialEq, Eq, Structural)]
pub enum RouteInterfaceKind {
    Ethernet,
    Wireless,
    Loopback,
    /// Any other device, with its link-layer type code.
    Unknown(u16),
}

impl RouteInterfaceKind {
    /// The kind that a link-layer type code stands for.
    pub open spec fn of_link_layer(code: u16) -> RouteInterfaceKind {
        if code == LINK_LAYER_ETHER {
            RouteInterfaceKind::Ethernet
        } else if code == LINK_LAYER_LOOPBACK {
            RouteInterfaceKind::Loopback
        } else if code == LINK_LAYER_IEEE80211 || code == LINK_LAYER_IEEE80211_PRISM || code
            == LINK_LAYER_IEEE80211_RADIOTAP {
            RouteInterfaceKind::Wireless
        } else {
            RouteInterfaceKind::Unknown(code)
        }
    }

    /// Classifies a link-layer type code. A code that is neither Ethernet,
    /// loopback nor one of the 802.11 codes is kept in `Unknown`.
    pub fn from_link_layer(code: u16) -> (kind: RouteInterfaceKind)
        ensures
            kind == RouteInterfaceKind::of_link_layer(code),
    {
        if code == LINK_LAYER_ETHER {
            RouteInterfaceKind::Ethernet
        } else if code == LINK_LAYER_LOOPBACK {
            RouteInterfaceKind::Loopback
        } else if code == LINK_LAYER_IEEE80211 || code == LINK_LAYER_IEEE80211_PRISM || code
            == LINK_LAYER_IEEE80211_RADIOTAP {
            RouteInterfaceKind::Wireless
        } else {
            RouteInterfaceKind::Unknown(code)
        }
    }
}

/// The observed operational state of a link.
#[derive(Clone, Copy, Debug, PartialEq, Eq, Structural)]
pub enum OperState {
    Unknown,
    Down,
    Up,
    /// Any other state, with the kernel's code for it.
    Other(u8),
}

impl OperState {
    /// The state that a kernel code stands for: down, up, or the code itself.
    pub open spec fn of_code(code: u8) -> OperState {
        if code == OPER_STATE_DOWN {
            OperState::Down
        } else if code == OPER_STATE_UP {
            OperState::Up
        } else {
            OperState::Other(code)
        }
    }

    /// Whether a link can be asked to take this state.
    pub open spec fn spec_is_settable(self) -> bool {
        self is Up || self is Down
    }

    /// Tells whether a link can be asked to take this state: only `Up` and
    /// `Down` can, the other two are observed only.
    pub fn is_settable(&self) -> (settable: bool)
        ensures
            settable == self.spec_is_settable(),
    {
        match self {
            OperState::Up | OperState::Down => true,
            _ => false,
        }
    }
}

impl FromSpecImpl<u8> for OperState {
    open spec fn obeys_from_spec() -> bool {
        true
    }

    open spec fn from_spec(code: u8) -> OperState {
        OperState::of_code(code)
    }
}

impl From<u8> for OperState {
    /// Reads a kernel operational-state code.
    fn from(code: u8) -> (state: OperState) {
        if code == OPER_STATE_DOWN {
            OperState::Down
        } else if code == OPER_STATE_UP {
            OperState::Up
        } else {
            OperState::Other(code)
        }
    }
}

/// An interface as the generic link view shows it.
#[derive(Clone, Debug, PartialEq, Eq)]
pub struct RouteInterface {
    pub index: u32,
    pub name: String,
    pub kind: RouteInterfaceKind,
    pub oper_state: OperState,
}

/// The mathematical value of a `RouteInterface`.
pub struct RouteInterfaceView {
    pub index: u32,
    pub name: Seq<char>,
    pub kind: RouteInterfaceKind,
    pub oper_state: OperState,
}

impl View for RouteInterface {
    type V = RouteInterfaceView;

    open spec fn view(&self) -> RouteInterfaceView {
        RouteInterfaceView {
            index: self.index,
            name: self.name@,
            kind: self.kind,
            oper_state: self.oper_state,
        }
    }
}

/// One attribute of a link record, as far as the interface model reads it.
#[derive(Clone, Debug, PartialEq, Eq)]
pub enum LinkAttr {
    /// The interface's name.
    IfName(String),
    /// The kernel's code for the operational state.
    OperState(u8),
    /// An attribute that the model does not read.
    Other,
}

/// One link record of the kernel's enumeration.
#[derive(Clone, Debug, PartialEq, Eq)]
pub struct LinkRecord {
    pub index: u32,
    pub link_layer_type: u16,
    pub attributes: Vec<LinkAttr>,
}

/// The name that the last name attribute gives, if there is one.
pub open spec fn last_if_name(attributes: Seq<LinkAttr>) -> Option<Seq<char>>
    decreases attributes.len(),
{
    if attributes.len() == 0 {
        None
    } else {
        match attributes.last() {
            LinkAttr::IfName(name) => Some(name@),
            _ => last_if_name(attributes.drop_last()),
        }
    }
}

/// The state that the last state attribute gives, if there is one.
pub open spec fn last_oper_state(attributes: Seq<LinkAttr>) -> Option<OperState>
    decreases attributes.len(),
{
    if attributes.len() == 0 {
        None
    } else {
        match attributes.last() {
            LinkAttr::OperState(code) => Some(OperState::of_code(code)),
            _ => last_oper_state(attributes.drop_last()),
        }
    }
}

impl LinkRecord {
    /// The interface that this record describes. A record without a name,
    /// or without an operational state, describes none.
    pub open spec fn interface(self) -> Option<RouteInterfaceView> {
        match (last_if_name(self.attributes@), last_oper_state(self.attributes@)) {
            (Some(name), Some(oper_state)) => Some(
                RouteInterfaceView {
                    index: self.index,
                    name,
                    kind: RouteInterfaceKind::of_link_layer(self.link_layer_type),
                    oper_state,
                },
            ),
            _ => None,
        }
    }

    /// Reads the interface out of this record, or `None` where the record
    /// lacks a name or an operational state.
    pub fn to_interface(&self) -> (found: Option<RouteInterface>)
        ensures
            found matches Some(interface) ==> self.interface() == Some(interface@),
            found is None ==> self.interface() is None,
    {
        let mut ifname: Option<String> = None;
        let mut oper_state: Option<OperState> = None;
        let mut i: usize = 0;
        while i < self.attributes.len()
            invariant
                i <= self.attributes.len(),
                ifname matches Some(name) ==> last_if_name(self.attributes@.take(i as int))
                    == Some(name@),
                ifname is None ==> last_if_name(self.attributes@.take(i as int)) is None,
                oper_state == last_oper_state(self.attributes@.take(i as int)),
            decreases self.attributes.len() - i,
        {
            proof {
                let next = self.attributes@.take(i + 1);
                assert(next.drop_last() =~= self.attributes@.take(i as int));
                assert(next.last() == self.attributes@[i as int]);
            }
            match &self.attributes[i] {
                LinkAttr::IfName(name) => {
                    ifname = Some(name.clone());
                },
                LinkAttr::OperState(code) => {
                    oper_state = Some(OperState::from(*code));
                },
                LinkAttr::Other => {},
            }
            i += 1;
        }
        assert(self.attributes@.take(i as int) =~= self.attributes@);
        match (ifname, oper_state) {
            (Some(name), Some(oper_state)) => Some(
                RouteInterface {
                    index: self.index,
                    name,
                    kind: RouteInterfaceKind::from_link_layer(self.link_layer_type),
                    oper_state,
                },
            ),
            _ => None,
        }
    }
}

/// The interfaces that a run of link records describes, in the records'
/// order; records that describe none are left out.
pub open spec fn interfaces_of(records: Seq<LinkRecord>) -> Seq<RouteInterfaceView>
    decreases records.len(),
{
    if records.len() == 0 {
        Seq::empty()
    } else {
        let earlier = interfaces_of(records.drop_last());
        match records.last().interface() {
            Some(interface) => earlier.push(interface),
            None => earlier,
        }
    }
}

/// The values of a run of interfaces.
pub open spec fn route_interface_views(interfaces: Seq<RouteInterface>) -> Seq<
    RouteInterfaceView,
> {
    interfaces.map_values(|interface: RouteInterface| interface@)
}

/// The generic link side of the engine.
pub struct RouteManager;

impl RouteManager {
    /// Builds the interface list from the link records of one enumeration.
    /// Records without a name or without an operational state are skipped.
    pub fn get_interfaces(links: &Vec<LinkRecord>) -> (interfaces: Vec<RouteInterface>)
        ensures
            route_interface_views(interfaces@) == interfaces_of(links@),
    {
        let mut interfaces: Vec<RouteInterface> = Vec::new();
        let mut i: usize = 0;
        while i < links.len()
            invariant
                i <= links.len(),
                route_interface_views(interfaces@) == interfaces_of(links@.take(i as int)),
            decreases links.len() - i,
        {
            proof {
                let next = links@.take(i + 1);
                assert(next.drop_last() =~= links@.take(i as int));
                assert(next.last() == links@[i as int]);
            }
            let ghost before = interfaces@;
            match links[i].to_interface() {
                Some(interface) => {
                    interfaces.push(interface);
                    assert(route_interface_views(interfaces@) =~= route_interface_views(
                        before,
                    ).push(interface@));
                },
                None => {},
            }
            i += 1;
        }
        assert(links@.take(i as int) =~= links@);
        interfaces
    }
}

/// `netlink_packet_route::link::LinkMessage`, the body of a link request.
/// Nothing inside it is visible here.
#[verifier::external_type_specification]
#[verifier::external_body]
pub struct ExLinkMessage(LinkMessage);

/// The request that `rtnetlink` builds to set the link of an index up.
pub uninterp spec fn link_up_request(index: u32) -> LinkMessage;

/// The request that `rtnetlink` builds to set the link of an index down.
pub uninterp spec fn link_down_request(index: u32) -> LinkMessage;

/// Builds an "up" request with `rtnetlink::LinkUnspec::new_with_index`,
/// `up` and `build`.
///
/// Taken on trust: the builder's result depends on the index alone, so it
/// is `link_up_request` of that index.
#[verifier::external_body]
fn build_link_up(index: u32) -> (message: LinkMessage)
    ensures
        message == link_up_request(index),
{
    LinkUnspec::new_with_index(index).up().build()
}

/// Builds a "down" request with `rtnetlink::LinkUnspec::new_with_index`,
/// `down` and `build`.
///
/// Taken on trust: the builder's result depends on the index alone, so it
/// is `link_down_request` of that index.
#[verifier::external_body]
fn build_link_down(index: u32) -> (message: LinkMessage)
    ensures
        message == link_down_request(index),
{
    LinkUnspec::new_with_index(index).down().build()
}

impl RouteManager {
    /// The request that asks the kernel to bring a link into a state. Only
    /// `Up` and `Down` can be asked for; the link is named by its index.
    pub open spec fn link_state_request(index: u32, state: OperState) -> Result<
        LinkMessage,
        NetlinkError,
    > {
        match state {
            OperState::Up => Ok(link_up_request(index)),
            OperState::Down => Ok(link_down_request(index)),
            _ => Err(NetlinkError::InvalidTarget),
        }
    }

    /// Prepares the request that sets an interface's link up or down. Any
    /// other target is refused with `InvalidTarget`, and no request is
    /// built. A request that the kernel accepts is not yet a confirmation
    /// that the link has reached the state.
    pub fn set_link_oper_state(route_interface: &RouteInterface, state: OperState) -> (request:
        Result<LinkMessage, NetlinkError>)
        ensures
            request == RouteManager::link_state_request(route_interface.index, state),
            request is Ok <==> state.spec_is_settable(),
    {
        match state {
            OperState::Up => Ok(build_link_up(route_interface.index)),
            OperState::Down => Ok(build_link_down(route_interface.index)),
            _ => Err(NetlinkError::InvalidTarget),
        }
    }
}

/// One attribute of a neighbour record, as far as the table reads it.
#[derive(Clone, Debug, PartialEq, Eq)]
pub enum NeighbourAttr {
    /// The neighbour's IP address.
    Destination(IpAddress),
    /// The octets of the neighbour's link-layer address.
    LinkLocalAddress(Vec<u8>),
    /// An attribute that the table does not read.
    Other,
}

/// One neighbour record of the kernel's enumeration.
#[derive(Clone, Debug, PartialEq, Eq)]
pub struct NeighbourRecord {
    pub attributes: Vec<NeighbourAttr>,
}

/// The address that the last destination attribute gives, if there is one.
pub open spec fn last_destination(attributes: Seq<NeighbourAttr>) -> Option<IpAddress>
    decreases attributes.len(),
{
    if attributes.len() == 0 {
        None
    } else {
        match attributes.last() {
            NeighbourAttr::Destination(ip_address) => Some(ip_address),
            _ => last_destination(attributes.drop_last()),
        }
    }
}

/// The hardware address that the last link-layer attribute gives: none
/// where there is no such attribute, or where its octets are no address.
pub open spec fn last_link_local(attributes: Seq<NeighbourAttr>) -> Option<Seq<u8>>
    decreases attributes.len(),
{
    if attributes.len() == 0 {
        None
    } else {
        match attributes.last() {
            NeighbourAttr::LinkLocalAddress(octets) => link_layer_mac(octets@),
            _ => last_link_local(attributes.drop_last()),
        }
    }
}

impl NeighbourRecord {
    /// The table line that this record gives: its destination address and
    /// the octets of its hardware address. A record that lacks either
    /// gives none.
    pub open spec fn entry(self) -> Option<(IpAddress, Seq<u8>)> {
        match (last_destination(self.attributes@), last_link_local(self.attributes@)) {
            (Some(ip_address), Some(octets)) => Some((ip_address, octets)),
            _ => None,
        }
    }

    /// Reads the table line out of this record, or `None` where the record
    /// lacks a destination or a usable link-layer address.
    pub fn to_entry(&self) -> (found: Option<NeighborEntry>)
        ensures
            found matches Some(entry) ==> self.entry() == Some(
                (entry.ip_address, entry.mac_address@),
            ),
            found is None ==> self.entry() is None,
    {
        let mut ip_address: Option<IpAddress> = None;
        let mut mac_address: Option<MacAddress> = None;
        let mut i: usize = 0;
        while i < self.attributes.len()
            invariant
                i <= self.attributes.len(),
                ip_address == last_destination(self.attributes@.take(i as int)),
                mac_address matches Some(mac) ==> last_link_local(
                    self.attributes@.take(i as int),
                ) == Some(mac@),
                mac_address is None ==> last_link_local(self.attributes@.take(i as int)) is None,
            decreases self.attributes.len() - i,
        {
            proof {
                let next = self.attributes@.take(i + 1);
                assert(next.drop_last() =~= self.attributes@.take(i as int));
                assert(next.last() == self.attributes@[i as int]);
            }
            match &self.attributes[i] {
                NeighbourAttr::Destination(address) => {
                    ip_address = Some(*address);
                },
                NeighbourAttr::LinkLocalAddress(octets) => {
                    mac_address = MacAddress::from_link_layer(octets);
                },
                NeighbourAttr::Other => {},
            }
            i += 1;
        }
        assert(self.attributes@.take(i as int) =~= self.attributes@);
        NeighborEntry::pair(ip_address, mac_address)
    }
}

/// The table that a run of neighbour records gives: each record's line is
/// entered in turn, so a later record replaces an earlier one of the same
/// IP address.
pub open spec fn neighbour_map(records: Seq<NeighbourRecord>) -> Map<IpAddress, Seq<u8>>
    decreases records.len(),
{
    if records.len() == 0 {
        Map::empty()
    } else {
        let earlier = neighbour_map(records.drop_last());
        match records.last().entry() {
            Some((ip_address, octets)) => earlier.insert(ip_address, octets),
            None => earlier,
        }
    }
}

impl RouteManager {
    /// Builds the neighbour table from the neighbour records of one
    /// enumeration. Records that lack the IP address or a usable
    /// link-layer address are skipped; of two records with one IP address
    /// the later one stays.
    pub fn get_neighbor_mac_addresses(neighbours: &Vec<NeighbourRecord>) -> (table: NeighborTable)
        ensures
            table.wf(),
            table@ == neighbour_map(neighbours@),
    {
        let mut table = NeighborTable::new();
        let mut i: usize = 0;
        while i < neighbours.len()
            invariant
                i <= neighbours.len(),
                table.wf(),
                table@ == neighbour_map(neighbours@.take(i as int)),
            decreases neighbours.len() - i,
        {
            proof {
                let next = neighbours@.take(i + 1);
                assert(next.drop_last() =~= neighbours@.take(i as int));
                assert(next.last() == neighbours@[i as int]);
            }
            match neighbours[i].to_entry() {
                Some(entry) => {
                    table.insert(entry.ip_address, entry.mac_address);
                },
                None => {},
            }
            i += 1;
        }
        assert(neighbours@.take(i as int) =~= neighbours@);
        table
    }
}

} // verus!
