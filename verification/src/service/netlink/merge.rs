//! The merge of the wireless view and the generic link view into one
//! list of interfaces, each name once.

use crate::service::netlink::neighbor::NeighborTable;
use crate::service::netlink::route::{
    interfaces_of, neighbour_map, route_interface_views, LinkRecord, NeighbourRecord, OperState,
    RouteInterface, RouteInterfaceKind, RouteInterfaceView, RouteManager,
};
use crate::service::netlink::wiphy::{
    request_view, wiphy_device_views, wiphy_devices_of, wiphy_interface_views,
    wiphy_interfaces_of, WiphyDevice, WiphyDeviceView, WiphyInterface, WiphyInterfaceView,
    WiphyManager, WiphyRecord,
};
use crate::service::netlink::{
    ModeStatusView, NetlinkError, NetlinkInterface, NetlinkInterfaceMode,
    NetlinkInterfaceModeStatus, NetlinkInterfaceView,
};
use rtnetlink::packet_route::link::LinkMessage;
use vstd::prelude::*;
use wl_nl80211::Nl80211Attr;

verus! {

/// The values of a run of interfaces.
pub open spec fn interface_views(interfaces: Seq<NetlinkInterface>) -> Seq<NetlinkInterfaceView> {
    interfaces.map_values(|interface: NetlinkInterface| interface@)
}

/// Where the interface of a name stands in a run of interfaces: the first
/// place that holds the name.
pub open spec fn position_of_name(interfaces: Seq<NetlinkInterfaceView>, name: Seq<char>) -> Option<
    int,
>
    decreases interfaces.len(),
{
    if interfaces.len() == 0 {
        None
    } else {
        match position_of_name(interfaces.drop_last(), name) {
            Some(i) => Some(i),
            None => if interfaces.last().name == name {
                Some(interfaces.len() - 1)
            } else {
                None
            },
        }
    }
}

/// No name stands twice.
pub open spec fn distinct_names(interfaces: Seq<NetlinkInterfaceView>) -> bool {
    forall|i: int, j: int|
        0 <= i < j < interfaces.len() ==> interfaces[i].name != interfaces[j].name
}

/// The place of a name is a place that holds it, and no place before it
/// does; a name without a place stands nowhere.
pub proof fn lemma_position_of_name(interfaces: Seq<NetlinkInterfaceView>, name: Seq<char>)
    ensures
        match position_of_name(interfaces, name) {
            Some(i) => 0 <= i < interfaces.len() && interfaces[i].name == name && forall|k: int|
                0 <= k < i ==> interfaces[k].name != name,
            None => forall|k: int| 0 <= k < interfaces.len() ==> interfaces[k].name != name,
        },
    decreases interfaces.len(),
{
    if interfaces.len() > 0 {
        lemma_position_of_name(interfaces.drop_last(), name);
        match position_of_name(interfaces.drop_last(), name) {
            Some(i) => {
                assert(interfaces[i] == interfaces.drop_last()[i]);
                assert forall|k: int| 0 <= k < i implies interfaces[k].name != name by {
                    assert(interfaces[k] == interfaces.drop_last()[k]);
                }
            },
            None => {
                assert forall|k: int| 0 <= k < interfaces.len() - 1 implies interfaces[k].name
                    != name by {
                    assert(interfaces[k] == interfaces.drop_last()[k]);
                }
            },
        }
    }
}

/// The modes that the radio of an index supports, by the last radio of
/// that index in the run; `None` where the run holds no such radio.
pub open spec fn supported_modes(devices: Seq<WiphyDeviceView>, phy_index: u32) -> Option<
    Seq<NetlinkInterfaceMode>,
>
    decreases devices.len(),
{
    if devices.len() == 0 {
        None
    } else if devices.last().phy_index == phy_index {
        Some(devices.last().supported_iftypes)
    } else {
        supported_modes(devices.drop_last(), phy_index)
    }
}

/// The entry that a wireless interface gets in the merged view: of the
/// wireless kind, in its active mode, with the modes of its radio, or
/// with none where the radio is not known. Its operational state is
/// unknown until the generic link view brings it.
pub open spec fn wireless_entry(
    interface: WiphyInterfaceView,
    devices: Seq<WiphyDeviceView>,
) -> NetlinkInterfaceView {
    NetlinkInterfaceView {
        index: interface.index,
        name: interface.name,
        kind: RouteInterfaceKind::Wireless,
        oper_state: OperState::Unknown,
        mode_status: Some(
            ModeStatusView {
                active: interface.iftype,
                supported: match supported_modes(devices, interface.phy_index) {
                    Some(modes) => modes,
                    None => Seq::empty(),
                },
            },
        ),
    }
}

/// The entry that an interface of the generic link view gets where the
/// wireless view does not know it.
pub open spec fn route_entry(interface: RouteInterfaceView) -> NetlinkInterfaceView {
    NetlinkInterfaceView {
        index: interface.index,
        name: interface.name,
        kind: interface.kind,
        oper_state: interface.oper_state,
        mode_status: None,
    }
}

/// An entry with its operational state replaced, and nothing else.
pub open spec fn with_oper_state(
    entry: NetlinkInterfaceView,
    oper_state: OperState,
) -> NetlinkInterfaceView {
    NetlinkInterfaceView {
        index: entry.index,
        name: entry.name,
        kind: entry.kind,
        oper_state,
        mode_status: entry.mode_status,
    }
}

/// The merged view after one more wireless interface: its entry takes
/// the place of an entry of the same name, or comes last.
pub open spec fn enter_wireless(
    merged: Seq<NetlinkInterfaceView>,
    interface: WiphyInterfaceView,
    devices: Seq<WiphyDeviceView>,
) -> Seq<NetlinkInterfaceView> {
    match position_of_name(merged, interface.name) {
        Some(i) => merged.update(i, wireless_entry(interface, devices)),
        None => merged.push(wireless_entry(interface, devices)),
    }
}

/// The merged view after one more interface of the generic link view:
/// an entry of the same name takes its operational state and keeps the
/// rest; an interface without such an entry gets one, which comes last.
pub open spec fn enter_route(
    merged: Seq<NetlinkInterfaceView>,
    interface: RouteInterfaceView,
) -> Seq<NetlinkInterfaceView> {
    match position_of_name(merged, interface.name) {
        Some(i) => merged.update(i, with_oper_state(merged[i], interface.oper_state)),
        None => merged.push(route_entry(interface)),
    }
}

/// The merged view of the wireless interfaces alone.
pub open spec fn wireless_pass(
    interfaces: Seq<WiphyInterfaceView>,
    devices: Seq<WiphyDeviceView>,
) -> Seq<NetlinkInterfaceView>
    decreases interfaces.len(),
{
    if interfaces.len() == 0 {
        Seq::empty()
    } else {
        enter_wireless(wireless_pass(interfaces.drop_last(), devices), interfaces.last(), devices)
    }
}

/// A merged view after the interfaces of the generic link view have been
/// entered into it in turn.
pub open spec fn route_pass(
    merged: Seq<NetlinkInterfaceView>,
    interfaces: Seq<RouteInterfaceView>,
) -> Seq<NetlinkInterfaceView>
    decreases interfaces.len(),
{
    if interfaces.len() == 0 {
        merged
    } else {
        enter_route(route_pass(merged, interfaces.drop_last()), interfaces.last())
    }
}

/// The merged view of one snapshot: the wireless interfaces first, then
/// the interfaces of the generic link view.
pub open spec fn merged_interfaces(
    devices: Seq<WiphyDeviceView>,
    wiphy_interfaces: Seq<WiphyInterfaceView>,
    route_interfaces: Seq<RouteInterfaceView>,
) -> Seq<NetlinkInterfaceView> {
    route_pass(wireless_pass(wiphy_interfaces, devices), route_interfaces)
}

fn find_name(interfaces: &Vec<NetlinkInterface>, name: &String) -> (found: Option<usize>)
    ensures
        found matches Some(i) ==> i < interfaces@.len() && position_of_name(
            interface_views(interfaces@),
            name@,
        ) == Some(i as int),
        found is None ==> position_of_name(interface_views(interfaces@), name@) is None,
{
    let mut i: usize = 0;
    while i < interfaces.len()
        invariant
            i <= interfaces.len(),
            forall|k: int| 0 <= k < i ==> interface_views(interfaces@)[k].name != name@,
        decreases interfaces.len() - i,
    {
        assert(interface_views(interfaces@)[i as int] == interfaces@[i as int]@);
        if interfaces[i].name == *name {
            proof {
                lemma_position_of_name(interface_views(interfaces@), name@);
            }
            return Some(i);
        }
        i += 1;
    }
    proof {
        lemma_position_of_name(interface_views(interfaces@), name@);
    }
    None
}

fn lookup_supported(devices: &Vec<WiphyDevice>, phy_index: u32) -> (found: Option<
    Vec<NetlinkInterfaceMode>,
>)
    ensures
        found matches Some(modes) ==> supported_modes(wiphy_device_views(devices@), phy_index)
            == Some(modes@),
        found is None ==> supported_modes(wiphy_device_views(devices@), phy_index) is None,
{
    let ghost views = wiphy_device_views(devices@);
    let mut i: usize = devices.len();
    assert(views.take(i as int) =~= views);
    while i > 0
        invariant
            i <= devices.len(),
            views == wiphy_device_views(devices@),
            supported_modes(views, phy_index) == supported_modes(views.take(i as int), phy_index),
        decreases i,
    {
        proof {
            let prefix = views.take(i as int);
            assert(prefix.drop_last() =~= views.take(i - 1));
            assert(prefix.last() == devices@[i - 1]@);
        }
        i -= 1;
        if devices[i].phy_index == phy_index {
            return Some(devices[i].supported_iftypes.clone());
        }
    }
    None
}

/// The engine that joins the wireless side and the generic link side.
pub struct NetlinkService;

impl NetlinkService {
    /// Merges one snapshot of the two kernel views into one list of
    /// interfaces. The wireless interfaces are entered first, so an
    /// interface that the wireless view knows is of the wireless kind and
    /// carries its modes whatever the generic link view says of it; from
    /// that view it takes the operational state only. Every other
    /// interface of the generic link view is entered as that view shows
    /// it, without modes. The list holds each name once, in the order in
    /// which the names first came.
    pub fn merge(
        wiphy_devices: &Vec<WiphyDevice>,
        wiphy_interfaces: &Vec<WiphyInterface>,
        route_interfaces: &Vec<RouteInterface>,
    ) -> (interfaces: Vec<NetlinkInterface>)
        ensures
            interface_views(interfaces@) == merged_interfaces(
                wiphy_device_views(wiphy_devices@),
                wiphy_interface_views(wiphy_interfaces@),
                route_interface_views(route_interfaces@),
            ),
            distinct_names(interface_views(interfaces@)),
    {
        let ghost devices = wiphy_device_views(wiphy_devices@);
        let ghost wireless = wiphy_interface_views(wiphy_interfaces@);
        let ghost routes = route_interface_views(route_interfaces@);
        let mut interfaces: Vec<NetlinkInterface> = Vec::new();

        let mut i: usize = 0;
        assert(interface_views(interfaces@) =~= wireless_pass(wireless.take(0), devices));
        while i < wiphy_interfaces.len()
            invariant
                i <= wiphy_interfaces.len(),
                devices == wiphy_device_views(wiphy_devices@),
                wireless == wiphy_interface_views(wiphy_interfaces@),
                interface_views(interfaces@) == wireless_pass(wireless.take(i as int), devices),
            decreases wiphy_interfaces.len() - i,
        {
            proof {
                let next = wireless.take(i + 1);
                assert(next.drop_last() =~= wireless.take(i as int));
                assert(next.last() == wiphy_interfaces@[i as int]@);
            }
            let ghost before = interfaces@;
            let interface = &wiphy_interfaces[i];
            let supported = match lookup_supported(wiphy_devices, interface.phy_index) {
                Some(modes) => modes,
                None => Vec::new(),
            };
            let entry = NetlinkInterface {
                index: interface.index,
                name: interface.name.clone(),
                kind: RouteInterfaceKind::Wireless,
                oper_state: OperState::Unknown,
                mode_status: Some(
                    NetlinkInterfaceModeStatus { active: interface.iftype, supported },
                ),
            };
            assert(entry@ == wireless_entry(interface@, devices));
            match find_name(&interfaces, &interface.name) {
                Some(at) => {
                    interfaces.set(at, entry);
                    assert(interface_views(interfaces@) =~= interface_views(before).update(
                        at as int,
                        entry@,
                    ));
                },
                None => {
                    interfaces.push(entry);
                    assert(interface_views(interfaces@) =~= interface_views(before).push(entry@));
                },
            }
            i += 1;
        }
        assert(wireless.take(i as int) =~= wireless);

        let ghost wireless_only = interface_views(interfaces@);
        let mut j: usize = 0;
        assert(routes.take(0) =~= Seq::<RouteInterfaceView>::empty());
        while j < route_interfaces.len()
            invariant
                j <= route_interfaces.len(),
                routes == route_interface_views(route_interfaces@),
                interface_views(interfaces@) == route_pass(wireless_only, routes.take(j as int)),
            decreases route_interfaces.len() - j,
        {
            proof {
                let next = routes.take(j + 1);
                assert(next.drop_last() =~= routes.take(j as int));
                assert(next.last() == route_interfaces@[j as int]@);
            }
            let ghost before = interfaces@;
            let interface = &route_interfaces[j];
            match find_name(&interfaces, &interface.name) {
                Some(at) => {
                    assert(interface_views(before)[at as int] == before[at as int]@);
                    interfaces[at].oper_state = interface.oper_state;
                    assert(interface_views(interfaces@) =~= interface_views(before).update(
                        at as int,
                        with_oper_state(before[at as int]@, interface.oper_state),
                    ));
                },
                None => {
                    let entry = NetlinkInterface {
                        index: interface.index,
                        name: interface.name.clone(),
                        kind: interface.kind,
                        oper_state: interface.oper_state,
                        mode_status: None,
                    };
                    interfaces.push(entry);
                    assert(interface_views(interfaces@) =~= interface_views(before).push(
                        route_entry(interface@),
                    ));
                },
            }
            j += 1;
        }
        assert(routes.take(j as int) =~= routes);
        proof {
            lemma_merged_distinct(devices, wireless, routes);
        }
        interfaces
    }
}

/// Entering a wireless interface keeps the names distinct.
proof fn lemma_enter_wireless_distinct(
    merged: Seq<NetlinkInterfaceView>,
    interface: WiphyInterfaceView,
    devices: Seq<WiphyDeviceView>,
)
    requires
        distinct_names(merged),
    ensures
        distinct_names(enter_wireless(merged, interface, devices)),
{
    lemma_position_of_name(merged, interface.name);
}

/// Entering an interface of the generic link view keeps the names
/// distinct.
proof fn lemma_enter_route_distinct(
    merged: Seq<NetlinkInterfaceView>,
    interface: RouteInterfaceView,
)
    requires
        distinct_names(merged),
    ensures
        distinct_names(enter_route(merged, interface)),
{
    lemma_position_of_name(merged, interface.name);
}

/// The merged view of the wireless interfaces holds each name once.
proof fn lemma_wireless_pass_distinct(
    interfaces: Seq<WiphyInterfaceView>,
    devices: Seq<WiphyDeviceView>,
)
    ensures
        distinct_names(wireless_pass(interfaces, devices)),
    decreases interfaces.len(),
{
    if interfaces.len() > 0 {
        lemma_wireless_pass_distinct(interfaces.drop_last(), devices);
        lemma_enter_wireless_distinct(
            wireless_pass(interfaces.drop_last(), devices),
            interfaces.last(),
            devices,
        );
    }
}

/// Entering the interfaces of the generic link view keeps the names
/// distinct.
proof fn lemma_route_pass_distinct(
    merged: Seq<NetlinkInterfaceView>,
    interfaces: Seq<RouteInterfaceView>,
)
    requires
        distinct_names(merged),
    ensures
        distinct_names(route_pass(merged, interfaces)),
    decreases interfaces.len(),
{
    if interfaces.len() > 0 {
        lemma_route_pass_distinct(merged, interfaces.drop_last());
        lemma_enter_route_distinct(route_pass(merged, interfaces.drop_last()), interfaces.last());
    }
}

/// Every merged view holds each interface name once, whatever the two
/// kernel views reported.
pub proof fn lemma_merged_distinct(
    devices: Seq<WiphyDeviceView>,
    wiphy_interfaces: Seq<WiphyInterfaceView>,
    route_interfaces: Seq<RouteInterfaceView>,
)
    ensures
        distinct_names(merged_interfaces(devices, wiphy_interfaces, route_interfaces)),
{
    lemma_wireless_pass_distinct(wiphy_interfaces, devices);
    lemma_route_pass_distinct(wireless_pass(wiphy_interfaces, devices), route_interfaces);
}

/// Two entries agree in all but the operational state.
pub open spec fn same_identity(a: NetlinkInterfaceView, b: NetlinkInterfaceView) -> bool {
    &&& a.index == b.index
    &&& a.name == b.name
    &&& a.kind == b.kind
    &&& a.mode_status == b.mode_status
}

/// Every entry is of the wireless kind and carries its modes.
spec fn all_wireless(merged: Seq<NetlinkInterfaceView>) -> bool {
    forall|i: int|
        0 <= i < merged.len() ==> (#[trigger] merged[i]).kind is Wireless
            && merged[i].mode_status is Some
}

/// One view continues another: it is at least as long, and holds the
/// same names in the places of the other.
spec fn keeps_names(before: Seq<NetlinkInterfaceView>, after: Seq<NetlinkInterfaceView>) -> bool {
    &&& before.len() <= after.len()
    &&& forall|i: int| 0 <= i < before.len() ==> (#[trigger] after[i]).name == before[i].name
}

/// A name keeps its place in a view that continues the one it stands in.
proof fn lemma_position_stable(
    before: Seq<NetlinkInterfaceView>,
    after: Seq<NetlinkInterfaceView>,
    name: Seq<char>,
)
    requires
        keeps_names(before, after),
        position_of_name(before, name) is Some,
    ensures
        position_of_name(after, name) == position_of_name(before, name),
{
    lemma_position_of_name(before, name);
    lemma_position_of_name(after, name);
    let p = position_of_name(before, name)->0;
    assert(after[p].name == before[p].name);
    match position_of_name(after, name) {
        Some(q) => {
            if q < p {
                assert(after[q].name == before[q].name);
            }
        },
        None => {},
    }
}

/// Entering a wireless interface gives its name a place, keeps the names
/// that were there in their places, and leaves a view of wireless entries
/// one.
proof fn lemma_enter_wireless(
    merged: Seq<NetlinkInterfaceView>,
    interface: WiphyInterfaceView,
    devices: Seq<WiphyDeviceView>,
)
    ensures
        keeps_names(merged, enter_wireless(merged, interface, devices)),
        position_of_name(enter_wireless(merged, interface, devices), interface.name) is Some,
        all_wireless(merged) ==> all_wireless(enter_wireless(merged, interface, devices)),
{
    let after = enter_wireless(merged, interface, devices);
    lemma_position_of_name(merged, interface.name);
    lemma_position_of_name(after, interface.name);
    match position_of_name(merged, interface.name) {
        Some(i) => {
            assert(after[i].name == interface.name);
        },
        None => {
            assert(after[after.len() - 1].name == interface.name);
        },
    }
}

/// In the merged view of the wireless interfaces alone, every entry is of
/// the wireless kind and carries its modes, and every wireless interface
/// has its name in it.
proof fn lemma_wireless_pass(
    interfaces: Seq<WiphyInterfaceView>,
    devices: Seq<WiphyDeviceView>,
)
    ensures
        all_wireless(wireless_pass(interfaces, devices)),
        forall|k: int|
            0 <= k < interfaces.len() ==> position_of_name(
                wireless_pass(interfaces, devices),
                (#[trigger] interfaces[k]).name,
            ) is Some,
    decreases interfaces.len(),
{
    if interfaces.len() > 0 {
        let earlier = wireless_pass(interfaces.drop_last(), devices);
        let after = wireless_pass(interfaces, devices);
        lemma_wireless_pass(interfaces.drop_last(), devices);
        lemma_enter_wireless(earlier, interfaces.last(), devices);
        assert forall|k: int| 0 <= k < interfaces.len() implies position_of_name(
            after,
            (#[trigger] interfaces[k]).name,
        ) is Some by {
            if k < interfaces.len() - 1 {
                assert(interfaces.drop_last()[k] == interfaces[k]);
                lemma_position_stable(earlier, after, interfaces[k].name);
            }
        }
    }
}

/// Entering an interface of the generic link view changes no entry but
/// in its operational state.
proof fn lemma_enter_route_keeps_identity(
    merged: Seq<NetlinkInterfaceView>,
    interface: RouteInterfaceView,
)
    ensures
        merged.len() <= enter_route(merged, interface).len(),
        forall|i: int|
            0 <= i < merged.len() ==> same_identity(
                #[trigger] enter_route(merged, interface)[i],
                merged[i],
            ),
{
    lemma_position_of_name(merged, interface.name);
}

/// The generic link pass never overwrites what identifies an entry: each
/// entry that was there before the pass keeps its place, index, name,
/// kind and modes.
pub proof fn lemma_route_pass_keeps_identity(
    merged: Seq<NetlinkInterfaceView>,
    interfaces: Seq<RouteInterfaceView>,
)
    ensures
        merged.len() <= route_pass(merged, interfaces).len(),
        forall|i: int|
            0 <= i < merged.len() ==> same_identity(
                #[trigger] route_pass(merged, interfaces)[i],
                merged[i],
            ),
    decreases interfaces.len(),
{
    if interfaces.len() > 0 {
        let earlier = route_pass(merged, interfaces.drop_last());
        lemma_route_pass_keeps_identity(merged, interfaces.drop_last());
        lemma_enter_route_keeps_identity(earlier, interfaces.last());
        assert forall|i: int| 0 <= i < merged.len() implies same_identity(
            #[trigger] route_pass(merged, interfaces)[i],
            merged[i],
        ) by {
            assert(same_identity(enter_route(earlier, interfaces.last())[i], earlier[i]));
            assert(same_identity(earlier[i], merged[i]));
        }
    }
}

/// After a wireless interface has been entered, its entry stands at the
/// place of its name.
proof fn lemma_enter_wireless_entry(
    merged: Seq<NetlinkInterfaceView>,
    interface: WiphyInterfaceView,
    devices: Seq<WiphyDeviceView>,
)
    ensures
        ({
            let after = enter_wireless(merged, interface, devices);
            &&& position_of_name(after, interface.name) matches Some(at)
            &&& 0 <= at < after.len()
            &&& after[at] == wireless_entry(interface, devices)
        }),
{
    let after = enter_wireless(merged, interface, devices);
    lemma_position_of_name(merged, interface.name);
    lemma_position_of_name(after, interface.name);
    match position_of_name(merged, interface.name) {
        Some(i) => {
            assert(after[i].name == interface.name);
            match position_of_name(after, interface.name) {
                Some(q) => {
                    if q < i {
                        assert(after[q] == merged[q]);
                    }
                },
                None => {},
            }
        },
        None => {
            let last = after.len() - 1;
            assert(after[last].name == interface.name);
            match position_of_name(after, interface.name) {
                Some(q) => {
                    if q < last {
                        assert(after[q] == merged[q]);
                    }
                },
                None => {},
            }
        },
    }
}

/// Entering a wireless interface of another name leaves an entry as it
/// is, at its place.
proof fn lemma_enter_wireless_other(
    merged: Seq<NetlinkInterfaceView>,
    interface: WiphyInterfaceView,
    devices: Seq<WiphyDeviceView>,
    name: Seq<char>,
)
    requires
        name != interface.name,
        position_of_name(merged, name) is Some,
    ensures
        ({
            let after = enter_wireless(merged, interface, devices);
            let at = position_of_name(merged, name)->0;
            &&& position_of_name(after, name) == Some(at)
            &&& 0 <= at < merged.len()
            &&& at < after.len()
            &&& after[at] == merged[at]
        }),
{
    lemma_enter_wireless(merged, interface, devices);
    lemma_position_stable(merged, enter_wireless(merged, interface, devices), name);
    lemma_position_of_name(merged, name);
    lemma_position_of_name(merged, interface.name);
}

/// In the merged view of the wireless interfaces alone, the entry of a
/// name is that of the last wireless interface of the name.
proof fn lemma_wireless_pass_entry(
    interfaces: Seq<WiphyInterfaceView>,
    devices: Seq<WiphyDeviceView>,
    k: int,
)
    requires
        0 <= k < interfaces.len(),
        forall|j: int| k < j < interfaces.len() ==> interfaces[j].name != interfaces[k].name,
    ensures
        ({
            let merged = wireless_pass(interfaces, devices);
            &&& position_of_name(merged, interfaces[k].name) matches Some(at)
            &&& 0 <= at < merged.len()
            &&& merged[at] == wireless_entry(interfaces[k], devices)
        }),
    decreases interfaces.len(),
{
    let earlier = wireless_pass(interfaces.drop_last(), devices);
    if k == interfaces.len() - 1 {
        lemma_enter_wireless_entry(earlier, interfaces.last(), devices);
    } else {
        assert(interfaces.drop_last()[k] == interfaces[k]);
        let shorter = interfaces.drop_last();
        assert forall|j: int| k < j < shorter.len() implies shorter[j].name != shorter[k].name by {
            assert(shorter[j] == interfaces[j]);
        }
        lemma_wireless_pass_entry(interfaces.drop_last(), devices, k);
        assert(interfaces[interfaces.len() - 1].name != interfaces[k].name);
        lemma_enter_wireless_other(earlier, interfaces.last(), devices, interfaces[k].name);
    }
}

/// The wireless view settles what a wireless interface is: in the merged
/// view, the entry of its name has the index, the active mode and the
/// supported modes of the last wireless interface of that name, the
/// supported modes being those of its radio, or none where the radio is
/// not known. The generic link view changes none of this.
pub proof fn lemma_wireless_report_stands(
    devices: Seq<WiphyDeviceView>,
    wiphy_interfaces: Seq<WiphyInterfaceView>,
    route_interfaces: Seq<RouteInterfaceView>,
    k: int,
)
    requires
        0 <= k < wiphy_interfaces.len(),
        forall|j: int|
            k < j < wiphy_interfaces.len() ==> wiphy_interfaces[j].name
                != wiphy_interfaces[k].name,
    ensures
        ({
            let merged = merged_interfaces(devices, wiphy_interfaces, route_interfaces);
            &&& position_of_name(merged, wiphy_interfaces[k].name) matches Some(at)
            &&& 0 <= at < merged.len()
            &&& same_identity(merged[at], wireless_entry(wiphy_interfaces[k], devices))
        }),
{
    let wireless = wireless_pass(wiphy_interfaces, devices);
    let merged = merged_interfaces(devices, wiphy_interfaces, route_interfaces);
    let name = wiphy_interfaces[k].name;
    lemma_wireless_pass_entry(wiphy_interfaces, devices, k);
    lemma_route_pass_keeps_identity(wireless, route_interfaces);
    assert(keeps_names(wireless, merged)) by {
        assert forall|i: int| 0 <= i < wireless.len() implies (#[trigger] merged[i]).name
            == wireless[i].name by {
            assert(same_identity(merged[i], wireless[i]));
        }
    }
    lemma_position_stable(wireless, merged, name);
    let at = position_of_name(wireless, name)->0;
    assert(same_identity(merged[at], wireless[at]));
}

/// Wireless identity wins: an interface that the wireless view reports
/// stands in the merged view under its name, of the wireless kind and
/// with its modes, whatever the generic link view reports.
pub proof fn lemma_wireless_identity_wins(
    devices: Seq<WiphyDeviceView>,
    wiphy_interfaces: Seq<WiphyInterfaceView>,
    route_interfaces: Seq<RouteInterfaceView>,
    k: int,
)
    requires
        0 <= k < wiphy_interfaces.len(),
    ensures
        ({
            let merged = merged_interfaces(devices, wiphy_interfaces, route_interfaces);
            &&& position_of_name(merged, wiphy_interfaces[k].name) matches Some(at)
            &&& 0 <= at < merged.len()
            &&& merged[at].name == wiphy_interfaces[k].name
            &&& merged[at].kind is Wireless
            &&& merged[at].mode_status is Some
        }),
{
    let wireless = wireless_pass(wiphy_interfaces, devices);
    let merged = merged_interfaces(devices, wiphy_interfaces, route_interfaces);
    let name = wiphy_interfaces[k].name;
    lemma_wireless_pass(wiphy_interfaces, devices);
    lemma_route_pass_keeps_identity(wireless, route_interfaces);
    assert(keeps_names(wireless, merged)) by {
        assert forall|i: int| 0 <= i < wireless.len() implies (#[trigger] merged[i]).name
            == wireless[i].name by {
            assert(same_identity(merged[i], wireless[i]));
        }
    }
    lemma_position_stable(wireless, merged, name);
    lemma_position_of_name(wireless, name);
    let at = position_of_name(wireless, name)->0;
    assert(same_identity(merged[at], wireless[at]));
}

/// What the kernel reported in one round of enumerations: the records of
/// the radios, of the wireless interfaces and of the links.
#[derive(Clone, Debug, PartialEq, Eq)]
pub struct KernelSnapshot {
    pub wiphy_devices: Vec<WiphyRecord>,
    pub wiphy_interfaces: Vec<WiphyRecord>,
    pub links: Vec<LinkRecord>,
}

impl KernelSnapshot {
    /// The wireless interfaces that the snapshot shows.
    pub open spec fn wireless(self) -> Seq<WiphyInterfaceView> {
        wiphy_interfaces_of(self.wiphy_interfaces@)
    }

    /// The merged view of the snapshot.
    pub open spec fn interfaces(self) -> Seq<NetlinkInterfaceView> {
        merged_interfaces(
            wiphy_devices_of(self.wiphy_devices@),
            wiphy_interfaces_of(self.wiphy_interfaces@),
            interfaces_of(self.links@),
        )
    }

    /// The interface of a name in the merged view of the snapshot.
    pub open spec fn interface_named(self, name: Seq<char>) -> Option<NetlinkInterfaceView> {
        match position_of_name(self.interfaces(), name) {
            Some(i) => Some(self.interfaces()[i]),
            None => None,
        }
    }
}

/// Where the wireless interface of an index stands in a run of wireless
/// interfaces: the first place that holds the index.
pub open spec fn position_of_index(interfaces: Seq<WiphyInterfaceView>, index: u32) -> Option<int>
    decreases interfaces.len(),
{
    if interfaces.len() == 0 {
        None
    } else {
        match position_of_index(interfaces.drop_last(), index) {
            Some(i) => Some(i),
            None => if interfaces.last().index == index {
                Some(interfaces.len() - 1)
            } else {
                None
            },
        }
    }
}

/// The place of an index is a place that holds it, and no place before it
/// does; an index without a place stands nowhere.
proof fn lemma_position_of_index(interfaces: Seq<WiphyInterfaceView>, index: u32)
    ensures
        match position_of_index(interfaces, index) {
            Some(i) => 0 <= i < interfaces.len() && interfaces[i].index == index && forall|k: int|
                0 <= k < i ==> interfaces[k].index != index,
            None => forall|k: int| 0 <= k < interfaces.len() ==> interfaces[k].index != index,
        },
    decreases interfaces.len(),
{
    if interfaces.len() > 0 {
        lemma_position_of_index(interfaces.drop_last(), index);
        match position_of_index(interfaces.drop_last(), index) {
            Some(i) => {
                assert(interfaces[i] == interfaces.drop_last()[i]);
                assert forall|k: int| 0 <= k < i implies interfaces[k].index != index by {
                    assert(interfaces[k] == interfaces.drop_last()[k]);
                }
            },
            None => {
                assert forall|k: int| 0 <= k < interfaces.len() - 1 implies interfaces[k].index
                    != index by {
                    assert(interfaces[k] == interfaces.drop_last()[k]);
                }
            },
        }
    }
}

fn find_index(interfaces: &Vec<WiphyInterface>, index: u32) -> (found: Option<usize>)
    ensures
        found matches Some(i) ==> i < interfaces@.len() && interfaces@[i as int].index == index
            && position_of_index(wiphy_interface_views(interfaces@), index) == Some(i as int),
        found is None ==> position_of_index(wiphy_interface_views(interfaces@), index) is None,
{
    let mut i: usize = 0;
    while i < interfaces.len()
        invariant
            i <= interfaces.len(),
            forall|k: int| 0 <= k < i ==> wiphy_interface_views(interfaces@)[k].index != index,
        decreases interfaces.len() - i,
    {
        assert(wiphy_interface_views(interfaces@)[i as int] == interfaces@[i as int]@);
        if interfaces[i].index == index {
            proof {
                lemma_position_of_index(wiphy_interface_views(interfaces@), index);
            }
            return Some(i);
        }
        i += 1;
    }
    proof {
        lemma_position_of_index(wiphy_interface_views(interfaces@), index);
    }
    None
}

impl NetlinkService {
    /// The request that changes the mode of an interface of the merged
    /// view. The wireless side knows its interfaces by index, so the
    /// interface must stand in the wireless view under its index.
    pub open spec fn interface_mode_request(
        wireless: Seq<WiphyInterfaceView>,
        index: u32,
        mode: NetlinkInterfaceMode,
    ) -> Result<Seq<Nl80211Attr>, NetlinkError> {
        if !mode.spec_is_settable() {
            Err(NetlinkError::InvalidTarget)
        } else if position_of_index(wireless, index) is None {
            Err(NetlinkError::NotFound)
        } else {
            WiphyManager::mode_request(index, mode)
        }
    }

    /// Builds the merged view of a snapshot: both sides read their
    /// records, and the results are merged. The list holds each name
    /// once.
    pub fn get_interfaces(snapshot: &KernelSnapshot) -> (interfaces: Vec<NetlinkInterface>)
        ensures
            interface_views(interfaces@) == snapshot.interfaces(),
            distinct_names(interface_views(interfaces@)),
    {
        let wiphy_devices = WiphyManager::get_wiphy_devices(&snapshot.wiphy_devices);
        let wiphy_interfaces = WiphyManager::get_wiphy_interfaces(&snapshot.wiphy_interfaces);
        let route_interfaces = RouteManager::get_interfaces(&snapshot.links);
        NetlinkService::merge(&wiphy_devices, &wiphy_interfaces, &route_interfaces)
    }

    /// Builds the neighbour table from the neighbour records of one
    /// enumeration; the generic link side reads them.
    pub fn get_neighbor_mac_addresses(neighbours: &Vec<NeighbourRecord>) -> (table: NeighborTable)
        ensures
            table.wf(),
            table@ == neighbour_map(neighbours@),
    {
        RouteManager::get_neighbor_mac_addresses(neighbours)
    }

    /// Looks an interface up by name in the merged view of a snapshot.
    /// `NotFound` where the view holds no interface of that name.
    pub fn find_interface_by_name(snapshot: &KernelSnapshot, name: &str) -> (found: Result<
        NetlinkInterface,
        NetlinkError,
    >)
        ensures
            found matches Ok(interface) ==> snapshot.interface_named(name@) == Some(interface@),
            found matches Err(error) ==> error == NetlinkError::NotFound
                && snapshot.interface_named(name@) is None,
    {
        let mut interfaces = NetlinkService::get_interfaces(snapshot);
        let wanted = name.to_owned();
        match find_name(&interfaces, &wanted) {
            Some(at) => {
                assert(interface_views(interfaces@)[at as int] == interfaces@[at as int]@);
                Ok(interfaces.swap_remove(at))
            },
            None => Err(NetlinkError::NotFound),
        }
    }

    /// Prepares the request that sets an interface's link up or down; the
    /// generic link side builds it. Any other target is refused with
    /// `InvalidTarget`.
    pub fn set_interface_state(interface: &NetlinkInterface, state: OperState) -> (request: Result<
        LinkMessage,
        NetlinkError,
    >)
        ensures
            request == RouteManager::link_state_request(interface.index, state),
            request is Ok <==> state.spec_is_settable(),
    {
        let route_interface = RouteInterface {
            index: interface.index,
            name: interface.name.clone(),
            kind: interface.kind,
            oper_state: interface.oper_state,
        };
        RouteManager::set_link_oper_state(&route_interface, state)
    }

    /// Prepares the request that changes an interface's mode; the
    /// wireless side builds it, for the wireless interface that the
    /// snapshot shows under the interface's index. `OtherWireless` is
    /// refused with `InvalidTarget`; an interface that the wireless view
    /// does not show is refused with `NotFound`.
    pub fn set_interface_mode(
        snapshot: &KernelSnapshot,
        interface: &NetlinkInterface,
        mode: NetlinkInterfaceMode,
    ) -> (request: Result<Vec<Nl80211Attr>, NetlinkError>)
        ensures
            request_view(request) == NetlinkService::interface_mode_request(
                snapshot.wireless(),
                interface.index,
                mode,
            ),
    {
        if !mode.is_settable() {
            return Err(NetlinkError::InvalidTarget);
        }
        let wiphy_interfaces = WiphyManager::get_wiphy_interfaces(&snapshot.wiphy_interfaces);
        match find_index(&wiphy_interfaces, interface.index) {
            Some(at) => WiphyManager::set_wiphy_interface_mode(&wiphy_interfaces[at], mode),
            None => Err(NetlinkError::NotFound),
        }
    }
}

} // verus!
