use router_control::addr::{IpAddress, MacAddress};
use router_control::service::netlink::merge::NetlinkService;
use router_control::service::netlink::neighbor::{NeighborEntry, NeighborTable};
use router_control::service::netlink::route::{NeighbourAttr, NeighbourRecord, RouteManager};

const HOST_A: IpAddress = IpAddress::V4(0xC0A8_0102);
const HOST_B: IpAddress = IpAddress::V4(0xC0A8_0103);
const HOST_V6: IpAddress = IpAddress::V6(0xFE80_0000_0000_0000_0000_0000_0000_0001);

fn record(attributes: Vec<NeighbourAttr>) -> NeighbourRecord {
    NeighbourRecord { attributes }
}

#[test]
fn neighbour_without_link_layer_address_is_dropped() {
    let records = vec![record(vec![NeighbourAttr::Destination(HOST_A)])];
    let table = RouteManager::get_neighbor_mac_addresses(&records);
    assert_eq!(table.len(), 0);
    assert_eq!(table.get(&HOST_A), None);
}

#[test]
fn neighbour_without_destination_is_dropped() {
    let records = vec![record(vec![NeighbourAttr::LinkLocalAddress(vec![1, 2, 3, 4, 5, 6])])];
    let table = RouteManager::get_neighbor_mac_addresses(&records);
    assert_eq!(table.len(), 0);
}

#[test]
fn neighbour_with_unusable_link_layer_address_is_dropped() {
    let records = vec![record(vec![
        NeighbourAttr::Destination(HOST_A),
        NeighbourAttr::LinkLocalAddress(vec![1, 2, 3]),
    ])];
    let table = RouteManager::get_neighbor_mac_addresses(&records);
    assert_eq!(table.len(), 0);
    assert_eq!(table.get(&HOST_A), None);
}

#[test]
fn complete_neighbours_are_entered() {
    let records = vec![
        record(vec![
            NeighbourAttr::Destination(HOST_A),
            NeighbourAttr::Other,
            NeighbourAttr::LinkLocalAddress(vec![0xAC, 0xDE, 0x48, 0x23, 0x45, 0x67]),
        ]),
        record(vec![
            NeighbourAttr::LinkLocalAddress(vec![2, 0, 0, 0, 0, 1]),
            NeighbourAttr::Destination(HOST_V6),
        ]),
    ];
    let table = RouteManager::get_neighbor_mac_addresses(&records);
    assert_eq!(table.len(), 2);
    assert_eq!(
        table.get(&HOST_A),
        Some(MacAddress::V6([0xAC, 0xDE, 0x48, 0x23, 0x45, 0x67]))
    );
    assert_eq!(table.get(&HOST_V6), Some(MacAddress::V6([2, 0, 0, 0, 0, 1])));
    assert_eq!(table.get(&HOST_B), None);
}

#[test]
fn later_neighbour_of_an_address_wins() {
    let records = vec![
        record(vec![
            NeighbourAttr::Destination(HOST_A),
            NeighbourAttr::LinkLocalAddress(vec![1, 1, 1, 1, 1, 1]),
        ]),
        record(vec![
            NeighbourAttr::Destination(HOST_B),
            NeighbourAttr::LinkLocalAddress(vec![2, 2, 2, 2, 2, 2]),
        ]),
        record(vec![
            NeighbourAttr::Destination(HOST_A),
            NeighbourAttr::LinkLocalAddress(vec![3, 3, 3, 3, 3, 3]),
        ]),
    ];
    let table = RouteManager::get_neighbor_mac_addresses(&records);
    assert_eq!(table.len(), 2);
    assert_eq!(table.get(&HOST_A), Some(MacAddress::V6([3, 3, 3, 3, 3, 3])));
    assert_eq!(table.get(&HOST_B), Some(MacAddress::V6([2, 2, 2, 2, 2, 2])));
    assert_eq!(
        table.entries(),
        vec![
            NeighborEntry { ip_address: HOST_A, mac_address: MacAddress::V6([3, 3, 3, 3, 3, 3]) },
            NeighborEntry { ip_address: HOST_B, mac_address: MacAddress::V6([2, 2, 2, 2, 2, 2]) },
        ]
    );
}

#[test]
fn later_attribute_of_a_neighbour_wins() {
    let entry = record(vec![
        NeighbourAttr::Destination(HOST_A),
        NeighbourAttr::LinkLocalAddress(vec![1, 1, 1, 1, 1, 1]),
        NeighbourAttr::Destination(HOST_B),
        NeighbourAttr::LinkLocalAddress(vec![1, 2, 3, 4, 5, 6, 7, 8]),
    ])
    .to_entry();
    assert_eq!(
        entry,
        Some(NeighborEntry {
            ip_address: HOST_B,
            mac_address: MacAddress::V8([1, 2, 3, 4, 5, 6, 7, 8]),
        })
    );
}

#[test]
fn unusable_later_link_layer_address_voids_the_neighbour() {
    let entry = record(vec![
        NeighbourAttr::Destination(HOST_A),
        NeighbourAttr::LinkLocalAddress(vec![1, 1, 1, 1, 1, 1]),
        NeighbourAttr::LinkLocalAddress(vec![]),
    ])
    .to_entry();
    assert_eq!(entry, None);
}

#[test]
fn pair_needs_both_addresses() {
    let mac = MacAddress::V6([1, 2, 3, 4, 5, 6]);
    assert_eq!(NeighborEntry::pair(None, None), None);
    assert_eq!(NeighborEntry::pair(Some(HOST_A), None), None);
    assert_eq!(NeighborEntry::pair(None, Some(mac)), None);
    assert_eq!(
        NeighborEntry::pair(Some(HOST_A), Some(mac)),
        Some(NeighborEntry { ip_address: HOST_A, mac_address: mac })
    );
}

#[test]
fn table_insert_replaces_and_get_finds() {
    let mut table = NeighborTable::new();
    assert_eq!(table.len(), 0);
    table.insert(HOST_A, MacAddress::V6([1, 1, 1, 1, 1, 1]));
    table.insert(HOST_B, MacAddress::V6([2, 2, 2, 2, 2, 2]));
    table.insert(HOST_A, MacAddress::V6([9, 9, 9, 9, 9, 9]));
    assert_eq!(table.len(), 2);
    assert_eq!(table.get(&HOST_A), Some(MacAddress::V6([9, 9, 9, 9, 9, 9])));
    assert_eq!(table.get(&HOST_B), Some(MacAddress::V6([2, 2, 2, 2, 2, 2])));
    assert_eq!(table.get(&HOST_V6), None);
}

#[test]
fn version_4_and_version_6_addresses_are_kept_apart() {
    let mut table = NeighborTable::new();
    table.insert(IpAddress::V4(1), MacAddress::V6([4, 4, 4, 4, 4, 4]));
    table.insert(IpAddress::V6(1), MacAddress::V6([6, 6, 6, 6, 6, 6]));
    assert_eq!(table.len(), 2);
    assert_eq!(table.get(&IpAddress::V4(1)), Some(MacAddress::V6([4, 4, 4, 4, 4, 4])));
    assert_eq!(table.get(&IpAddress::V6(1)), Some(MacAddress::V6([6, 6, 6, 6, 6, 6])));
}

#[test]
fn service_reads_neighbours_as_the_link_side_does() {
    let records = vec![record(vec![
        NeighbourAttr::Destination(HOST_A),
        NeighbourAttr::LinkLocalAddress(vec![1, 2, 3, 4, 5, 6]),
    ])];
    let table = NetlinkService::get_neighbor_mac_addresses(&records);
    assert_eq!(table.get(&HOST_A), Some(MacAddress::V6([1, 2, 3, 4, 5, 6])));
}
