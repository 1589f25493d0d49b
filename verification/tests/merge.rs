use router_control::service::netlink::merge::{KernelSnapshot, NetlinkService};
use router_control::service::netlink::route::{
    LinkAttr, LinkRecord, OperState, RouteInterface, RouteInterfaceKind,
};
use router_control::service::netlink::wiphy::{
    WiphyAttr, WiphyDevice, WiphyInterface, WiphyRecord,
};
use router_control::service::netlink::{
    LinkFlagsStruct, NetlinkError, NetlinkInterface, NetlinkInterfaceMode,
    NetlinkInterfaceModeStatus,
};

fn route(
    index: u32,
    name: &str,
    kind: RouteInterfaceKind,
    oper_state: OperState,
) -> RouteInterface {
    RouteInterface { index, name: name.to_string(), kind, oper_state }
}

fn wireless(
    index: u32,
    phy_index: u32,
    name: &str,
    iftype: NetlinkInterfaceMode,
) -> WiphyInterface {
    WiphyInterface { index, phy_index, name: name.to_string(), iftype }
}

fn radio(phy_index: u32, supported_iftypes: Vec<NetlinkInterfaceMode>) -> WiphyDevice {
    WiphyDevice { phy_index, phy_name: format!("phy{}", phy_index), supported_iftypes }
}

fn names(interfaces: &[NetlinkInterface]) -> Vec<String> {
    interfaces.iter().map(|interface| interface.name.clone()).collect()
}

fn snapshot() -> KernelSnapshot {
    KernelSnapshot {
        wiphy_devices: vec![WiphyRecord {
            attributes: vec![
                WiphyAttr::Wiphy(0),
                WiphyAttr::WiphyName("phy0".to_string()),
                WiphyAttr::SupportedIftypes(vec![2, 6, 3]),
            ],
        }],
        wiphy_interfaces: vec![WiphyRecord {
            attributes: vec![
                WiphyAttr::IfIndex(3),
                WiphyAttr::Wiphy(0),
                WiphyAttr::IfName("wlan0".to_string()),
                WiphyAttr::IfType(2),
            ],
        }],
        links: vec![
            LinkRecord {
                index: 1,
                link_layer_type: 772,
                attributes: vec![LinkAttr::IfName("lo".to_string()), LinkAttr::OperState(0)],
            },
            LinkRecord {
                index: 2,
                link_layer_type: 1,
                attributes: vec![LinkAttr::IfName("eth0".to_string()), LinkAttr::OperState(6)],
            },
            LinkRecord {
                index: 3,
                link_layer_type: 1,
                attributes: vec![LinkAttr::IfName("wlan0".to_string()), LinkAttr::OperState(2)],
            },
        ],
    }
}

#[test]
fn ethernet_alone_gives_one_ethernet_interface() {
    let merged = NetlinkService::merge(
        &vec![],
        &vec![],
        &vec![route(2, "eth0", RouteInterfaceKind::Ethernet, OperState::Up)],
    );
    assert_eq!(
        merged,
        vec![NetlinkInterface {
            index: 2,
            name: "eth0".to_string(),
            kind: RouteInterfaceKind::Ethernet,
            oper_state: OperState::Up,
            mode_status: None,
        }]
    );
}

#[test]
fn ethernet_alone_from_kernel_records() {
    let snapshot = KernelSnapshot {
        wiphy_devices: vec![],
        wiphy_interfaces: vec![],
        links: vec![LinkRecord {
            index: 2,
            link_layer_type: 1,
            attributes: vec![LinkAttr::IfName("eth0".to_string()), LinkAttr::OperState(6)],
        }],
    };
    let merged = NetlinkService::get_interfaces(&snapshot);
    assert_eq!(merged.len(), 1);
    assert_eq!(merged[0].name, "eth0");
    assert_eq!(merged[0].kind, RouteInterfaceKind::Ethernet);
    assert_eq!(merged[0].oper_state, OperState::Up);
    assert_eq!(merged[0].mode_status, None);
}

#[test]
fn wireless_interface_is_complemented_by_the_link_view() {
    let merged = NetlinkService::merge(
        &vec![radio(
            0,
            vec![
                NetlinkInterfaceMode::Station,
                NetlinkInterfaceMode::Monitor,
                NetlinkInterfaceMode::AccessPoint,
            ],
        )],
        &vec![wireless(3, 0, "wlan0", NetlinkInterfaceMode::Station)],
        &vec![route(3, "wlan0", RouteInterfaceKind::Wireless, OperState::Down)],
    );
    assert_eq!(
        merged,
        vec![NetlinkInterface {
            index: 3,
            name: "wlan0".to_string(),
            kind: RouteInterfaceKind::Wireless,
            oper_state: OperState::Down,
            mode_status: Some(NetlinkInterfaceModeStatus {
                active: NetlinkInterfaceMode::Station,
                supported: vec![
                    NetlinkInterfaceMode::Station,
                    NetlinkInterfaceMode::Monitor,
                    NetlinkInterfaceMode::AccessPoint,
                ],
            }),
        }]
    );
}

#[test]
fn wireless_identity_wins_over_the_link_view() {
    let merged = NetlinkService::merge(
        &vec![radio(0, vec![NetlinkInterfaceMode::Station])],
        &vec![wireless(3, 0, "wlan0", NetlinkInterfaceMode::Monitor)],
        &vec![route(9, "wlan0", RouteInterfaceKind::Ethernet, OperState::Up)],
    );
    assert_eq!(merged.len(), 1);
    assert_eq!(merged[0].index, 3);
    assert_eq!(merged[0].kind, RouteInterfaceKind::Wireless);
    assert_eq!(merged[0].oper_state, OperState::Up);
    assert_eq!(
        merged[0].mode_status,
        Some(NetlinkInterfaceModeStatus {
            active: NetlinkInterfaceMode::Monitor,
            supported: vec![NetlinkInterfaceMode::Station],
        })
    );
}

#[test]
fn wireless_interface_without_link_record_has_unknown_state() {
    let merged = NetlinkService::merge(
        &vec![radio(0, vec![NetlinkInterfaceMode::Station])],
        &vec![wireless(3, 0, "wlan0", NetlinkInterfaceMode::Station)],
        &vec![],
    );
    assert_eq!(merged.len(), 1);
    assert_eq!(merged[0].oper_state, OperState::Unknown);
    assert_eq!(merged[0].kind, RouteInterfaceKind::Wireless);
}

#[test]
fn unknown_radio_gives_no_supported_modes() {
    let merged = NetlinkService::merge(
        &vec![radio(1, vec![NetlinkInterfaceMode::Station])],
        &vec![wireless(3, 0, "wlan0", NetlinkInterfaceMode::Station)],
        &vec![],
    );
    assert_eq!(
        merged[0].mode_status,
        Some(NetlinkInterfaceModeStatus {
            active: NetlinkInterfaceMode::Station,
            supported: vec![],
        })
    );
}

#[test]
fn two_interfaces_share_one_radio() {
    let merged = NetlinkService::merge(
        &vec![radio(0, vec![NetlinkInterfaceMode::Station, NetlinkInterfaceMode::Monitor])],
        &vec![
            wireless(3, 0, "wlan0", NetlinkInterfaceMode::Station),
            wireless(4, 0, "mon0", NetlinkInterfaceMode::Monitor),
        ],
        &vec![],
    );
    assert_eq!(names(&merged), vec!["wlan0".to_string(), "mon0".to_string()]);
    let supported = vec![NetlinkInterfaceMode::Station, NetlinkInterfaceMode::Monitor];
    assert_eq!(merged[0].mode_status.as_ref().unwrap().supported, supported);
    assert_eq!(merged[1].mode_status.as_ref().unwrap().supported, supported);
    assert_eq!(merged[1].mode_status.as_ref().unwrap().active, NetlinkInterfaceMode::Monitor);
}

#[test]
fn last_radio_of_an_index_gives_the_modes() {
    let merged = NetlinkService::merge(
        &vec![
            radio(0, vec![NetlinkInterfaceMode::Station]),
            radio(0, vec![NetlinkInterfaceMode::AccessPoint]),
        ],
        &vec![wireless(3, 0, "wlan0", NetlinkInterfaceMode::Station)],
        &vec![],
    );
    assert_eq!(
        merged[0].mode_status.as_ref().unwrap().supported,
        vec![NetlinkInterfaceMode::AccessPoint]
    );
}

#[test]
fn every_name_stands_once() {
    let merged = NetlinkService::merge(
        &vec![radio(0, vec![NetlinkInterfaceMode::Station])],
        &vec![
            wireless(3, 0, "wlan0", NetlinkInterfaceMode::Station),
            wireless(4, 0, "wlan1", NetlinkInterfaceMode::Station),
            wireless(5, 0, "wlan0", NetlinkInterfaceMode::Monitor),
        ],
        &vec![
            route(2, "eth0", RouteInterfaceKind::Ethernet, OperState::Up),
            route(3, "wlan0", RouteInterfaceKind::Wireless, OperState::Down),
            route(7, "eth0", RouteInterfaceKind::Loopback, OperState::Down),
            route(1, "lo", RouteInterfaceKind::Loopback, OperState::Other(0)),
        ],
    );
    assert_eq!(
        names(&merged),
        vec!["wlan0".to_string(), "wlan1".to_string(), "eth0".to_string(), "lo".to_string()]
    );
    assert_eq!(merged[0].index, 5);
    assert_eq!(merged[0].mode_status.as_ref().unwrap().active, NetlinkInterfaceMode::Monitor);
    assert_eq!(merged[0].oper_state, OperState::Down);
    assert_eq!(merged[2].index, 2);
    assert_eq!(merged[2].kind, RouteInterfaceKind::Ethernet);
    assert_eq!(merged[2].oper_state, OperState::Down);
}

#[test]
fn nothing_reported_nothing_merged() {
    assert!(NetlinkService::merge(&vec![], &vec![], &vec![]).is_empty());
}

#[test]
fn snapshot_is_read_and_merged() {
    let merged = NetlinkService::get_interfaces(&snapshot());
    assert_eq!(
        names(&merged),
        vec!["wlan0".to_string(), "lo".to_string(), "eth0".to_string()]
    );
    assert_eq!(merged[0].kind, RouteInterfaceKind::Wireless);
    assert_eq!(merged[0].oper_state, OperState::Down);
    assert_eq!(merged[1].kind, RouteInterfaceKind::Loopback);
    assert_eq!(merged[2].oper_state, OperState::Up);
}

#[test]
fn absent_name_is_not_found() {
    assert_eq!(
        NetlinkService::find_interface_by_name(&snapshot(), "wlan9"),
        Err(NetlinkError::NotFound)
    );
    let empty = KernelSnapshot { wiphy_devices: vec![], wiphy_interfaces: vec![], links: vec![] };
    assert_eq!(
        NetlinkService::find_interface_by_name(&empty, "eth0"),
        Err(NetlinkError::NotFound)
    );
    assert_eq!(NetlinkService::find_interface_by_name(&empty, ""), Err(NetlinkError::NotFound));
}

#[test]
fn present_name_is_found() {
    let found = NetlinkService::find_interface_by_name(&snapshot(), "eth0").unwrap();
    assert_eq!(
        found,
        NetlinkInterface {
            index: 2,
            name: "eth0".to_string(),
            kind: RouteInterfaceKind::Ethernet,
            oper_state: OperState::Up,
            mode_status: None,
        }
    );
    let wlan = NetlinkService::find_interface_by_name(&snapshot(), "wlan0").unwrap();
    assert_eq!(wlan.index, 3);
    assert_eq!(wlan.mode_status.unwrap().active, NetlinkInterfaceMode::Station);
}

#[test]
fn state_and_flags_follow_the_oper_state() {
    let mut interface = NetlinkService::find_interface_by_name(&snapshot(), "eth0").unwrap();
    assert_eq!(interface.state(), OperState::Up);
    assert_eq!(interface.link_flags(), LinkFlagsStruct { is_up: true });
    interface.oper_state = OperState::Down;
    assert_eq!(interface.state(), OperState::Down);
    assert_eq!(interface.link_flags(), LinkFlagsStruct { is_up: false });
    interface.oper_state = OperState::Other(6);
    assert_eq!(interface.link_flags(), LinkFlagsStruct { is_up: false });
}

#[test]
fn merged_interface_turns_into_a_route_interface() {
    let interface = NetlinkService::find_interface_by_name(&snapshot(), "wlan0").unwrap();
    assert_eq!(
        RouteInterface::from(interface),
        route(3, "wlan0", RouteInterfaceKind::Wireless, OperState::Down)
    );
}

#[test]
fn service_state_request_goes_by_index() {
    let interface = NetlinkService::find_interface_by_name(&snapshot(), "eth0").unwrap();
    let message = NetlinkService::set_interface_state(&interface, OperState::Down).unwrap();
    assert_eq!(message.header.index, 2);
    assert_eq!(
        NetlinkService::set_interface_state(&interface, OperState::Unknown),
        Err(NetlinkError::InvalidTarget)
    );
}

#[test]
fn service_mode_request_needs_a_wireless_interface() {
    let snapshot = snapshot();
    let wlan = NetlinkService::find_interface_by_name(&snapshot, "wlan0").unwrap();
    let attrs =
        NetlinkService::set_interface_mode(&snapshot, &wlan, NetlinkInterfaceMode::Monitor)
            .unwrap();
    assert!(attrs.contains(&wl_nl80211::Nl80211Attr::IfIndex(3)));
    let eth = NetlinkService::find_interface_by_name(&snapshot, "eth0").unwrap();
    assert_eq!(
        NetlinkService::set_interface_mode(&snapshot, &eth, NetlinkInterfaceMode::Monitor),
        Err(NetlinkError::NotFound)
    );
    assert_eq!(
        NetlinkService::set_interface_mode(
            &snapshot,
            &wlan,
            NetlinkInterfaceMode::OtherWireless(6)
        ),
        Err(NetlinkError::InvalidTarget)
    );
    assert_eq!(
        NetlinkService::set_interface_mode(
            &snapshot,
            &eth,
            NetlinkInterfaceMode::OtherWireless(6)
        ),
        Err(NetlinkError::InvalidTarget)
    );
}
