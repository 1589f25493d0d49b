use router_control::service::netlink::route::{
    LinkAttr, LinkRecord, OperState, RouteInterface, RouteInterfaceKind, RouteManager,
};
use router_control::service::netlink::NetlinkError;
use rtnetlink::packet_route::link::LinkFlags;

fn link(index: u32, link_layer_type: u16, attributes: Vec<LinkAttr>) -> LinkRecord {
    LinkRecord { index, link_layer_type, attributes }
}

fn eth0() -> RouteInterface {
    RouteInterface {
        index: 2,
        name: "eth0".to_string(),
        kind: RouteInterfaceKind::Ethernet,
        oper_state: OperState::Down,
    }
}

#[test]
fn link_layer_codes_are_classified() {
    assert_eq!(RouteInterfaceKind::from_link_layer(1), RouteInterfaceKind::Ethernet);
    assert_eq!(RouteInterfaceKind::from_link_layer(772), RouteInterfaceKind::Loopback);
    assert_eq!(RouteInterfaceKind::from_link_layer(801), RouteInterfaceKind::Wireless);
    assert_eq!(RouteInterfaceKind::from_link_layer(802), RouteInterfaceKind::Wireless);
    assert_eq!(RouteInterfaceKind::from_link_layer(803), RouteInterfaceKind::Wireless);
}

#[test]
fn unknown_link_layer_code_is_kept() {
    assert_eq!(RouteInterfaceKind::from_link_layer(0), RouteInterfaceKind::Unknown(0));
    assert_eq!(RouteInterfaceKind::from_link_layer(768), RouteInterfaceKind::Unknown(768));
    assert_eq!(RouteInterfaceKind::from_link_layer(804), RouteInterfaceKind::Unknown(804));
    assert_eq!(RouteInterfaceKind::from_link_layer(65534), RouteInterfaceKind::Unknown(65534));
}

#[test]
fn oper_state_codes_are_read() {
    assert_eq!(OperState::from(2u8), OperState::Down);
    assert_eq!(OperState::from(6u8), OperState::Up);
    assert_eq!(OperState::from(0u8), OperState::Other(0));
    assert_eq!(OperState::from(5u8), OperState::Other(5));
    assert_eq!(OperState::from(255u8), OperState::Other(255));
}

#[test]
fn only_up_and_down_can_be_set() {
    assert!(OperState::Up.is_settable());
    assert!(OperState::Down.is_settable());
    assert!(!OperState::Unknown.is_settable());
    assert!(!OperState::Other(6).is_settable());
}

#[test]
fn complete_link_record_gives_an_interface() {
    let records = vec![link(
        2,
        1,
        vec![LinkAttr::Other, LinkAttr::IfName("eth0".to_string()), LinkAttr::OperState(6)],
    )];
    let interfaces = RouteManager::get_interfaces(&records);
    assert_eq!(
        interfaces,
        vec![RouteInterface {
            index: 2,
            name: "eth0".to_string(),
            kind: RouteInterfaceKind::Ethernet,
            oper_state: OperState::Up,
        }]
    );
}

#[test]
fn link_record_without_name_is_skipped() {
    let records = vec![
        link(1, 772, vec![LinkAttr::OperState(0)]),
        link(2, 1, vec![LinkAttr::IfName("eth0".to_string()), LinkAttr::OperState(2)]),
    ];
    let interfaces = RouteManager::get_interfaces(&records);
    assert_eq!(interfaces.len(), 1);
    assert_eq!(interfaces[0].name, "eth0");
    assert_eq!(interfaces[0].oper_state, OperState::Down);
}

#[test]
fn link_record_without_oper_state_is_skipped() {
    let records = vec![
        link(2, 1, vec![LinkAttr::IfName("eth0".to_string())]),
        link(1, 772, vec![LinkAttr::IfName("lo".to_string()), LinkAttr::OperState(0)]),
    ];
    let interfaces = RouteManager::get_interfaces(&records);
    assert_eq!(interfaces.len(), 1);
    assert_eq!(interfaces[0].index, 1);
    assert_eq!(interfaces[0].name, "lo");
    assert_eq!(interfaces[0].kind, RouteInterfaceKind::Loopback);
    assert_eq!(interfaces[0].oper_state, OperState::Other(0));
}

#[test]
fn later_attribute_of_a_kind_wins() {
    let record = link(
        7,
        1,
        vec![
            LinkAttr::IfName("old".to_string()),
            LinkAttr::OperState(2),
            LinkAttr::IfName("new".to_string()),
            LinkAttr::OperState(6),
        ],
    );
    let interface = record.to_interface().unwrap();
    assert_eq!(interface.name, "new");
    assert_eq!(interface.oper_state, OperState::Up);
}

#[test]
fn interfaces_keep_the_order_of_the_records() {
    let records = vec![
        link(1, 772, vec![LinkAttr::IfName("lo".to_string()), LinkAttr::OperState(0)]),
        link(2, 1, vec![LinkAttr::IfName("eth0".to_string()), LinkAttr::OperState(6)]),
        link(3, 65534, vec![LinkAttr::IfName("tun0".to_string()), LinkAttr::OperState(2)]),
    ];
    let interfaces = RouteManager::get_interfaces(&records);
    let names: Vec<String> = interfaces.iter().map(|i| i.name.clone()).collect();
    assert_eq!(names, vec!["lo".to_string(), "eth0".to_string(), "tun0".to_string()]);
    assert_eq!(interfaces[2].kind, RouteInterfaceKind::Unknown(65534));
}

#[test]
fn no_records_no_interfaces() {
    assert!(RouteManager::get_interfaces(&vec![]).is_empty());
}

#[test]
fn up_request_sets_the_up_flag_of_the_index() {
    let message = RouteManager::set_link_oper_state(&eth0(), OperState::Up).unwrap();
    assert_eq!(message.header.index, 2);
    assert!(message.header.flags.contains(LinkFlags::Up));
    assert!(message.header.change_mask.contains(LinkFlags::Up));
}

#[test]
fn down_request_clears_the_up_flag_of_the_index() {
    let message = RouteManager::set_link_oper_state(&eth0(), OperState::Down).unwrap();
    assert_eq!(message.header.index, 2);
    assert!(!message.header.flags.contains(LinkFlags::Up));
    assert!(message.header.change_mask.contains(LinkFlags::Up));
}

#[test]
fn unknown_target_is_refused() {
    assert_eq!(
        RouteManager::set_link_oper_state(&eth0(), OperState::Unknown),
        Err(NetlinkError::InvalidTarget)
    );
}

#[test]
fn other_target_is_refused() {
    assert_eq!(
        RouteManager::set_link_oper_state(&eth0(), OperState::Other(6)),
        Err(NetlinkError::InvalidTarget)
    );
    assert_eq!(
        RouteManager::set_link_oper_state(&eth0(), OperState::Other(0)),
        Err(NetlinkError::InvalidTarget)
    );
}

#[test]
fn redundant_up_request_is_built_all_the_same() {
    let mut interface = eth0();
    interface.oper_state = OperState::Up;
    let first = RouteManager::set_link_oper_state(&interface, OperState::Up).unwrap();
    let second = RouteManager::set_link_oper_state(&interface, OperState::Up).unwrap();
    assert_eq!(first, second);
    assert!(first.header.flags.contains(LinkFlags::Up));
}
