use router_control::api::net::interfaces::{post, Interface, PostResponseBody};
use router_control::error::Error;
use router_control::service::netlink::merge::KernelSnapshot;
use router_control::service::netlink::route::{LinkAttr, LinkRecord, OperState, RouteInterfaceKind};
use router_control::service::netlink::wiphy::{WiphyAttr, WiphyRecord};
use router_control::service::netlink::NetlinkInterface;

#[test]
fn listing_shows_index_and_name_of_each_interface() {
    let snapshot = KernelSnapshot {
        wiphy_devices: vec![],
        wiphy_interfaces: vec![WiphyRecord {
            attributes: vec![
                WiphyAttr::IfIndex(3),
                WiphyAttr::Wiphy(0),
                WiphyAttr::IfName("wlan0".to_string()),
                WiphyAttr::IfType(2),
            ],
        }],
        links: vec![
            LinkRecord {
                index: 2,
                link_layer_type: 1,
                attributes: vec![LinkAttr::IfName("eth0".to_string()), LinkAttr::OperState(6)],
            },
            LinkRecord {
                index: 3,
                link_layer_type: 801,
                attributes: vec![LinkAttr::IfName("wlan0".to_string()), LinkAttr::OperState(6)],
            },
        ],
    };
    assert_eq!(
        post(Some(&snapshot)),
        Ok(PostResponseBody {
            interfaces: vec![
                Interface { index: 3, name: "wlan0".to_string() },
                Interface { index: 2, name: "eth0".to_string() },
            ],
        })
    );
}

#[test]
fn listing_of_nothing_is_empty() {
    let snapshot =
        KernelSnapshot { wiphy_devices: vec![], wiphy_interfaces: vec![], links: vec![] };
    assert_eq!(post(Some(&snapshot)), Ok(PostResponseBody { interfaces: vec![] }));
}

#[test]
fn failed_enumeration_is_unexpected() {
    assert_eq!(post(None), Err(Error::UnexpectedError));
}

#[test]
fn listed_interface_keeps_index_and_name() {
    let interface = NetlinkInterface {
        index: 9,
        name: "tun0".to_string(),
        kind: RouteInterfaceKind::Unknown(65534),
        oper_state: OperState::Unknown,
        mode_status: None,
    };
    assert_eq!(Interface::from_ref(&interface), Interface { index: 9, name: "tun0".to_string() });
    assert_eq!(Interface::from(interface), Interface { index: 9, name: "tun0".to_string() });
}
