use router_control::api::net::ifstate::{
    begin, post, Action, IfState, PostRequestBody, PostResponseBody,
};
use router_control::api::net::{Event, Phase};
use router_control::error::Error;
use router_control::service::netlink::merge::KernelSnapshot;
use router_control::service::netlink::route::{LinkAttr, LinkRecord, OperState};
use rtnetlink::packet_route::link::LinkFlags;

fn snapshot_with_eth0(oper_state: u8) -> KernelSnapshot {
    KernelSnapshot {
        wiphy_devices: vec![],
        wiphy_interfaces: vec![],
        links: vec![
            LinkRecord {
                index: 1,
                link_layer_type: 772,
                attributes: vec![LinkAttr::IfName("lo".to_string()), LinkAttr::OperState(0)],
            },
            LinkRecord {
                index: 2,
                link_layer_type: 1,
                attributes: vec![
                    LinkAttr::IfName("eth0".to_string()),
                    LinkAttr::OperState(oper_state),
                ],
            },
        ],
    }
}

fn wish(name: &str, oper_state: IfState) -> PostRequestBody {
    PostRequestBody { interface_name: name.to_string(), oper_state }
}

fn run(
    payload: &PostRequestBody,
    first: KernelSnapshot,
    accepted: bool,
    second: KernelSnapshot,
) -> Result<PostResponseBody, Error> {
    let (phase, action) = begin();
    assert_eq!(phase, Phase::Resolving);
    assert_eq!(action, Action::Query);
    let (phase, action) = post(payload, phase, &Event::Snapshot(first));
    match action {
        Action::Respond(answer) => return answer,
        Action::Send(_) => assert_eq!(phase, Phase::Mutating),
        Action::Query => panic!("a second query before the request"),
    }
    let event = if accepted { Event::Accepted } else { Event::Rejected };
    let (phase, action) = post(payload, phase, &event);
    match action {
        Action::Respond(answer) => return answer,
        Action::Query => assert_eq!(phase, Phase::Confirming),
        Action::Send(_) => panic!("a second request"),
    }
    let (phase, action) = post(payload, phase, &Event::Snapshot(second));
    assert_eq!(phase, Phase::Finished);
    match action {
        Action::Respond(answer) => answer,
        _ => panic!("no answer after the confirmation"),
    }
}

#[test]
fn wishes_stand_for_oper_states() {
    assert_eq!(OperState::from(IfState::Up), OperState::Up);
    assert_eq!(OperState::from(IfState::Down), OperState::Down);
}

#[test]
fn change_is_requested_by_index_and_confirmed() {
    let payload = wish("eth0", IfState::Up);
    let (phase, action) =
        post(&payload, Phase::Resolving, &Event::Snapshot(snapshot_with_eth0(2)));
    assert_eq!(phase, Phase::Mutating);
    match action {
        Action::Send(message) => {
            assert_eq!(message.header.index, 2);
            assert!(message.header.flags.contains(LinkFlags::Up));
        }
        other => panic!("expected a request, got {:?}", other),
    }
    let (phase, action) = post(&payload, Phase::Mutating, &Event::Accepted);
    assert_eq!((phase, action), (Phase::Confirming, Action::Query));
    let (phase, action) =
        post(&payload, Phase::Confirming, &Event::Snapshot(snapshot_with_eth0(6)));
    assert_eq!(phase, Phase::Finished);
    assert_eq!(action, Action::Respond(Ok(PostResponseBody { oper_state: OperState::Up })));
}

#[test]
fn answer_is_the_state_that_was_observed() {
    let payload = wish("eth0", IfState::Up);
    assert_eq!(
        run(&payload, snapshot_with_eth0(2), true, snapshot_with_eth0(2)),
        Ok(PostResponseBody { oper_state: OperState::Down })
    );
    assert_eq!(
        run(&payload, snapshot_with_eth0(2), true, snapshot_with_eth0(5)),
        Ok(PostResponseBody { oper_state: OperState::Other(5) })
    );
}

#[test]
fn setting_up_twice_yields_up_both_times() {
    let payload = wish("eth0", IfState::Up);
    assert_eq!(
        run(&payload, snapshot_with_eth0(2), true, snapshot_with_eth0(6)),
        Ok(PostResponseBody { oper_state: OperState::Up })
    );
    assert_eq!(
        run(&payload, snapshot_with_eth0(6), true, snapshot_with_eth0(6)),
        Ok(PostResponseBody { oper_state: OperState::Up })
    );
}

#[test]
fn setting_down_is_confirmed() {
    let payload = wish("eth0", IfState::Down);
    let (_, action) = post(&payload, Phase::Resolving, &Event::Snapshot(snapshot_with_eth0(6)));
    match action {
        Action::Send(message) => {
            assert_eq!(message.header.index, 2);
            assert!(!message.header.flags.contains(LinkFlags::Up));
            assert!(message.header.change_mask.contains(LinkFlags::Up));
        }
        other => panic!("expected a request, got {:?}", other),
    }
    assert_eq!(
        run(&payload, snapshot_with_eth0(6), true, snapshot_with_eth0(2)),
        Ok(PostResponseBody { oper_state: OperState::Down })
    );
}

#[test]
fn unknown_name_ends_with_not_found() {
    let payload = wish("wlan9", IfState::Up);
    let (phase, action) =
        post(&payload, Phase::Resolving, &Event::Snapshot(snapshot_with_eth0(2)));
    assert_eq!(phase, Phase::Finished);
    assert_eq!(action, Action::Respond(Err(Error::InterfaceNotFound)));
}

#[test]
fn failed_first_enumeration_is_unexpected() {
    let payload = wish("eth0", IfState::Up);
    let (phase, action) = post(&payload, Phase::Resolving, &Event::QueryFailed);
    assert_eq!(phase, Phase::Finished);
    assert_eq!(action, Action::Respond(Err(Error::UnexpectedError)));
}

#[test]
fn refused_request_is_unexpected_and_not_retried() {
    let payload = wish("eth0", IfState::Up);
    assert_eq!(
        run(&payload, snapshot_with_eth0(2), false, snapshot_with_eth0(6)),
        Err(Error::UnexpectedError)
    );
    let (phase, action) = post(&payload, Phase::Mutating, &Event::Rejected);
    assert_eq!(phase, Phase::Finished);
    assert_eq!(action, Action::Respond(Err(Error::UnexpectedError)));
}

#[test]
fn interface_gone_at_confirmation_is_unexpected() {
    let payload = wish("eth0", IfState::Up);
    let gone = KernelSnapshot { wiphy_devices: vec![], wiphy_interfaces: vec![], links: vec![] };
    assert_eq!(run(&payload, snapshot_with_eth0(2), true, gone), Err(Error::UnexpectedError));
    let (_, action) = post(&payload, Phase::Confirming, &Event::QueryFailed);
    assert_eq!(action, Action::Respond(Err(Error::UnexpectedError)));
}

#[test]
fn event_out_of_turn_is_unexpected() {
    let payload = wish("eth0", IfState::Up);
    let out_of_turn = vec![
        (Phase::Resolving, Event::Accepted),
        (Phase::Resolving, Event::Rejected),
        (Phase::Mutating, Event::Snapshot(snapshot_with_eth0(6))),
        (Phase::Mutating, Event::QueryFailed),
        (Phase::Confirming, Event::Accepted),
        (Phase::Finished, Event::Accepted),
        (Phase::Finished, Event::Snapshot(snapshot_with_eth0(6))),
    ];
    for (phase, event) in out_of_turn {
        let (next, action) = post(&payload, phase, &event);
        assert_eq!(next, Phase::Finished);
        assert_eq!(action, Action::Respond(Err(Error::UnexpectedError)));
    }
}
