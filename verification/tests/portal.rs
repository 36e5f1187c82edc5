use team_platformer::inbound::{InboundChannel, Receipt};
use team_platformer::json::Json;
use team_platformer::link::{Datagram, LocalSocket, PeerAddr, PeerConnection};
use team_platformer::message::Message;
use team_platformer::portal::{
    link_plan, CommunicationSockets, Ignored, LinkStep, NetworkMode, PortalError, Reaction,
    RoomConnectionType, TransmissionNetworkPortal,
};
use team_platformer::protocol::{ClientData, NetworkData};

fn frame(text: &str) -> Vec<u8> {
    text.as_bytes().to_vec()
}

fn ready_portal(client_id: u32) -> TransmissionNetworkPortal {
    let mut portal = TransmissionNetworkPortal::new();
    let first = format!("{{\"type\":\"welcome\",\"data\":{{\"client_id\":{}}}}}", client_id);
    assert_eq!(portal.rendezvous_init(first.as_bytes()), Ok(client_id));
    assert_eq!(portal.bind_sockets(5000, 5001), Ok(()));
    portal
}

fn hosting_portal() -> TransmissionNetworkPortal {
    let mut portal = ready_portal(1);
    let created = frame("{\"type\":\"@response room/create\",\"data\":{\"room_id\":\"abc123\"}}");
    assert_eq!(portal.handle_rendezvous_frame(&created), Ok(Reaction::RoomCreated));
    portal
}

fn join_notice(client_id: u32, ip: &str, send_port: u16, recv_port: u16) -> Vec<u8> {
    frame(&format!(
        "{{\"type\":\"@notification room/join\",\"data\":{{\"client_id\":{},\"network_data\":{{\"ip\":\"{}\",\"send_port\":{},\"recv_port\":{}}}}}}}",
        client_id, ip, send_port, recv_port
    ))
}

fn host_with_three_peers() -> TransmissionNetworkPortal {
    let mut portal = hosting_portal();
    for (i, id) in [11u32, 12, 13].iter().enumerate() {
        let notice = join_notice(*id, "10.0.0.9", 6000, 6001);
        assert_eq!(portal.handle_rendezvous_frame(&notice), Ok(Reaction::Linked { peer: i }));
    }
    portal
}

fn update(n: u64) -> Message {
    Message::new("entity/update".to_string(), Json::Unsigned(n))
}

#[test]
fn new_portal_knows_nothing() {
    let portal = TransmissionNetworkPortal::new();
    assert_eq!(portal.client_id(), None);
    assert_eq!(portal.sockets(), None);
    assert!(portal.room_connection().is_none());
    assert!(!portal.is_ready());
    assert_eq!(portal.peer_count(), 0);
}

#[test]
fn registration_takes_the_identity_of_the_first_frame() {
    let mut portal = TransmissionNetworkPortal::new();
    let first = frame("{\"type\":\"@response connect\",\"data\":{\"client_id\": 7}}");
    assert_eq!(portal.rendezvous_init(&first), Ok(7));
    assert_eq!(portal.client_id(), Some(7));
    assert!(!portal.is_ready());
}

#[test]
fn registration_happens_once() {
    let mut portal = TransmissionNetworkPortal::new();
    let first = frame("{\"type\":\"t\",\"data\":{\"client_id\": 7}}");
    let second = frame("{\"type\":\"t\",\"data\":{\"client_id\": 8}}");
    assert_eq!(portal.rendezvous_init(&first), Ok(7));
    assert_eq!(portal.rendezvous_init(&second), Err(PortalError::AlreadyRegistered));
    assert_eq!(portal.client_id(), Some(7));
}

#[test]
fn registration_fails_on_a_malformed_first_frame() {
    for bad in ["", "garbage", "{\"client_id\":7}", "{\"type\":\"t\",\"data\":{}}"] {
        let mut portal = TransmissionNetworkPortal::new();
        assert_eq!(portal.rendezvous_init(bad.as_bytes()), Err(PortalError::Malformed));
        assert_eq!(portal.client_id(), None);
    }
}

#[test]
fn sockets_are_bound_once() {
    let mut portal = TransmissionNetworkPortal::new();
    assert_eq!(portal.bind_sockets(1, 2), Ok(()));
    assert_eq!(portal.bind_sockets(3, 4), Err(PortalError::SocketsAlreadyBound));
    assert_eq!(portal.sockets(), Some(CommunicationSockets { send_port: 1, recv_port: 2 }));
}

#[test]
fn create_room_request_names_the_bound_ports() {
    let portal = ready_portal(1);
    let request = portal.create_room().unwrap();
    assert_eq!(request.msg_type, "room/create");
    assert_eq!(
        request.to_bytes().unwrap(),
        frame("{\"data\":{\"max_clients\":2,\"recv_port\":5001,\"send_port\":5000},\"type\":\"room/create\"}")
    );
}

#[test]
fn join_room_request_names_the_room_and_the_bound_ports() {
    let portal = ready_portal(2);
    let request = portal.join_room("abc123".to_string()).unwrap();
    assert_eq!(
        request.to_bytes().unwrap(),
        frame("{\"data\":{\"recv_port\":5001,\"room_id\":\"abc123\",\"send_port\":5000},\"type\":\"room/join\"}")
    );
}

#[test]
fn room_request_follows_the_network_mode() {
    let offline = TransmissionNetworkPortal::new();
    assert_eq!(offline.room_request(NetworkMode::Offline, None), Ok(None));
    let portal = ready_portal(1);
    assert_eq!(
        portal.room_request(NetworkMode::Host, None),
        Ok(Some(portal.create_room().unwrap()))
    );
    assert_eq!(
        portal.room_request(NetworkMode::Client, Some("r".to_string())),
        Ok(Some(portal.join_room("r".to_string()).unwrap()))
    );
    assert_eq!(portal.room_request(NetworkMode::Client, None), Err(PortalError::MissingRoomId));
}

#[test]
fn create_response_makes_a_host_without_peers() {
    let portal = hosting_portal();
    let room = portal.room_connection().unwrap();
    assert_eq!(room.room_id, "abc123");
    assert_eq!(room.room_host, 1);
    assert!(matches!(&room.connection_type, RoomConnectionType::Host(peers) if peers.is_empty()));
    assert_eq!(portal.peer_count(), 0);
}

#[test]
fn duplicate_create_response_is_ignored() {
    let mut portal = host_with_three_peers();
    let again = frame("{\"type\":\"@response room/create\",\"data\":{\"room_id\":\"other\"}}");
    assert_eq!(
        portal.handle_rendezvous_frame(&again),
        Ok(Reaction::Ignored(Ignored::AlreadyInRoom))
    );
    assert_eq!(portal.room_connection().unwrap().room_id, "abc123");
    assert_eq!(portal.peer_count(), 3);
}

#[test]
fn room_create_and_join_converge() {
    let mut host = ready_portal(1);
    let mut client = TransmissionNetworkPortal::new();
    assert_eq!(
        client.rendezvous_init(b"{\"type\":\"t\",\"data\":{\"client_id\":2}}"),
        Ok(2)
    );
    assert_eq!(client.bind_sockets(7000, 7001), Ok(()));

    assert_eq!(host.create_room().unwrap().msg_type, "room/create");
    let created = frame("{\"type\":\"@response room/create\",\"data\":{\"room_id\":\"abc123\"}}");
    assert_eq!(host.handle_rendezvous_frame(&created), Ok(Reaction::RoomCreated));

    let join = client.join_room("abc123".to_string()).unwrap();
    assert_eq!(join.data.text_at("room_id"), Some("abc123".to_string()));
    let granted = frame(
        "{\"type\":\"@response room/join\",\"data\":{\"success\":true,\"room_id\":\"abc123\",\"host_data\":{\"client_id\":1,\"network_data\":{\"ip\":\"192.168.1.10\",\"send_port\":5000,\"recv_port\":5001}}}}",
    );
    assert_eq!(client.handle_rendezvous_frame(&granted), Ok(Reaction::Linked { peer: 0 }));
    let notice = join_notice(2, "192.168.1.20", 7000, 7001);
    assert_eq!(host.handle_rendezvous_frame(&notice), Ok(Reaction::Linked { peer: 0 }));

    match &host.room_connection().unwrap().connection_type {
        RoomConnectionType::Host(peers) => {
            assert_eq!(peers.len(), 1);
            assert_eq!(peers[0].client_id(), 2);
        },
        RoomConnectionType::Client(_) => panic!("the host must host"),
    }
    let room = client.room_connection().unwrap();
    assert_eq!(room.room_id, "abc123");
    assert_eq!(room.room_host, 1);
    match &room.connection_type {
        RoomConnectionType::Client(peer) => {
            assert_eq!(peer.client_id(), 1);
            assert_eq!(
                peer.peer_addr(),
                &PeerAddr { ip: "192.168.1.10".to_string(), port: 5000 }
            );
            assert_eq!(peer.data_port(), 5001);
        },
        RoomConnectionType::Host(_) => panic!("the client must not host"),
    }
}

#[test]
fn refused_join_is_an_error_and_creates_no_room() {
    let mut portal = ready_portal(2);
    let refused = frame(
        "{\"type\":\"@response room/join\",\"data\":{\"success\":false,\"room_id\":\"abc123\",\"msg\":\"full\"}}",
    );
    assert_eq!(
        portal.handle_rendezvous_frame(&refused),
        Err(PortalError::JoinFailed(Some("full".to_string())))
    );
    assert!(portal.room_connection().is_none());
    assert_eq!(portal.peer_count(), 0);
}

#[test]
fn refused_join_without_a_room_id_carries_its_reason() {
    let mut portal = ready_portal(2);
    let refused =
        frame("{\"type\":\"@response room/join\",\"data\":{\"success\":false,\"msg\":\"full\"}}");
    assert_eq!(
        portal.handle_rendezvous_frame(&refused),
        Err(PortalError::JoinFailed(Some("full".to_string())))
    );
    assert!(portal.room_connection().is_none());
    assert_eq!(portal.peer_count(), 0);
}

#[test]
fn refused_join_is_fatal_whatever_else_it_holds() {
    for data in [
        "{\"success\":false}",
        "{\"success\":false,\"msg\":null}",
        "{\"success\":false,\"msg\":7,\"room_id\":3}",
        "{\"success\":false,\"host_data\":{\"client_id\":1}}",
    ] {
        let mut portal = hosting_portal();
        let refused = frame(&format!("{{\"type\":\"@response room/join\",\"data\":{}}}", data));
        assert_eq!(portal.handle_rendezvous_frame(&refused), Err(PortalError::JoinFailed(None)));
        assert_eq!(portal.room_connection().unwrap().room_id, "abc123");
    }
}

#[test]
fn join_answer_that_does_not_say_whether_it_succeeded_is_malformed() {
    let mut portal = ready_portal(2);
    let odd = frame("{\"type\":\"@response room/join\",\"data\":{\"msg\":\"full\"}}");
    assert_eq!(portal.handle_rendezvous_frame(&odd), Err(PortalError::Malformed));
    let odd = frame("{\"type\":\"@response room/join\",\"data\":{\"success\":true}}");
    assert_eq!(portal.handle_rendezvous_frame(&odd), Err(PortalError::Malformed));
    assert!(portal.room_connection().is_none());
}

#[test]
fn granted_join_without_a_host_is_an_error() {
    let mut portal = ready_portal(2);
    let odd = frame("{\"type\":\"@response room/join\",\"data\":{\"success\":true,\"room_id\":\"r\"}}");
    assert_eq!(portal.handle_rendezvous_frame(&odd), Err(PortalError::MissingHost));
    assert!(portal.room_connection().is_none());
}

#[test]
fn join_notification_outside_a_hosted_room_is_an_error() {
    let mut unbound = ready_portal(2);
    let notice = join_notice(9, "10.0.0.1", 1, 2);
    assert_eq!(unbound.handle_rendezvous_frame(&notice), Err(PortalError::NotHosting));
    assert!(unbound.room_connection().is_none());

    let mut client = ready_portal(2);
    let granted = frame(
        "{\"type\":\"@response room/join\",\"data\":{\"success\":true,\"room_id\":\"r\",\"host_data\":{\"client_id\":1,\"network_data\":{\"ip\":\"10.0.0.1\",\"send_port\":1,\"recv_port\":2}}}}",
    );
    assert_eq!(client.handle_rendezvous_frame(&granted), Ok(Reaction::Linked { peer: 0 }));
    assert_eq!(client.handle_rendezvous_frame(&notice), Err(PortalError::NotHosting));
    assert_eq!(client.peer_count(), 1);
}

#[test]
fn unknown_and_malformed_control_frames_change_nothing() {
    let mut portal = hosting_portal();
    let unknown = frame("{\"type\":\"room/leave\",\"data\":null}");
    assert_eq!(
        portal.handle_rendezvous_frame(&unknown),
        Ok(Reaction::Ignored(Ignored::UnknownType))
    );
    assert_eq!(portal.handle_rendezvous_frame(b"\xff\xfe"), Err(PortalError::Malformed));
    let bad_payload = frame("{\"type\":\"@notification room/join\",\"data\":{\"client_id\":1}}");
    assert_eq!(portal.handle_rendezvous_frame(&bad_payload), Err(PortalError::Malformed));
    assert_eq!(portal.peer_count(), 0);
    assert_eq!(portal.room_connection().unwrap().room_id, "abc123");
}

#[test]
fn link_plan_starts_with_the_hole_punch() {
    assert_eq!(
        link_plan(),
        vec![LinkStep::HolePunch, LinkStep::KeepAlive { interval_secs: 5 }, LinkStep::SendPump]
    );
}

#[test]
fn hole_punch_is_the_first_datagram_of_a_link() {
    let mut portal = hosting_portal();
    let notice = join_notice(11, "10.0.0.9", 6000, 6001);
    assert_eq!(portal.handle_rendezvous_frame(&notice), Ok(Reaction::Linked { peer: 0 }));
    assert_eq!(portal.send_to(0, update(1)), Ok(()));
    assert_eq!(portal.keep_alive(0), None);
    assert_eq!(portal.next_outbound(0), None);

    let to_sender = PeerAddr { ip: "10.0.0.9".to_string(), port: 6000 };
    assert_eq!(
        portal.hole_punch(0),
        Some(Datagram {
            socket: LocalSocket::Receiver,
            to: PeerAddr { ip: "10.0.0.9".to_string(), port: 6000 },
            message: Message::hole_punch(),
        })
    );
    assert_eq!(
        portal.keep_alive(0),
        Some(Datagram {
            socket: LocalSocket::Receiver,
            to: to_sender,
            message: Message::keep_alive(),
        })
    );
    assert_eq!(
        portal.next_outbound(0),
        Some(Datagram {
            socket: LocalSocket::Sender,
            to: PeerAddr { ip: "10.0.0.9".to_string(), port: 6001 },
            message: update(1),
        })
    );
    assert_eq!(portal.next_outbound(0), None);
}

#[test]
fn operations_on_a_missing_link_do_nothing() {
    let mut portal = hosting_portal();
    assert_eq!(portal.hole_punch(0), None);
    assert_eq!(portal.keep_alive(3), None);
    assert_eq!(portal.next_outbound(1), None);
    assert_eq!(portal.send_to(0, update(1)), Err(update(1)));
    let mut unbound = TransmissionNetworkPortal::new();
    assert_eq!(unbound.hole_punch(0), None);
    unbound.publish(&update(1));
    assert_eq!(unbound.peer_count(), 0);
}

#[test]
fn publish_reaches_every_peer_once_and_in_order() {
    let mut portal = host_with_three_peers();
    for peer in 0..3 {
        assert!(portal.hole_punch(peer).is_some());
    }
    portal.publish(&update(1));
    portal.publish(&update(2));
    for peer in 0..3 {
        assert_eq!(portal.next_outbound(peer).unwrap().message, update(1));
        assert_eq!(portal.next_outbound(peer).unwrap().message, update(2));
        assert_eq!(portal.next_outbound(peer), None);
    }
}

#[test]
fn a_full_queue_holds_no_other_peer_up() {
    let mut portal = host_with_three_peers();
    for peer in 0..3 {
        assert!(portal.hole_punch(peer).is_some());
    }
    for n in 0..100 {
        assert_eq!(portal.send_to(1, update(n)), Ok(()));
    }
    assert_eq!(portal.send_to(1, update(100)), Err(update(100)));
    portal.publish(&update(1000));

    assert_eq!(portal.next_outbound(0).unwrap().message, update(1000));
    assert_eq!(portal.next_outbound(0), None);
    assert_eq!(portal.next_outbound(2).unwrap().message, update(1000));
    assert_eq!(portal.next_outbound(2), None);
    for n in 0..100 {
        assert_eq!(portal.next_outbound(1).unwrap().message, update(n));
    }
    assert_eq!(portal.next_outbound(1), None);

    portal.publish(&update(1001));
    for peer in 0..3 {
        assert_eq!(portal.next_outbound(peer).unwrap().message, update(1001));
    }
}

#[test]
fn a_client_publishes_to_its_host() {
    let mut client = ready_portal(2);
    let granted = frame(
        "{\"type\":\"@response room/join\",\"data\":{\"success\":true,\"room_id\":\"r\",\"host_data\":{\"client_id\":1,\"network_data\":{\"ip\":\"10.0.0.1\",\"send_port\":1,\"recv_port\":2}}}}",
    );
    assert_eq!(client.handle_rendezvous_frame(&granted), Ok(Reaction::Linked { peer: 0 }));
    assert!(client.hole_punch(0).is_some());
    client.publish(&update(5));
    let out = client.next_outbound(0).unwrap();
    assert_eq!(out.to, PeerAddr { ip: "10.0.0.1".to_string(), port: 2 });
    assert_eq!(out.message, update(5));
}

#[test]
fn peer_connection_opens_unpunched_and_empty() {
    let peer = ClientData {
        client_id: 4,
        network_data: NetworkData { ip: "::1".to_string(), send_port: 9, recv_port: 10 },
    };
    let mut link = PeerConnection::open(&peer);
    assert_eq!(link.client_id(), 4);
    assert!(!link.is_punched());
    assert_eq!(link.pending(), 0);
    assert_eq!(link.keep_alive(), None);
    assert_eq!(link.enqueue(update(1)), Ok(()));
    assert_eq!(link.next_outbound(), None);
    assert_eq!(link.pending(), 1);
    assert_eq!(link.hole_punch().unwrap().message, Message::hole_punch());
    assert!(link.is_punched());
    assert_eq!(link.next_outbound().unwrap().message, update(1));
}

#[test]
fn malformed_datagram_does_not_stop_the_receiving_side() {
    let mut inbound = InboundChannel::new();
    let good = update(1).to_bytes().unwrap();
    assert_eq!(inbound.receive(b"{\"type\":"), Receipt::Malformed);
    assert_eq!(inbound.len(), 0);
    assert_eq!(inbound.receive(&good), Receipt::Delivered);
    assert_eq!(inbound.receive(b"[1,2,3]"), Receipt::Malformed);
    assert_eq!(inbound.receive(&update(2).to_bytes().unwrap()), Receipt::Delivered);
    assert_eq!(inbound.take(), Some(update(1)));
    assert_eq!(inbound.take(), Some(update(2)));
    assert_eq!(inbound.take(), None);
}

#[test]
fn inbound_channel_refuses_what_it_has_no_room_for() {
    let mut inbound = InboundChannel::new();
    for n in 0..100 {
        assert_eq!(inbound.receive(&update(n).to_bytes().unwrap()), Receipt::Delivered);
    }
    assert_eq!(inbound.receive(&update(100).to_bytes().unwrap()), Receipt::Full);
    assert_eq!(inbound.len(), 100);
    assert_eq!(inbound.take(), Some(update(0)));
    assert_eq!(inbound.receive(&update(100).to_bytes().unwrap()), Receipt::Delivered);
}

#[test]
fn portal_errors_have_a_line_for_the_log() {
    assert_eq!(
        PortalError::JoinFailed(Some("full".to_string())).message(),
        "failed to join room: full"
    );
    assert_eq!(PortalError::JoinFailed(None).message(), "failed to join room");
    assert_eq!(
        PortalError::NotHosting.message(),
        "received a room/join notification while not a host"
    );
}

#[test]
fn a_closed_link_is_silent_and_takes_nothing() {
    let mut portal = host_with_three_peers();
    for peer in 0..3 {
        assert!(portal.hole_punch(peer).is_some());
    }
    assert_eq!(portal.send_to(1, update(1)), Ok(()));
    assert!(portal.is_link_open(1));
    portal.close_link(1);
    assert!(!portal.is_link_open(1));
    assert!(portal.is_link_open(0));
    assert!(!portal.is_link_open(3));
    assert_eq!(portal.peer_count(), 3);
    assert_eq!(portal.keep_alive(1), None);
    assert_eq!(portal.next_outbound(1), None);
    assert_eq!(portal.hole_punch(1), None);
    assert_eq!(portal.send_to(1, update(2)), Err(update(2)));
    portal.publish(&update(3));
    assert_eq!(portal.next_outbound(1), None);
    assert_eq!(portal.next_outbound(0).unwrap().message, update(3));
    assert_eq!(portal.next_outbound(2).unwrap().message, update(3));
    assert!(portal.keep_alive(2).is_some());
}

#[test]
fn a_link_closed_before_its_hole_punch_never_sends() {
    let peer = ClientData {
        client_id: 4,
        network_data: NetworkData { ip: "10.1.1.1".to_string(), send_port: 9, recv_port: 10 },
    };
    let mut link = PeerConnection::open(&peer);
    assert!(link.is_open());
    link.close();
    assert!(!link.is_open());
    assert_eq!(link.hole_punch(), None);
    assert!(!link.is_punched());
    assert_eq!(link.enqueue(update(1)), Err(update(1)));
    assert_eq!(link.pending(), 0);
}

#[test]
fn requests_fail_once_the_server_is_gone() {
    let mut portal = hosting_portal();
    let notice = join_notice(11, "10.0.0.9", 6000, 6001);
    assert_eq!(portal.handle_rendezvous_frame(&notice), Ok(Reaction::Linked { peer: 0 }));
    portal.rendezvous_closed();
    assert_eq!(portal.create_room(), Err(PortalError::Disconnected));
    assert_eq!(portal.join_room("r".to_string()), Err(PortalError::Disconnected));
    assert_eq!(portal.room_request(NetworkMode::Host, None), Err(PortalError::Disconnected));
    assert_eq!(portal.room_request(NetworkMode::Offline, None), Ok(None));
    assert_eq!(portal.client_id(), Some(1));
    assert_eq!(portal.peer_count(), 1);
    assert!(portal.hole_punch(0).is_some());
    assert_eq!(portal.rendezvous_init(b"{}"), Err(PortalError::AlreadyRegistered));
}

#[test]
fn closing_an_unregistered_portal_changes_nothing() {
    let mut portal = TransmissionNetworkPortal::new();
    portal.rendezvous_closed();
    assert_eq!(portal.client_id(), None);
    assert_eq!(
        portal.rendezvous_init(b"{\"type\":\"t\",\"data\":{\"client_id\":1}}"),
        Ok(1)
    );
}

#[test]
fn join_notice_appends_behind_the_links_there_are() {
    let mut portal = host_with_three_peers();
    let notice = join_notice(14, "10.0.0.14", 6100, 6101);
    assert_eq!(portal.handle_rendezvous_frame(&notice), Ok(Reaction::Linked { peer: 3 }));
    let room = portal.room_connection().unwrap();
    assert_eq!(room.room_id, "abc123");
    assert_eq!(room.room_host, 1);
    match &room.connection_type {
        RoomConnectionType::Host(peers) => {
            let ids: Vec<u32> = peers.iter().map(|p| p.client_id()).collect();
            assert_eq!(ids, vec![11, 12, 13, 14]);
        },
        RoomConnectionType::Client(_) => panic!("the host must host"),
    }
}
