use team_platformer::control::ControlMessage;
use team_platformer::json::Json;
use team_platformer::message::Message;
use team_platformer::portal::{Ignored, PortalError, Reaction, TransmissionNetworkPortal};
use team_platformer::protocol::{ClientData, CreateRoomResponse, JoinRoomResponse, NetworkData};

fn peer(client_id: u32) -> ClientData {
    ClientData {
        client_id,
        network_data: NetworkData { ip: "10.0.0.2".to_string(), send_port: 1, recv_port: 2 },
    }
}

fn ready() -> TransmissionNetworkPortal {
    let mut portal = TransmissionNetworkPortal::new();
    assert_eq!(portal.rendezvous_init(b"{\"type\":\"t\",\"data\":{\"client_id\":9}}"), Ok(9));
    assert_eq!(portal.bind_sockets(1000, 1001), Ok(()));
    portal
}

#[test]
fn control_messages_round_trip_through_their_message() {
    let all = vec![
        ControlMessage::RoomCreated(CreateRoomResponse { room_id: "abc123".to_string() }),
        ControlMessage::RoomJoined(JoinRoomResponse {
            success: true,
            room_id: "abc123".to_string(),
            msg: None,
            host_data: Some(peer(1)),
        }),
        ControlMessage::RoomJoined(JoinRoomResponse {
            success: false,
            room_id: "abc123".to_string(),
            msg: Some("full".to_string()),
            host_data: None,
        }),
        ControlMessage::PeerJoined(peer(2)),
        ControlMessage::Unknown(Message::new("room/leave".to_string(), Json::Unsigned(1))),
    ];
    for control in all {
        let message = control.to_message();
        let frame = message.to_bytes().unwrap();
        let back = Message::from_bytes(&frame).unwrap();
        assert_eq!(ControlMessage::decode(back), Some(control));
    }
}

#[test]
fn control_messages_carry_the_documented_tags() {
    let created = ControlMessage::RoomCreated(CreateRoomResponse { room_id: "r".to_string() });
    assert_eq!(created.to_message().msg_type, "@response room/create");
    let joined = ControlMessage::RoomJoined(JoinRoomResponse {
        success: false,
        room_id: "r".to_string(),
        msg: None,
        host_data: None,
    });
    assert_eq!(joined.to_message().msg_type, "@response room/join");
    assert_eq!(ControlMessage::PeerJoined(peer(3)).to_message().msg_type, "@notification room/join");
}

#[test]
fn decode_rejects_a_payload_that_does_not_fit_its_tag() {
    let message = Message::new("@response room/create".to_string(), Json::Null);
    assert_eq!(ControlMessage::decode(message), None);
    let message = Message::new(
        "@notification room/join".to_string(),
        CreateRoomResponse { room_id: "r".to_string() }.to_json(),
    );
    assert_eq!(ControlMessage::decode(message), None);
}

#[test]
fn decode_keeps_an_unknown_message_whole() {
    let message = Message::new("chat".to_string(), Json::Text("hi".to_string()));
    assert_eq!(
        ControlMessage::decode(message),
        Some(ControlMessage::Unknown(Message::new("chat".to_string(), Json::Text("hi".to_string()))))
    );
}

#[test]
fn apply_control_follows_the_state_machine() {
    let mut portal = ready();
    assert_eq!(
        portal.apply_control(ControlMessage::PeerJoined(peer(2))),
        Err(PortalError::NotHosting)
    );
    assert_eq!(
        portal.apply_control(ControlMessage::RoomCreated(CreateRoomResponse {
            room_id: "abc123".to_string()
        })),
        Ok(Reaction::RoomCreated)
    );
    assert_eq!(portal.room_connection().unwrap().room_host, 9);
    assert_eq!(
        portal.apply_control(ControlMessage::PeerJoined(peer(2))),
        Ok(Reaction::Linked { peer: 0 })
    );
    assert_eq!(
        portal.apply_control(ControlMessage::PeerJoined(peer(3))),
        Ok(Reaction::Linked { peer: 1 })
    );
    assert_eq!(
        portal.apply_control(ControlMessage::RoomJoined(JoinRoomResponse {
            success: true,
            room_id: "other".to_string(),
            msg: None,
            host_data: Some(peer(5)),
        })),
        Ok(Reaction::Ignored(Ignored::AlreadyInRoom))
    );
    assert_eq!(
        portal.apply_control(ControlMessage::RoomJoined(JoinRoomResponse {
            success: false,
            room_id: "other".to_string(),
            msg: None,
            host_data: None,
        })),
        Err(PortalError::JoinFailed(None))
    );
    assert_eq!(
        portal.apply_control(ControlMessage::Unknown(Message::new("x".to_string(), Json::Null))),
        Ok(Reaction::Ignored(Ignored::UnknownType))
    );
    assert_eq!(portal.peer_count(), 2);
    assert_eq!(portal.room_connection().unwrap().room_id, "abc123");
}
