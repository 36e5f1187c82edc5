//! The messages of the control channel as one closed set of variants, read
//! once where a frame comes in.
//!
//! A tag that the portal does not act on is no error: its message is kept
//! whole in `Unknown`, to be logged and dropped.

use vstd::prelude::*;
use crate::message::{
    control_kind, lemma_control_tags_differ, notification_type, response_type, spec_control_kind,
    spec_notification_type, spec_response_type, ControlKind, Message, MessageView,
};
use crate::protocol::{
    lemma_client_data_round_trip, lemma_create_room_response_round_trip,
    lemma_join_room_response_round_trip, ClientData, ClientDataView, CreateRoomResponse,
    CreateRoomResponseView, JoinRoomResponse, JoinRoomResponseView,
};

verus! {

/// A message of the rendezvous server to a registered client.
#[derive(Debug, PartialEq)]
pub enum ControlMessage {
    /// The answer to `room/create`.
    RoomCreated(CreateRoomResponse),
    /// The answer to `room/join`.
    RoomJoined(JoinRoomResponse),
    /// The notice to a host that a client has joined its room.
    PeerJoined(ClientData),
    /// A message with any other tag, as it came.
    Unknown(Message),
}

/// Mathematical model of a [`ControlMessage`].
pub enum ControlView {
    RoomCreated(CreateRoomResponseView),
    RoomJoined(JoinRoomResponseView),
    PeerJoined(ClientDataView),
    Unknown(MessageView),
}

impl View for ControlMessage {
    type V = ControlView;

    open spec fn view(&self) -> ControlView {
        match self {
            ControlMessage::RoomCreated(response) => ControlView::RoomCreated(response@),
            ControlMessage::RoomJoined(response) => ControlView::RoomJoined(response@),
            ControlMessage::PeerJoined(client) => ControlView::PeerJoined(client@),
            ControlMessage::Unknown(message) => ControlView::Unknown(message@),
        }
    }
}

/// The model of an optional control message.
pub open spec fn control_view(control: Option<ControlMessage>) -> Option<ControlView> {
    match control {
        Some(c) => Some(c@),
        None => None,
    }
}

/// The control message that a message is: by its tag, one of the three that
/// the portal acts on, with the payload that the tag announces, or
/// `Unknown`. `None` where the payload is not what the tag announces.
pub open spec fn spec_decode_control(message: MessageView) -> Option<ControlView> {
    match spec_control_kind(message.msg_type) {
        ControlKind::CreateRoomResponse => match CreateRoomResponse::spec_from_json(message.data) {
            Some(response) => Some(ControlView::RoomCreated(response)),
            None => None,
        },
        ControlKind::JoinRoomResponse => match JoinRoomResponse::spec_from_json(message.data) {
            Some(response) => Some(ControlView::RoomJoined(response)),
            None => None,
        },
        ControlKind::JoinRoomNotification => match ClientData::spec_from_json(message.data) {
            Some(client) => Some(ControlView::PeerJoined(client)),
            None => None,
        },
        ControlKind::Unknown => Some(ControlView::Unknown(message)),
    }
}

/// The message that carries a control message.
pub open spec fn spec_encode_control(control: ControlView) -> MessageView {
    match control {
        ControlView::RoomCreated(response) => MessageView {
            msg_type: spec_response_type("room/create"@),
            data: CreateRoomResponse::spec_to_json(response),
        },
        ControlView::RoomJoined(response) => MessageView {
            msg_type: spec_response_type("room/join"@),
            data: JoinRoomResponse::spec_to_json(response),
        },
        ControlView::PeerJoined(client) => MessageView {
            msg_type: spec_notification_type("room/join"@),
            data: ClientData::spec_to_json(client),
        },
        ControlView::Unknown(message) => message,
    }
}

impl ControlMessage {
    /// Reads a message of the control channel; `None` where its payload is
    /// not what its tag announces.
    pub fn decode(message: Message) -> (r: Option<ControlMessage>)
        ensures
            control_view(r) == spec_decode_control(message@),
    {
        match control_kind(&message.msg_type) {
            ControlKind::CreateRoomResponse => match CreateRoomResponse::from_json(&message.data) {
                Some(response) => Some(ControlMessage::RoomCreated(response)),
                None => None,
            },
            ControlKind::JoinRoomResponse => match JoinRoomResponse::from_json(&message.data) {
                Some(response) => Some(ControlMessage::RoomJoined(response)),
                None => None,
            },
            ControlKind::JoinRoomNotification => match ClientData::from_json(&message.data) {
                Some(client) => Some(ControlMessage::PeerJoined(client)),
                None => None,
            },
            ControlKind::Unknown => Some(ControlMessage::Unknown(message)),
        }
    }

    /// The message that carries this control message.
    pub fn to_message(&self) -> (r: Message)
        ensures
            r@ == spec_encode_control(self@),
    {
        match self {
            ControlMessage::RoomCreated(response) => Message::new(
                response_type("room/create"),
                response.to_json(),
            ),
            ControlMessage::RoomJoined(response) => Message::new(
                response_type("room/join"),
                response.to_json(),
            ),
            ControlMessage::PeerJoined(client) => Message::new(
                notification_type("room/join"),
                client.to_json(),
            ),
            ControlMessage::Unknown(message) => message.duplicate(),
        }
    }
}

/// Reading the message written for a control message gives the control
/// message back. An `Unknown` must hold what it says: a message whose tag is
/// none of the three.
pub proof fn lemma_control_round_trip(control: ControlView)
    requires
        control matches ControlView::Unknown(message) ==> spec_control_kind(message.msg_type)
            == ControlKind::Unknown,
    ensures
        spec_decode_control(spec_encode_control(control)) == Some(control),
{
    lemma_control_tags_differ();
    match control {
        ControlView::RoomCreated(response) => {
            lemma_create_room_response_round_trip(response);
        },
        ControlView::RoomJoined(response) => {
            lemma_join_room_response_round_trip(response);
        },
        ControlView::PeerJoined(client) => {
            lemma_client_data_round_trip(client);
        },
        ControlView::Unknown(_) => {},
    }
}

} // verus!
