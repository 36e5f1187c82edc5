//! The envelope that every frame carries, on the control channel and
//! between peers alike: a type tag and a payload.

use vstd::prelude::*;
use vstd::string::StringExecFns;
use crate::json::{
    lemma_members_2, no_members, object, parsed_json, printed_json, push_member, same_text, Json,
    JsonView,
};

verus! {

/// The largest frame that a receive buffer takes.
pub const FRAME_CAPACITY: usize = 4096;

/// A frame: what kind of message it is, and what it carries.
#[derive(Debug, PartialEq)]
pub struct Message {
    pub msg_type: String,
    pub data: Json,
}

/// Mathematical model of a [`Message`].
pub struct MessageView {
    pub msg_type: Seq<char>,
    pub data: JsonView,
}

impl View for Message {
    type V = MessageView;

    open spec fn view(&self) -> MessageView {
        MessageView { msg_type: self.msg_type@, data: self.data@ }
    }
}

/// The model of an optional message.
pub open spec fn message_view(message: Option<Message>) -> Option<MessageView> {
    match message {
        Some(m) => Some(m@),
        None => None,
    }
}

/// The object that carries a message: its tag under `type`, its payload
/// under `data`.
pub open spec fn spec_envelope(message: MessageView) -> JsonView {
    JsonView::Object(
        Seq::empty().push(("type"@, JsonView::Text(message.msg_type))).push(
            ("data"@, message.data),
        ),
    )
}

/// The message that an object carries: it needs a string under `type` and
/// any payload, `null` included, under `data`.
pub open spec fn spec_open_envelope(doc: JsonView) -> Option<MessageView> {
    match (doc.text_at("type"@), doc.member("data"@)) {
        (Some(msg_type), Some(data)) => Some(MessageView { msg_type, data }),
        _ => None,
    }
}

/// The bytes of a frame that carries a message, where the payload can be
/// written.
pub open spec fn spec_frame(message: MessageView) -> Option<Seq<u8>> {
    printed_json(spec_envelope(message))
}

/// The message that the bytes of a frame carry, if they carry one.
pub open spec fn spec_read_frame(frame: Seq<u8>) -> Option<MessageView> {
    match parsed_json(frame) {
        Some(doc) => spec_open_envelope(doc),
        None => None,
    }
}

/// The tag of the answer to a request.
pub open spec fn spec_response_type(request: Seq<char>) -> Seq<char> {
    "@response "@ + request
}

/// The tag of the notice that a request of another party causes.
pub open spec fn spec_notification_type(request: Seq<char>) -> Seq<char> {
    "@notification "@ + request
}

/// The tag of the answer to a request.
pub fn response_type(request: &str) -> (r: String)
    ensures
        r@ == spec_response_type(request@),
{
    let mut tag = String::from_str("@response ");
    tag.append(request);
    tag
}

/// The tag of the notice that a request of another party causes.
pub fn notification_type(request: &str) -> (r: String)
    ensures
        r@ == spec_notification_type(request@),
{
    let mut tag = String::from_str("@notification ");
    tag.append(request);
    tag
}

/// The kinds of message that the rendezvous server sends once a client is
/// registered.
#[derive(Debug, Clone, Copy, PartialEq, Eq, Structural)]
pub enum ControlKind {
    /// The answer to `room/create`.
    CreateRoomResponse,
    /// The answer to `room/join`.
    JoinRoomResponse,
    /// The notice to a host that a client has joined.
    JoinRoomNotification,
    /// Any other tag.
    Unknown,
}

/// The kind of a control message, by its tag.
pub open spec fn spec_control_kind(msg_type: Seq<char>) -> ControlKind {
    if msg_type == spec_response_type("room/create"@) {
        ControlKind::CreateRoomResponse
    } else if msg_type == spec_response_type("room/join"@) {
        ControlKind::JoinRoomResponse
    } else if msg_type == spec_notification_type("room/join"@) {
        ControlKind::JoinRoomNotification
    } else {
        ControlKind::Unknown
    }
}

/// The kind of a control message, by its tag.
pub fn control_kind(msg_type: &String) -> (r: ControlKind)
    ensures
        r == spec_control_kind(msg_type@),
{
    let created = response_type("room/create");
    let joined = response_type("room/join");
    let peer_joined = notification_type("room/join");
    if same_text(msg_type, created.as_str()) {
        ControlKind::CreateRoomResponse
    } else if same_text(msg_type, joined.as_str()) {
        ControlKind::JoinRoomResponse
    } else if same_text(msg_type, peer_joined.as_str()) {
        ControlKind::JoinRoomNotification
    } else {
        ControlKind::Unknown
    }
}

/// The kinds of message that peers send each other.
#[derive(Debug, Clone, Copy, PartialEq, Eq, Structural)]
pub enum DataKind {
    /// `connection/hole-punch`: it opens a NAT binding and says nothing.
    HolePunch,
    /// `connection/keep-alive`: it keeps the binding open and says nothing.
    KeepAlive,
    /// Any other tag: a message of the application, whose payload this
    /// layer does not read.
    Application,
}

/// The kind of a message between peers, by its tag.
pub open spec fn spec_data_kind(msg_type: Seq<char>) -> DataKind {
    if msg_type == "connection/hole-punch"@ {
        DataKind::HolePunch
    } else if msg_type == "connection/keep-alive"@ {
        DataKind::KeepAlive
    } else {
        DataKind::Application
    }
}

/// The kind of a message between peers, by its tag.
pub fn data_kind(msg_type: &String) -> (r: DataKind)
    ensures
        r == spec_data_kind(msg_type@),
{
    if same_text(msg_type, "connection/hole-punch") {
        DataKind::HolePunch
    } else if same_text(msg_type, "connection/keep-alive") {
        DataKind::KeepAlive
    } else {
        DataKind::Application
    }
}

impl Message {
    /// A message with the given tag and payload.
    pub fn new(msg_type: String, data: Json) -> (r: Message)
        ensures
            r@ == (MessageView { msg_type: msg_type@, data: data@ }),
    {
        Message { msg_type, data }
    }

    /// The datagram that opens a NAT binding for the sender.
    pub open spec fn spec_hole_punch() -> MessageView {
        MessageView { msg_type: "connection/hole-punch"@, data: JsonView::Object(Seq::empty()) }
    }

    /// The datagram that keeps such a binding from expiring.
    pub open spec fn spec_keep_alive() -> MessageView {
        MessageView { msg_type: "connection/keep-alive"@, data: JsonView::Object(Seq::empty()) }
    }

    /// The datagram that opens a NAT binding for the sender.
    pub fn hole_punch() -> (r: Message)
        ensures
            r@ == Self::spec_hole_punch(),
    {
        Message { msg_type: String::from_str("connection/hole-punch"), data: object(no_members()) }
    }

    /// The datagram that keeps such a binding from expiring.
    pub fn keep_alive() -> (r: Message)
        ensures
            r@ == Self::spec_keep_alive(),
    {
        Message { msg_type: String::from_str("connection/keep-alive"), data: object(no_members()) }
    }

    /// The kind of the message, as one between peers.
    pub fn data_kind(&self) -> (r: DataKind)
        ensures
            r == spec_data_kind(self@.msg_type),
    {
        data_kind(&self.msg_type)
    }

    /// A copy of the message.
    pub fn duplicate(&self) -> (r: Message)
        ensures
            r@ == self@,
    {
        Message { msg_type: self.msg_type.clone(), data: self.data.duplicate() }
    }

    /// The object that carries the message.
    pub fn to_json(&self) -> (r: Json)
        ensures
            r@ == spec_envelope(self@),
    {
        let mut members = no_members();
        push_member(&mut members, "type", Json::Text(self.msg_type.clone()));
        push_member(&mut members, "data", self.data.duplicate());
        object(members)
    }

    /// The message that an object carries, if it carries one.
    pub fn from_json(doc: &Json) -> (r: Option<Message>)
        ensures
            message_view(r) == spec_open_envelope(doc@),
    {
        let msg_type = doc.text_at("type");
        let data = doc.get("data");
        match (msg_type, data) {
            (Some(msg_type), Some(data)) => Some(Message { msg_type, data: data.duplicate() }),
            _ => None,
        }
    }

    /// The bytes of the frame that carries the message; `None` where its
    /// payload cannot be written.
    pub fn to_bytes(&self) -> (r: Option<Vec<u8>>)
        ensures
            match r {
                Some(frame) => spec_frame(self@) == Some(frame@),
                None => spec_frame(self@) is None,
            },
    {
        self.to_json().to_text()
    }

    /// The message that the bytes of a frame carry; `None` for a frame that
    /// is not JSON or not an envelope.
    pub fn from_bytes(frame: &[u8]) -> (r: Option<Message>)
        ensures
            message_view(r) == spec_read_frame(frame@),
    {
        match Json::from_text(frame) {
            Some(doc) => Message::from_json(&doc),
            None => None,
        }
    }
}

/// The two member names of an envelope differ.
pub proof fn lemma_envelope_names_differ()
    ensures
        "type"@ != "data"@,
{
    reveal_strlit("type");
    reveal_strlit("data");
    assert("type"@[0] != "data"@[0]);
}

/// Opening the envelope written for a message gives the message back: the
/// same tag and the same payload.
pub proof fn lemma_envelope_round_trip(message: MessageView)
    ensures
        spec_open_envelope(spec_envelope(message)) == Some(message),
{
    lemma_envelope_names_differ();
    lemma_members_2("type"@, JsonView::Text(message.msg_type), "data"@, message.data);
}

/// The three tags that the portal acts on are three different tags.
pub proof fn lemma_control_tags_differ()
    ensures
        spec_control_kind(spec_response_type("room/create"@)) == ControlKind::CreateRoomResponse,
        spec_control_kind(spec_response_type("room/join"@)) == ControlKind::JoinRoomResponse,
        spec_control_kind(spec_notification_type("room/join"@))
            == ControlKind::JoinRoomNotification,
{
    reveal_strlit("@response ");
    reveal_strlit("@notification ");
    reveal_strlit("room/create");
    reveal_strlit("room/join");
    let created = spec_response_type("room/create"@);
    let joined = spec_response_type("room/join"@);
    let noticed = spec_notification_type("room/join"@);
    assert(created.len() == 21);
    assert(joined.len() == 19);
    assert(noticed.len() == 23);
}

/// The two datagrams that a link sends on its own account are of their own
/// kinds, and no control tag is mistaken for one of them.
pub proof fn lemma_connection_tags_differ()
    ensures
        spec_data_kind(Message::spec_hole_punch().msg_type) == DataKind::HolePunch,
        spec_data_kind(Message::spec_keep_alive().msg_type) == DataKind::KeepAlive,
        spec_control_kind("connection/hole-punch"@) == ControlKind::Unknown,
        spec_control_kind("connection/keep-alive"@) == ControlKind::Unknown,
{
    reveal_strlit("connection/hole-punch");
    reveal_strlit("connection/keep-alive");
    reveal_strlit("@response ");
    reveal_strlit("@notification ");
    reveal_strlit("room/create");
    reveal_strlit("room/join");
    assert("connection/hole-punch"@.len() == 21);
    assert("connection/keep-alive"@.len() == 21);
    assert("connection/hole-punch"@[11] != "connection/keep-alive"@[11]);
    assert(spec_response_type("room/create"@)[0] == '@');
    assert(spec_response_type("room/join"@).len() == 19);
    assert(spec_notification_type("room/join"@).len() == 23);
}

} // verus!
