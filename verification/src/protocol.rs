//! The payloads that travel on the control channel, each with the JSON
//! object that carries it.
//!
//! A payload is read from an object by the names of its members. A member
//! that the payload does not know is passed over; one that is missing, or
//! holds a value of another type, makes the whole payload unreadable. The
//! one exception is the refusal of a join: an answer that says
//! `success: false` is a refusal whatever else it holds or lacks, so that
//! the reason of the server is never lost to a missing member.

use vstd::prelude::*;
use crate::json::{
    lemma_members_1, lemma_members_2, lemma_members_3, lemma_members_4, no_members, object,
    push_member, Json, JsonView,
};

verus! {

/// The first frame of the rendezvous server: the identity it assigns.
#[derive(Debug, Clone, Copy, PartialEq, Eq)]
pub struct ClientJoinedResponse {
    pub client_id: u32,
}

/// Asks the rendezvous server for a new room, hosted by the sender.
#[derive(Debug, Clone, Copy, PartialEq, Eq)]
pub struct CreateRoomRequest {
    pub max_clients: usize,
    pub send_port: u16,
    pub recv_port: u16,
}

/// The server's answer to [`CreateRoomRequest`].
#[derive(Debug, Clone, PartialEq, Eq)]
pub struct CreateRoomResponse {
    pub room_id: String,
}

/// Asks the rendezvous server for a place in an existing room.
#[derive(Debug, Clone, PartialEq, Eq)]
pub struct JoinRoomRequest {
    pub room_id: String,
    pub send_port: u16,
    pub recv_port: u16,
}

/// The endpoint a peer advertises for its two datagram sockets.
#[derive(Debug, Clone, PartialEq, Eq)]
pub struct NetworkData {
    pub ip: String,
    pub send_port: u16,
    pub recv_port: u16,
}

/// A peer as the rendezvous server describes it.
#[derive(Debug, Clone, PartialEq, Eq)]
pub struct ClientData {
    pub client_id: u32,
    pub network_data: NetworkData,
}

/// The server's answer to [`JoinRoomRequest`].
#[derive(Debug, Clone, PartialEq, Eq)]
pub struct JoinRoomResponse {
    pub success: bool,
    pub room_id: String,
    pub msg: Option<String>,
    pub host_data: Option<ClientData>,
}

/// What the server sends a host when a client has joined its room.
pub type JoinRoomNotification = ClientData;

/// Mathematical model of a [`CreateRoomResponse`].
pub struct CreateRoomResponseView {
    pub room_id: Seq<char>,
}

/// Mathematical model of a [`JoinRoomRequest`].
pub struct JoinRoomRequestView {
    pub room_id: Seq<char>,
    pub send_port: u16,
    pub recv_port: u16,
}

/// Mathematical model of a [`NetworkData`].
pub struct NetworkDataView {
    pub ip: Seq<char>,
    pub send_port: u16,
    pub recv_port: u16,
}

/// Mathematical model of a [`ClientData`].
pub struct ClientDataView {
    pub client_id: u32,
    pub network_data: NetworkDataView,
}

/// Mathematical model of a [`JoinRoomResponse`].
pub struct JoinRoomResponseView {
    pub success: bool,
    pub room_id: Seq<char>,
    pub msg: Option<Seq<char>>,
    pub host_data: Option<ClientDataView>,
}

impl View for CreateRoomResponse {
    type V = CreateRoomResponseView;

    open spec fn view(&self) -> CreateRoomResponseView {
        CreateRoomResponseView { room_id: self.room_id@ }
    }
}

impl View for JoinRoomRequest {
    type V = JoinRoomRequestView;

    open spec fn view(&self) -> JoinRoomRequestView {
        JoinRoomRequestView {
            room_id: self.room_id@,
            send_port: self.send_port,
            recv_port: self.recv_port,
        }
    }
}

impl View for NetworkData {
    type V = NetworkDataView;

    open spec fn view(&self) -> NetworkDataView {
        NetworkDataView { ip: self.ip@, send_port: self.send_port, recv_port: self.recv_port }
    }
}

impl View for ClientData {
    type V = ClientDataView;

    open spec fn view(&self) -> ClientDataView {
        ClientDataView { client_id: self.client_id, network_data: self.network_data@ }
    }
}

/// The model of an optional string.
pub open spec fn text_view(text: Option<String>) -> Option<Seq<char>> {
    match text {
        Some(s) => Some(s@),
        None => None,
    }
}

/// The model of an optional peer.
pub open spec fn client_view(client: Option<ClientData>) -> Option<ClientDataView> {
    match client {
        Some(c) => Some(c@),
        None => None,
    }
}

impl View for JoinRoomResponse {
    type V = JoinRoomResponseView;

    open spec fn view(&self) -> JoinRoomResponseView {
        JoinRoomResponseView {
            success: self.success,
            room_id: self.room_id@,
            msg: text_view(self.msg),
            host_data: client_view(self.host_data),
        }
    }
}

/// The member names of the payloads differ wherever two of them stand in
/// one object.
pub proof fn lemma_member_names_differ()
    ensures
        "max_clients"@ != "send_port"@,
        "max_clients"@ != "recv_port"@,
        "send_port"@ != "recv_port"@,
        "room_id"@ != "send_port"@,
        "room_id"@ != "recv_port"@,
        "ip"@ != "send_port"@,
        "ip"@ != "recv_port"@,
        "client_id"@ != "network_data"@,
        "success"@ != "room_id"@,
        "success"@ != "msg"@,
        "success"@ != "host_data"@,
        "room_id"@ != "msg"@,
        "room_id"@ != "host_data"@,
        "msg"@ != "host_data"@,
{
    reveal_strlit("max_clients");
    reveal_strlit("send_port");
    reveal_strlit("recv_port");
    reveal_strlit("room_id");
    reveal_strlit("ip");
    reveal_strlit("client_id");
    reveal_strlit("network_data");
    reveal_strlit("success");
    reveal_strlit("msg");
    reveal_strlit("host_data");
    assert("max_clients"@.len() == 11);
    assert("send_port"@.len() == 9);
    assert("recv_port"@.len() == 9);
    assert("room_id"@.len() == 7);
    assert("ip"@.len() == 2);
    assert("client_id"@.len() == 9);
    assert("network_data"@.len() == 12);
    assert("success"@.len() == 7);
    assert("msg"@.len() == 3);
    assert("host_data"@.len() == 9);
    assert("send_port"@[0] != "recv_port"@[0]);
    assert("success"@[0] != "room_id"@[0]);
}

impl ClientJoinedResponse {
    /// The object that carries this payload.
    pub open spec fn spec_to_json(self) -> JsonView {
        JsonView::Object(
            Seq::empty().push(("client_id"@, JsonView::Integer(self.client_id as int))),
        )
    }

    /// The payload that an object carries, if it carries one.
    pub open spec fn spec_from_json(doc: JsonView) -> Option<ClientJoinedResponse> {
        match doc.u32_at("client_id"@) {
            Some(client_id) => Some(ClientJoinedResponse { client_id }),
            None => None,
        }
    }

    /// Writes the payload as the object that carries it.
    pub fn to_json(&self) -> (r: Json)
        ensures
            r@ == self.spec_to_json(),
    {
        let mut members = no_members();
        push_member(&mut members, "client_id", Json::Unsigned(self.client_id as u64));
        object(members)
    }

    /// Reads the payload from an object; `None` where the object does not
    /// carry one.
    pub fn from_json(doc: &Json) -> (r: Option<ClientJoinedResponse>)
        ensures
            r == Self::spec_from_json(doc@),
    {
        match doc.u32_at("client_id") {
            Some(client_id) => Some(ClientJoinedResponse { client_id }),
            None => None,
        }
    }
}

impl CreateRoomRequest {
    /// The object that carries this payload.
    pub open spec fn spec_to_json(self) -> JsonView {
        JsonView::Object(
            Seq::empty().push(("max_clients"@, JsonView::Integer(self.max_clients as int))).push(
                ("send_port"@, JsonView::Integer(self.send_port as int)),
            ).push(("recv_port"@, JsonView::Integer(self.recv_port as int))),
        )
    }

    /// The payload that an object carries, if it carries one.
    pub open spec fn spec_from_json(doc: JsonView) -> Option<CreateRoomRequest> {
        match (doc.usize_at("max_clients"@), doc.u16_at("send_port"@), doc.u16_at("recv_port"@)) {
            (Some(max_clients), Some(send_port), Some(recv_port)) => Some(
                CreateRoomRequest { max_clients, send_port, recv_port },
            ),
            _ => None,
        }
    }

    /// Writes the payload as the object that carries it.
    pub fn to_json(&self) -> (r: Json)
        ensures
            r@ == self.spec_to_json(),
    {
        let mut members = no_members();
        push_member(&mut members, "max_clients", Json::Unsigned(self.max_clients as u64));
        push_member(&mut members, "send_port", Json::Unsigned(self.send_port as u64));
        push_member(&mut members, "recv_port", Json::Unsigned(self.recv_port as u64));
        object(members)
    }

    /// Reads the payload from an object; `None` where the object does not
    /// carry one.
    pub fn from_json(doc: &Json) -> (r: Option<CreateRoomRequest>)
        ensures
            r == Self::spec_from_json(doc@),
    {
        let max_clients = doc.usize_at("max_clients");
        let send_port = doc.u16_at("send_port");
        let recv_port = doc.u16_at("recv_port");
        match (max_clients, send_port, recv_port) {
            (Some(max_clients), Some(send_port), Some(recv_port)) => Some(
                CreateRoomRequest { max_clients, send_port, recv_port },
            ),
            _ => None,
        }
    }
}

impl CreateRoomResponse {
    /// The object that carries a payload.
    pub open spec fn spec_to_json(payload: CreateRoomResponseView) -> JsonView {
        JsonView::Object(Seq::empty().push(("room_id"@, JsonView::Text(payload.room_id))))
    }

    /// The payload that an object carries, if it carries one.
    pub open spec fn spec_from_json(doc: JsonView) -> Option<CreateRoomResponseView> {
        match doc.text_at("room_id"@) {
            Some(room_id) => Some(CreateRoomResponseView { room_id }),
            None => None,
        }
    }

    /// Writes the payload as the object that carries it.
    pub fn to_json(&self) -> (r: Json)
        ensures
            r@ == Self::spec_to_json(self@),
    {
        let mut members = no_members();
        push_member(&mut members, "room_id", Json::Text(self.room_id.clone()));
        object(members)
    }

    /// Reads the payload from an object; `None` where the object does not
    /// carry one.
    pub fn from_json(doc: &Json) -> (r: Option<CreateRoomResponse>)
        ensures
            match r {
                Some(payload) => Self::spec_from_json(doc@) == Some(payload@),
                None => Self::spec_from_json(doc@) is None,
            },
    {
        match doc.text_at("room_id") {
            Some(room_id) => Some(CreateRoomResponse { room_id }),
            None => None,
        }
    }
}

impl JoinRoomRequest {
    /// The object that carries a payload.
    pub open spec fn spec_to_json(payload: JoinRoomRequestView) -> JsonView {
        JsonView::Object(
            Seq::empty().push(("room_id"@, JsonView::Text(payload.room_id))).push(
                ("send_port"@, JsonView::Integer(payload.send_port as int)),
            ).push(("recv_port"@, JsonView::Integer(payload.recv_port as int))),
        )
    }

    /// The payload that an object carries, if it carries one.
    pub open spec fn spec_from_json(doc: JsonView) -> Option<JoinRoomRequestView> {
        match (doc.text_at("room_id"@), doc.u16_at("send_port"@), doc.u16_at("recv_port"@)) {
            (Some(room_id), Some(send_port), Some(recv_port)) => Some(
                JoinRoomRequestView { room_id, send_port, recv_port },
            ),
            _ => None,
        }
    }

    /// Writes the payload as the object that carries it.
    pub fn to_json(&self) -> (r: Json)
        ensures
            r@ == Self::spec_to_json(self@),
    {
        let mut members = no_members();
        push_member(&mut members, "room_id", Json::Text(self.room_id.clone()));
        push_member(&mut members, "send_port", Json::Unsigned(self.send_port as u64));
        push_member(&mut members, "recv_port", Json::Unsigned(self.recv_port as u64));
        object(members)
    }

    /// Reads the payload from an object; `None` where the object does not
    /// carry one.
    pub fn from_json(doc: &Json) -> (r: Option<JoinRoomRequest>)
        ensures
            match r {
                Some(payload) => Self::spec_from_json(doc@) == Some(payload@),
                None => Self::spec_from_json(doc@) is None,
            },
    {
        let room_id = doc.text_at("room_id");
        let send_port = doc.u16_at("send_port");
        let recv_port = doc.u16_at("recv_port");
        match (room_id, send_port, recv_port) {
            (Some(room_id), Some(send_port), Some(recv_port)) => Some(
                JoinRoomRequest { room_id, send_port, recv_port },
            ),
            _ => None,
        }
    }
}

impl NetworkData {
    /// The object that carries a payload.
    pub open spec fn spec_to_json(payload: NetworkDataView) -> JsonView {
        JsonView::Object(
            Seq::empty().push(("ip"@, JsonView::Text(payload.ip))).push(
                ("send_port"@, JsonView::Integer(payload.send_port as int)),
            ).push(("recv_port"@, JsonView::Integer(payload.recv_port as int))),
        )
    }

    /// The payload that an object carries, if it carries one.
    pub open spec fn spec_from_json(doc: JsonView) -> Option<NetworkDataView> {
        match (doc.text_at("ip"@), doc.u16_at("send_port"@), doc.u16_at("recv_port"@)) {
            (Some(ip), Some(send_port), Some(recv_port)) => Some(
                NetworkDataView { ip, send_port, recv_port },
            ),
            _ => None,
        }
    }

    /// Writes the payload as the object that carries it.
    pub fn to_json(&self) -> (r: Json)
        ensures
            r@ == Self::spec_to_json(self@),
    {
        let mut members = no_members();
        push_member(&mut members, "ip", Json::Text(self.ip.clone()));
        push_member(&mut members, "send_port", Json::Unsigned(self.send_port as u64));
        push_member(&mut members, "recv_port", Json::Unsigned(self.recv_port as u64));
        object(members)
    }

    /// Reads the payload from an object; `None` where the object does not
    /// carry one.
    pub fn from_json(doc: &Json) -> (r: Option<NetworkData>)
        ensures
            match r {
                Some(payload) => Self::spec_from_json(doc@) == Some(payload@),
                None => Self::spec_from_json(doc@) is None,
            },
    {
        let ip = doc.text_at("ip");
        let send_port = doc.u16_at("send_port");
        let recv_port = doc.u16_at("recv_port");
        match (ip, send_port, recv_port) {
            (Some(ip), Some(send_port), Some(recv_port)) => Some(
                NetworkData { ip, send_port, recv_port },
            ),
            _ => None,
        }
    }

    /// A copy of the endpoint.
    pub fn duplicate(&self) -> (r: NetworkData)
        ensures
            r@ == self@,
    {
        NetworkData { ip: self.ip.clone(), send_port: self.send_port, recv_port: self.recv_port }
    }
}

impl ClientData {
    /// The object that carries a payload.
    pub open spec fn spec_to_json(payload: ClientDataView) -> JsonView {
        JsonView::Object(
            Seq::empty().push(("client_id"@, JsonView::Integer(payload.client_id as int))).push(
                ("network_data"@, NetworkData::spec_to_json(payload.network_data)),
            ),
        )
    }

    /// The payload that an object carries, if it carries one.
    pub open spec fn spec_from_json(doc: JsonView) -> Option<ClientDataView> {
        match (doc.u32_at("client_id"@), doc.member("network_data"@)) {
            (Some(client_id), Some(inner)) => match NetworkData::spec_from_json(inner) {
                Some(network_data) => Some(ClientDataView { client_id, network_data }),
                None => None,
            },
            _ => None,
        }
    }

    /// Writes the payload as the object that carries it.
    pub fn to_json(&self) -> (r: Json)
        ensures
            r@ == Self::spec_to_json(self@),
    {
        let mut members = no_members();
        push_member(&mut members, "client_id", Json::Unsigned(self.client_id as u64));
        push_member(&mut members, "network_data", self.network_data.to_json());
        object(members)
    }

    /// Reads the payload from an object; `None` where the object does not
    /// carry one.
    pub fn from_json(doc: &Json) -> (r: Option<ClientData>)
        ensures
            match r {
                Some(payload) => Self::spec_from_json(doc@) == Some(payload@),
                None => Self::spec_from_json(doc@) is None,
            },
    {
        let client_id = doc.u32_at("client_id");
        let inner = doc.get("network_data");
        match (client_id, inner) {
            (Some(client_id), Some(inner)) => match NetworkData::from_json(inner) {
                Some(network_data) => Some(ClientData { client_id, network_data }),
                None => None,
            },
            _ => None,
        }
    }

    /// A copy of the peer's description.
    pub fn duplicate(&self) -> (r: ClientData)
        ensures
            r@ == self@,
    {
        ClientData { client_id: self.client_id, network_data: self.network_data.duplicate() }
    }
}

/// The document that stands for an optional string: `null` where there is
/// none.
pub open spec fn spec_optional_text(text: Option<Seq<char>>) -> JsonView {
    match text {
        Some(s) => JsonView::Text(s),
        None => JsonView::Null,
    }
}

/// The document that stands for an optional peer: `null` where there is
/// none.
pub open spec fn spec_optional_client(client: Option<ClientDataView>) -> JsonView {
    match client {
        Some(c) => ClientData::spec_to_json(c),
        None => JsonView::Null,
    }
}

/// The peer under `key` that may be left out: `Some(None)` where the object
/// has no such member or holds `null` there, `None` where what it holds
/// does not carry a peer.
pub open spec fn spec_optional_client_at(doc: JsonView, key: Seq<char>) -> Option<
    Option<ClientDataView>,
> {
    match doc.optional_at(key) {
        None => Some(None),
        Some(inner) => match ClientData::spec_from_json(inner) {
            Some(c) => Some(Some(c)),
            None => None,
        },
    }
}

impl JoinRoomResponse {
    /// The object that carries a payload.
    pub open spec fn spec_to_json(payload: JoinRoomResponseView) -> JsonView {
        JsonView::Object(
            Seq::empty().push(("success"@, JsonView::Bool(payload.success))).push(
                ("room_id"@, JsonView::Text(payload.room_id)),
            ).push(("msg"@, spec_optional_text(payload.msg))).push(
                ("host_data"@, spec_optional_client(payload.host_data)),
            ),
        )
    }

    /// The refusal that an object reports, once it is known to report one.
    /// A refusal is read as far as it goes: the room is empty where the
    /// object names none, and the reason and the host are taken where they
    /// are there and well formed.
    pub open spec fn spec_refusal(doc: JsonView) -> JoinRoomResponseView {
        JoinRoomResponseView {
            success: false,
            room_id: match doc.text_at("room_id"@) {
                Some(room_id) => room_id,
                None => Seq::empty(),
            },
            msg: match doc.optional_text_at("msg"@) {
                Some(msg) => msg,
                None => None,
            },
            host_data: match spec_optional_client_at(doc, "host_data"@) {
                Some(host_data) => host_data,
                None => None,
            },
        }
    }

    /// The grant that an object reports, once it is known to report one; it
    /// must name the room, and what it says of the reason and the host must
    /// be well formed.
    pub open spec fn spec_grant(doc: JsonView) -> Option<JoinRoomResponseView> {
        match (
            doc.text_at("room_id"@),
            doc.optional_text_at("msg"@),
            spec_optional_client_at(doc, "host_data"@),
        ) {
            (Some(room_id), Some(msg), Some(host_data)) => Some(
                JoinRoomResponseView { success: true, room_id, msg, host_data },
            ),
            _ => None,
        }
    }

    /// The payload that an object carries, if it carries one. The object
    /// must say whether the join succeeded. A refusal is a refusal whatever
    /// else the object holds or lacks; a grant must be complete.
    pub open spec fn spec_from_json(doc: JsonView) -> Option<JoinRoomResponseView> {
        match doc.bool_at("success"@) {
            Some(true) => Self::spec_grant(doc),
            Some(false) => Some(Self::spec_refusal(doc)),
            None => None,
        }
    }

    /// Writes the payload as the object that carries it.
    pub fn to_json(&self) -> (r: Json)
        ensures
            r@ == Self::spec_to_json(self@),
    {
        let mut members = no_members();
        push_member(&mut members, "success", Json::Bool(self.success));
        push_member(&mut members, "room_id", Json::Text(self.room_id.clone()));
        let msg = match &self.msg {
            Some(s) => Json::Text(s.clone()),
            None => Json::Null,
        };
        push_member(&mut members, "msg", msg);
        let host_data = match &self.host_data {
            Some(c) => c.to_json(),
            None => Json::Null,
        };
        push_member(&mut members, "host_data", host_data);
        object(members)
    }

    /// Reads the payload from an object; `None` where the object does not
    /// carry one.
    pub fn from_json(doc: &Json) -> (r: Option<JoinRoomResponse>)
        ensures
            match r {
                Some(payload) => Self::spec_from_json(doc@) == Some(payload@),
                None => Self::spec_from_json(doc@) is None,
            },
    {
        let room_id = doc.text_at("room_id");
        let msg = doc.optional_text_at("msg");
        let host_data: Option<Option<ClientData>> = match doc.optional_at("host_data") {
            None => Some(None),
            Some(inner) => match ClientData::from_json(inner) {
                Some(c) => Some(Some(c)),
                None => None,
            },
        };
        match doc.bool_at("success") {
            Some(true) => match (room_id, msg, host_data) {
                (Some(room_id), Some(msg), Some(host_data)) => Some(
                    JoinRoomResponse { success: true, room_id, msg, host_data },
                ),
                _ => None,
            },
            Some(false) => Some(
                JoinRoomResponse {
                    success: false,
                    room_id: match room_id {
                        Some(room_id) => room_id,
                        None => String::new(),
                    },
                    msg: match msg {
                        Some(msg) => msg,
                        None => None,
                    },
                    host_data: match host_data {
                        Some(host_data) => host_data,
                        None => None,
                    },
                },
            ),
            None => None,
        }
    }
}

/// A refusal is read from any object that says `success: false`: nothing
/// else needs to be there. The reason it carries is the string under `msg`,
/// where there is one.
pub proof fn lemma_refusal_needs_nothing_else(doc: JsonView)
    requires
        doc.bool_at("success"@) == Some(false),
    ensures
        JoinRoomResponse::spec_from_json(doc) is Some,
        !JoinRoomResponse::spec_from_json(doc)->0.success,
        JoinRoomResponse::spec_from_json(doc)->0.msg == match doc.member("msg"@) {
            Some(JsonView::Text(reason)) => Some(reason),
            _ => None,
        },
{
}

/// Reading the object written for an assigned identity gives the identity
/// back.
pub proof fn lemma_client_joined_round_trip(payload: ClientJoinedResponse)
    ensures
        ClientJoinedResponse::spec_from_json(payload.spec_to_json()) == Some(payload),
{
    lemma_members_1("client_id"@, JsonView::Integer(payload.client_id as int));
}

/// Reading the object written for a request to create a room gives the
/// request back.
pub proof fn lemma_create_room_request_round_trip(payload: CreateRoomRequest)
    ensures
        CreateRoomRequest::spec_from_json(payload.spec_to_json()) == Some(payload),
{
    lemma_member_names_differ();
    lemma_members_3(
        "max_clients"@,
        JsonView::Integer(payload.max_clients as int),
        "send_port"@,
        JsonView::Integer(payload.send_port as int),
        "recv_port"@,
        JsonView::Integer(payload.recv_port as int),
    );
}

/// Reading the object written for an answer to a created room gives the
/// answer back.
pub proof fn lemma_create_room_response_round_trip(payload: CreateRoomResponseView)
    ensures
        CreateRoomResponse::spec_from_json(CreateRoomResponse::spec_to_json(payload)) == Some(
            payload,
        ),
{
    lemma_members_1("room_id"@, JsonView::Text(payload.room_id));
}

/// Reading the object written for a request to join a room gives the
/// request back.
pub proof fn lemma_join_room_request_round_trip(payload: JoinRoomRequestView)
    ensures
        JoinRoomRequest::spec_from_json(JoinRoomRequest::spec_to_json(payload)) == Some(payload),
{
    lemma_member_names_differ();
    lemma_members_3(
        "room_id"@,
        JsonView::Text(payload.room_id),
        "send_port"@,
        JsonView::Integer(payload.send_port as int),
        "recv_port"@,
        JsonView::Integer(payload.recv_port as int),
    );
}

/// Reading the object written for an endpoint gives the endpoint back.
pub proof fn lemma_network_data_round_trip(payload: NetworkDataView)
    ensures
        NetworkData::spec_from_json(NetworkData::spec_to_json(payload)) == Some(payload),
{
    lemma_member_names_differ();
    lemma_members_3(
        "ip"@,
        JsonView::Text(payload.ip),
        "send_port"@,
        JsonView::Integer(payload.send_port as int),
        "recv_port"@,
        JsonView::Integer(payload.recv_port as int),
    );
}

/// Reading the object written for a peer gives the peer back.
pub proof fn lemma_client_data_round_trip(payload: ClientDataView)
    ensures
        ClientData::spec_from_json(ClientData::spec_to_json(payload)) == Some(payload),
{
    lemma_member_names_differ();
    lemma_network_data_round_trip(payload.network_data);
    lemma_members_2(
        "client_id"@,
        JsonView::Integer(payload.client_id as int),
        "network_data"@,
        NetworkData::spec_to_json(payload.network_data),
    );
}

/// Reading the object written for an answer to a join gives the answer
/// back.
pub proof fn lemma_join_room_response_round_trip(payload: JoinRoomResponseView)
    ensures
        JoinRoomResponse::spec_from_json(JoinRoomResponse::spec_to_json(payload)) == Some(payload),
{
    lemma_member_names_differ();
    if payload.host_data is Some {
        lemma_client_data_round_trip(payload.host_data->0);
    }
    lemma_members_4(
        "success"@,
        JsonView::Bool(payload.success),
        "room_id"@,
        JsonView::Text(payload.room_id),
        "msg"@,
        spec_optional_text(payload.msg),
        "host_data"@,
        spec_optional_client(payload.host_data),
    );
}

} // verus!
