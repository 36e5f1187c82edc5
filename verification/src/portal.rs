//! The portal: what this process knows of the rendezvous server, of its
//! room and of its peers, and how each control message changes that.
//!
//! The portal decides and remembers; it sends and receives nothing. Every
//! frame that arrives is handed to it, and every datagram that leaves is
//! asked of it.

use vstd::prelude::*;
use vstd::string::StringExecFns;
use crate::control::{spec_decode_control, ControlMessage, ControlView};
use crate::json::JsonView;
use crate::link::{datagram_view, Datagram, DatagramView, LinkOp, PeerConnection, PeerView};
use crate::link::KEEP_ALIVE_INTERVAL_SECS;
use crate::queue::QueueView;
use crate::message::{spec_control_kind, spec_read_frame, ControlKind, Message, MessageView};
use crate::protocol::{
    lemma_refusal_needs_nothing_else, text_view, ClientData, ClientDataView, ClientJoinedResponse, CreateRoomRequest,
    CreateRoomResponse, CreateRoomResponseView, JoinRoomRequest, JoinRoomRequestView,
    JoinRoomResponse, JoinRoomResponseView,
};

verus! {

/// How many clients a room that this process creates admits.
pub const MAX_CLIENTS: usize = 2;

/// How this process takes part in the network.
#[derive(Debug, Clone, Copy, PartialEq, Eq, Structural)]
pub enum NetworkMode {
    /// Not at all: the game runs alone.
    Offline,
    /// It creates a room and hosts it.
    Host,
    /// It joins the room of another process.
    Client,
}

/// The session with the rendezvous server: the identity it assigned, and
/// whether the connection still stands.
#[derive(Debug, Clone, Copy, PartialEq, Eq, Structural)]
pub struct RendezvousConnector {
    pub client_id: u32,
    pub connected: bool,
}

/// The two shared datagram sockets, by the ports they are bound to.
#[derive(Debug, Clone, Copy, PartialEq, Eq, Structural)]
pub struct CommunicationSockets {
    /// The port of the socket that application messages are sent from.
    pub send_port: u16,
    /// The port of the socket that datagrams are received on.
    pub recv_port: u16,
}

/// The part this process plays in its room.
#[derive(Debug)]
pub enum RoomConnectionType {
    /// It hosts the room; the peers are the clients, in the order in which
    /// they joined.
    Host(Vec<PeerConnection>),
    /// It has joined the room; the peer is the host.
    Client(PeerConnection),
}

/// The room this process is in.
#[derive(Debug)]
pub struct RoomConnection {
    pub room_id: String,
    pub room_host: u32,
    pub connection_type: RoomConnectionType,
}

/// Everything the networking layer of this process knows.
#[derive(Debug)]
pub struct TransmissionNetworkPortal {
    rendezvous_connection: Option<RendezvousConnector>,
    room_connection: Option<RoomConnection>,
    sockets: Option<CommunicationSockets>,
}

/// Mathematical model of a [`RoomConnectionType`].
pub enum RoleView {
    Host(Seq<PeerView>),
    Client(PeerView),
}

impl RoleView {
    /// The links of the room, in their order; a client has one, to the
    /// host.
    pub open spec fn peers(self) -> Seq<PeerView> {
        match self {
            RoleView::Host(peers) => peers,
            RoleView::Client(peer) => seq![peer],
        }
    }

    /// The role with the link at `index` replaced.
    pub open spec fn with_peer(self, index: int, peer: PeerView) -> RoleView {
        match self {
            RoleView::Host(peers) => RoleView::Host(peers.update(index, peer)),
            RoleView::Client(_) => RoleView::Client(peer),
        }
    }

    /// The role after `message` has been offered to the queue of every
    /// link.
    pub open spec fn published(self, message: MessageView) -> RoleView {
        match self {
            RoleView::Host(peers) => RoleView::Host(
                Seq::new(peers.len(), |i: int| peers[i].offer(message)),
            ),
            RoleView::Client(peer) => RoleView::Client(peer.offer(message)),
        }
    }
}

/// Mathematical model of a [`RoomConnection`].
pub struct RoomView {
    pub room_id: Seq<char>,
    pub room_host: u32,
    pub role: RoleView,
}

impl View for RoomConnectionType {
    type V = RoleView;

    open spec fn view(&self) -> RoleView {
        match self {
            RoomConnectionType::Host(peers) => RoleView::Host(
                peers@.map_values(|p: PeerConnection| p@),
            ),
            RoomConnectionType::Client(peer) => RoleView::Client(peer@),
        }
    }
}

impl View for RoomConnection {
    type V = RoomView;

    open spec fn view(&self) -> RoomView {
        RoomView {
            room_id: self.room_id@,
            room_host: self.room_host,
            role: self.connection_type@,
        }
    }
}

/// The model of an optional room.
pub open spec fn room_view(room: Option<RoomConnection>) -> Option<RoomView> {
    match room {
        Some(r) => Some(r@),
        None => None,
    }
}

/// Mathematical model of a [`TransmissionNetworkPortal`].
pub struct PortalView {
    pub rendezvous: Option<RendezvousConnector>,
    pub room: Option<RoomView>,
    pub sockets: Option<CommunicationSockets>,
}

impl PortalView {
    /// Whether the portal is registered and its sockets are bound: what
    /// every room operation asks for.
    pub open spec fn is_ready(self) -> bool {
        self.rendezvous is Some && self.sockets is Some
    }

    /// The links of the portal, in their order; none outside a room.
    pub open spec fn peers(self) -> Seq<PeerView> {
        match self.room {
            Some(room) => room.role.peers(),
            None => Seq::empty(),
        }
    }

    /// The portal with the link at `index` replaced.
    pub open spec fn with_peer(self, index: int, peer: PeerView) -> PortalView {
        match self.room {
            Some(room) => PortalView {
                room: Some(RoomView { role: room.role.with_peer(index, peer), ..room }),
                ..self
            },
            None => self,
        }
    }

    /// The portal after `op` has been asked of the link at `index`;
    /// unchanged where there is no such link.
    pub open spec fn after(self, index: int, op: LinkOp) -> PortalView {
        if 0 <= index < self.peers().len() {
            self.with_peer(index, self.peers()[index].after(op))
        } else {
            self
        }
    }

    /// The datagram that `op` hands out when asked of the link at `index`.
    pub open spec fn emitted(self, index: int, op: LinkOp) -> Option<DatagramView> {
        if 0 <= index < self.peers().len() {
            self.peers()[index].emitted(op)
        } else {
            None
        }
    }

    /// The portal after `message` has been published.
    pub open spec fn published(self, message: MessageView) -> PortalView {
        match self.room {
            Some(room) => PortalView {
                room: Some(RoomView { role: room.role.published(message), ..room }),
                ..self
            },
            None => self,
        }
    }
}

/// Why the portal let a control message pass without acting on it.
#[derive(Debug, Clone, Copy, PartialEq, Eq, Structural)]
pub enum Ignored {
    /// The answer to a create or join request came although the room
    /// already stands: a duplicate.
    AlreadyInRoom,
    /// The tag of the message is none that the portal acts on.
    UnknownType,
}

/// What a control message made of the portal.
#[derive(Debug, Clone, Copy, PartialEq, Eq, Structural)]
pub enum Reaction {
    /// The room was created: this process now hosts it, with no peers yet.
    RoomCreated,
    /// A link was opened, to the host of the joined room or to a client
    /// that joined the hosted one; `peer` is its index among the links.
    /// The steps of [`link_plan`] are now due for it.
    Linked { peer: usize },
    /// Nothing changed.
    Ignored(Ignored),
}

/// Why the portal refused a frame or a request.
#[derive(Debug, PartialEq, Eq)]
pub enum PortalError {
    /// The frame is not JSON, not an envelope, or its payload is not what
    /// its tag announces.
    Malformed,
    /// The server has already assigned this process its identity.
    AlreadyRegistered,
    /// The sockets have already been bound.
    SocketsAlreadyBound,
    /// The server refused the join; the text is its reason, if it gave one.
    JoinFailed(Option<String>),
    /// The server granted the join without naming the host.
    MissingHost,
    /// The server announced a client although this process hosts no room.
    NotHosting,
    /// A client was started without the room it is to join.
    MissingRoomId,
    /// The room already has as many links as the machine can count.
    TooManyPeers,
    /// The connection to the rendezvous server is closed.
    Disconnected,
}

/// Mathematical model of a [`PortalError`].
pub enum PortalErrorView {
    Malformed,
    AlreadyRegistered,
    SocketsAlreadyBound,
    JoinFailed(Option<Seq<char>>),
    MissingHost,
    NotHosting,
    MissingRoomId,
    TooManyPeers,
    Disconnected,
}

impl View for PortalError {
    type V = PortalErrorView;

    open spec fn view(&self) -> PortalErrorView {
        match self {
            PortalError::Malformed => PortalErrorView::Malformed,
            PortalError::AlreadyRegistered => PortalErrorView::AlreadyRegistered,
            PortalError::SocketsAlreadyBound => PortalErrorView::SocketsAlreadyBound,
            PortalError::JoinFailed(reason) => PortalErrorView::JoinFailed(
                match reason {
                    Some(s) => Some(s@),
                    None => None,
                },
            ),
            PortalError::MissingHost => PortalErrorView::MissingHost,
            PortalError::NotHosting => PortalErrorView::NotHosting,
            PortalError::MissingRoomId => PortalErrorView::MissingRoomId,
            PortalError::TooManyPeers => PortalErrorView::TooManyPeers,
            PortalError::Disconnected => PortalErrorView::Disconnected,
        }
    }
}

impl PortalErrorView {
    /// The line that reports the error in a log.
    pub open spec fn message(self) -> Seq<char> {
        match self {
            PortalErrorView::Malformed => "malformed frame"@,
            PortalErrorView::AlreadyRegistered => "already registered"@,
            PortalErrorView::SocketsAlreadyBound => "sockets already bound"@,
            PortalErrorView::JoinFailed(Some(reason)) => "failed to join room"@ + ": "@ + reason,
            PortalErrorView::JoinFailed(None) => "failed to join room"@,
            PortalErrorView::MissingHost => "join response names no host"@,
            PortalErrorView::NotHosting => "received a room/join notification while not a host"@,
            PortalErrorView::MissingRoomId => "failed to supply a room id"@,
            PortalErrorView::TooManyPeers => "too many peers"@,
            PortalErrorView::Disconnected => "disconnected from the rendezvous server"@,
        }
    }
}

impl PortalError {
    /// The line that reports the error in a log.
    pub fn message(&self) -> (r: String)
        ensures
            r@ == self@.message(),
    {
        match self {
            PortalError::Malformed => String::from_str("malformed frame"),
            PortalError::AlreadyRegistered => String::from_str("already registered"),
            PortalError::SocketsAlreadyBound => String::from_str("sockets already bound"),
            PortalError::JoinFailed(reason) => {
                let mut line = String::from_str("failed to join room");
                match reason {
                    Some(text) => {
                        line.append(": ");
                        line.append(text.as_str());
                    },
                    None => {},
                }
                line
            },
            PortalError::MissingHost => String::from_str("join response names no host"),
            PortalError::NotHosting => String::from_str(
                "received a room/join notification while not a host",
            ),
            PortalError::MissingRoomId => String::from_str("failed to supply a room id"),
            PortalError::TooManyPeers => String::from_str("too many peers"),
            PortalError::Disconnected => String::from_str(
                "disconnected from the rendezvous server",
            ),
        }
    }
}

/// The model of the outcome of handling a message.
pub open spec fn outcome_view(outcome: Result<Reaction, PortalError>) -> Result<
    Reaction,
    PortalErrorView,
> {
    match outcome {
        Ok(reaction) => Ok(reaction),
        Err(e) => Err(e@),
    }
}

/// The portal after a control message, and what the message made of it.
pub struct Handled {
    pub portal: PortalView,
    pub outcome: Result<Reaction, PortalErrorView>,
}

/// An error leaves the portal as it was.
pub open spec fn refused(portal: PortalView, error: PortalErrorView) -> Handled {
    Handled { portal, outcome: Err(error) }
}

/// The answer to `room/create`: outside a room, this process becomes the
/// host of the new room, with no peers; inside one, the answer is a
/// duplicate and is ignored.
pub open spec fn spec_on_room_created(
    portal: PortalView,
    response: CreateRoomResponseView,
) -> Handled {
    if portal.room is Some {
        Handled { portal, outcome: Ok(Reaction::Ignored(Ignored::AlreadyInRoom)) }
    } else {
        Handled {
            portal: PortalView {
                room: Some(
                    RoomView {
                        room_id: response.room_id,
                        room_host: portal.rendezvous->0.client_id,
                        role: RoleView::Host(Seq::empty()),
                    },
                ),
                ..portal
            },
            outcome: Ok(Reaction::RoomCreated),
        }
    }
}

/// The answer to `room/join`: a refusal is an error, and so is a grant that
/// names no host; outside a room, a grant makes this process a client with
/// a fresh link to the host; inside one, a grant is a duplicate and is
/// ignored.
pub open spec fn spec_on_room_joined(portal: PortalView, response: JoinRoomResponseView) -> Handled {
    if !response.success {
        refused(portal, PortalErrorView::JoinFailed(response.msg))
    } else {
        match response.host_data {
            None => refused(portal, PortalErrorView::MissingHost),
            Some(host) => if portal.room is Some {
                Handled { portal, outcome: Ok(Reaction::Ignored(Ignored::AlreadyInRoom)) }
            } else {
                Handled {
                    portal: PortalView {
                        room: Some(
                            RoomView {
                                room_id: response.room_id,
                                room_host: host.client_id,
                                role: RoleView::Client(PeerView::opened(host)),
                            },
                        ),
                        ..portal
                    },
                    outcome: Ok(Reaction::Linked { peer: 0 }),
                }
            },
        }
    }
}

/// The notice that a client has joined: a host gets a fresh link to the
/// client, behind the links it has; for anyone else the notice is an
/// error.
pub open spec fn spec_on_peer_joined(portal: PortalView, client: ClientDataView) -> Handled {
    match portal.room {
        Some(room) => match room.role {
            RoleView::Host(peers) => if peers.len() < usize::MAX {
                Handled {
                    portal: PortalView {
                        room: Some(
                            RoomView {
                                role: RoleView::Host(peers.push(PeerView::opened(client))),
                                ..room
                            },
                        ),
                        ..portal
                    },
                    outcome: Ok(Reaction::Linked { peer: peers.len() as usize }),
                }
            } else {
                refused(portal, PortalErrorView::TooManyPeers)
            },
            RoleView::Client(_) => refused(portal, PortalErrorView::NotHosting),
        },
        None => refused(portal, PortalErrorView::NotHosting),
    }
}

/// What a control message, once read, makes of a portal that is ready.
pub open spec fn spec_apply(portal: PortalView, control: ControlView) -> Handled {
    match control {
        ControlView::RoomCreated(response) => spec_on_room_created(portal, response),
        ControlView::RoomJoined(response) => spec_on_room_joined(portal, response),
        ControlView::PeerJoined(client) => spec_on_peer_joined(portal, client),
        ControlView::Unknown(_) => Handled {
            portal,
            outcome: Ok(Reaction::Ignored(Ignored::UnknownType)),
        },
    }
}

/// What a message of the control channel makes of a portal that is ready:
/// a payload that is not what the tag announces is an error, and anything
/// else is applied.
pub open spec fn spec_handle(portal: PortalView, message: MessageView) -> Handled {
    match spec_decode_control(message) {
        Some(control) => spec_apply(portal, control),
        None => refused(portal, PortalErrorView::Malformed),
    }
}

/// What a frame of the control channel makes of a portal that is ready.
pub open spec fn spec_handle_frame(portal: PortalView, frame: Seq<u8>) -> Handled {
    match spec_read_frame(frame) {
        Some(message) => spec_handle(portal, message),
        None => refused(portal, PortalErrorView::Malformed),
    }
}

/// The portal after the first frame of the server, and the identity that
/// the frame assigned.
pub struct Registered {
    pub portal: PortalView,
    pub outcome: Result<u32, PortalErrorView>,
}

/// What the first frame of the server makes of a portal: the frame carries
/// the identity of this process, which is assigned once. A frame that is no
/// message, or whose payload names no identity, leaves the portal as it was;
/// so does any frame once the identity is known.
pub open spec fn spec_register(portal: PortalView, first_frame: Seq<u8>) -> Registered {
    if portal.rendezvous is Some {
        Registered { portal, outcome: Err(PortalErrorView::AlreadyRegistered) }
    } else {
        match spec_read_frame(first_frame) {
            None => Registered { portal, outcome: Err(PortalErrorView::Malformed) },
            Some(m) => match ClientJoinedResponse::spec_from_json(m.data) {
                None => Registered { portal, outcome: Err(PortalErrorView::Malformed) },
                Some(response) => Registered {
                    portal: PortalView {
                        rendezvous: Some(
                            RendezvousConnector { client_id: response.client_id, connected: true },
                        ),
                        ..portal
                    },
                    outcome: Ok(response.client_id),
                },
            },
        }
    }
}

/// The model of the outcome of a registration.
pub open spec fn registration_view(outcome: Result<u32, PortalError>) -> Result<
    u32,
    PortalErrorView,
> {
    match outcome {
        Ok(id) => Ok(id),
        Err(e) => Err(e@),
    }
}

/// The message that asks the server for a new room.
pub open spec fn spec_create_room_message(sockets: CommunicationSockets) -> MessageView {
    MessageView {
        msg_type: "room/create"@,
        data: (CreateRoomRequest {
            max_clients: MAX_CLIENTS,
            send_port: sockets.send_port,
            recv_port: sockets.recv_port,
        }).spec_to_json(),
    }
}

/// The message that asks the server for a place in the room `room_id`.
pub open spec fn spec_join_room_message(
    sockets: CommunicationSockets,
    room_id: Seq<char>,
) -> MessageView {
    MessageView {
        msg_type: "room/join"@,
        data: JoinRoomRequest::spec_to_json(
            JoinRoomRequestView {
                room_id,
                send_port: sockets.send_port,
                recv_port: sockets.recv_port,
            },
        ),
    }
}

/// What `create_room` gives on a portal that is ready: the request with
/// the ports of the bound sockets, or an error once the connection to the
/// server is closed.
pub open spec fn spec_create_room(portal: PortalView) -> Result<MessageView, PortalErrorView> {
    if portal.rendezvous->0.connected {
        Ok(spec_create_room_message(portal.sockets->0))
    } else {
        Err(PortalErrorView::Disconnected)
    }
}

/// What `join_room` gives on a portal that is ready: the request with the
/// room and the ports of the bound sockets, or an error once the
/// connection to the server is closed.
pub open spec fn spec_join_room(portal: PortalView, room_id: Seq<char>) -> Result<
    MessageView,
    PortalErrorView,
> {
    if portal.rendezvous->0.connected {
        Ok(spec_join_room_message(portal.sockets->0, room_id))
    } else {
        Err(PortalErrorView::Disconnected)
    }
}

/// The request that a process in `mode` opens with: a host asks for a new
/// room, a client for a place in the room it names, and a client that names
/// none is refused. Without networking there is nothing to ask.
pub open spec fn spec_room_request(
    portal: PortalView,
    mode: NetworkMode,
    room_id: Option<Seq<char>>,
) -> Result<Option<MessageView>, PortalErrorView> {
    match mode {
        NetworkMode::Offline => Ok(None),
        NetworkMode::Host => match spec_create_room(portal) {
            Ok(request) => Ok(Some(request)),
            Err(e) => Err(e),
        },
        NetworkMode::Client => match room_id {
            Some(id) => match spec_join_room(portal, id) {
                Ok(request) => Ok(Some(request)),
                Err(e) => Err(e),
            },
            None => Err(PortalErrorView::MissingRoomId),
        },
    }
}

/// The model of a request or the error in its place.
pub open spec fn request_view(request: Result<Message, PortalError>) -> Result<
    MessageView,
    PortalErrorView,
> {
    match request {
        Ok(m) => Ok(m@),
        Err(e) => Err(e@),
    }
}

/// The model of an opening request, where there is one, or the error in its
/// place.
pub open spec fn opening_view(request: Result<Option<Message>, PortalError>) -> Result<
    Option<MessageView>,
    PortalErrorView,
> {
    match request {
        Ok(Some(m)) => Ok(Some(m@)),
        Ok(None) => Ok(None),
        Err(e) => Err(e@),
    }
}

/// One step of bringing up the link to a peer.
#[derive(Debug, Clone, Copy, PartialEq, Eq, Structural)]
pub enum LinkStep {
    /// Ask the portal for the hole punch of the link and send it.
    HolePunch,
    /// From now on, every `interval_secs` seconds, ask the portal for a
    /// keep-alive of the link and send it.
    KeepAlive { interval_secs: u64 },
    /// From now on, ask the portal for the next waiting message of the
    /// link and send it, again and again.
    SendPump,
}

/// The steps that bring up a link, in the order in which they are due.
pub open spec fn spec_link_plan() -> Seq<LinkStep> {
    seq![
        LinkStep::HolePunch,
        LinkStep::KeepAlive { interval_secs: KEEP_ALIVE_INTERVAL_SECS },
        LinkStep::SendPump,
    ]
}

/// The steps that bring up a link, in the order in which they are due.
pub fn link_plan() -> (r: Vec<LinkStep>)
    ensures
        r@ == spec_link_plan(),
{
    let mut plan: Vec<LinkStep> = Vec::new();
    plan.push(LinkStep::HolePunch);
    plan.push(LinkStep::KeepAlive { interval_secs: KEEP_ALIVE_INTERVAL_SECS });
    plan.push(LinkStep::SendPump);
    proof {
        assert(plan@ =~= spec_link_plan());
    }
    plan
}

impl View for TransmissionNetworkPortal {
    type V = PortalView;

    closed spec fn view(&self) -> PortalView {
        PortalView {
            rendezvous: self.rendezvous_connection,
            room: room_view(self.room_connection),
            sockets: self.sockets,
        }
    }
}

impl TransmissionNetworkPortal {
    /// A portal that knows nothing yet.
    pub fn new() -> (r: TransmissionNetworkPortal)
        ensures
            r@ == (PortalView { rendezvous: None, room: None, sockets: None }),
    {
        TransmissionNetworkPortal { rendezvous_connection: None, room_connection: None, sockets: None }
    }

    /// The identity that the server assigned, once it has.
    pub fn client_id(&self) -> (r: Option<u32>)
        ensures
            match r {
                Some(id) => self@.rendezvous is Some && self@.rendezvous->0.client_id == id,
                None => self@.rendezvous is None,
            },
    {
        match self.rendezvous_connection {
            Some(connector) => Some(connector.client_id),
            None => None,
        }
    }

    /// The ports of the shared sockets, once they are bound.
    pub fn sockets(&self) -> (r: Option<CommunicationSockets>)
        ensures
            r == self@.sockets,
    {
        self.sockets
    }

    /// The room of this process, once it is in one.
    pub fn room_connection(&self) -> (r: Option<&RoomConnection>)
        ensures
            match r {
                Some(room) => self@.room == Some(room@),
                None => self@.room is None,
            },
    {
        self.room_connection.as_ref()
    }

    /// Whether the portal is registered and its sockets are bound.
    pub fn is_ready(&self) -> (r: bool)
        ensures
            r == self@.is_ready(),
    {
        self.rendezvous_connection.is_some() && self.sockets.is_some()
    }

    /// The number of links.
    pub fn peer_count(&self) -> (r: usize)
        ensures
            r == self@.peers().len(),
    {
        match &self.room_connection {
            Some(room) => match &room.connection_type {
                RoomConnectionType::Host(peers) => peers.len(),
                RoomConnectionType::Client(_) => 1,
            },
            None => 0,
        }
    }

    /// Takes the first frame of the server, which carries the identity of
    /// this process; `Ok` holds that identity.
    pub fn rendezvous_init(&mut self, first_frame: &[u8]) -> (r: Result<u32, PortalError>)
        ensures
            final(self)@ == spec_register(old(self)@, first_frame@).portal,
            registration_view(r) == spec_register(old(self)@, first_frame@).outcome,
    {
        if self.rendezvous_connection.is_some() {
            return Err(PortalError::AlreadyRegistered);
        }
        match Message::from_bytes(first_frame) {
            None => Err(PortalError::Malformed),
            Some(message) => match ClientJoinedResponse::from_json(&message.data) {
                None => Err(PortalError::Malformed),
                Some(response) => {
                    self.rendezvous_connection = Some(
                        RendezvousConnector { client_id: response.client_id, connected: true },
                    );
                    Ok(response.client_id)
                },
            },
        }
    }

    /// Records the ports that the two shared sockets were bound to; they
    /// are bound once.
    pub fn bind_sockets(&mut self, send_port: u16, recv_port: u16) -> (r: Result<(), PortalError>)
        ensures
            match r {
                Ok(_) => old(self)@.sockets is None && final(self)@ == (PortalView {
                    sockets: Some(CommunicationSockets { send_port, recv_port }),
                    ..old(self)@
                }),
                Err(e) => old(self)@.sockets is Some && e@ == PortalErrorView::SocketsAlreadyBound
                    && final(self)@ == old(self)@,
            },
    {
        if self.sockets.is_some() {
            return Err(PortalError::SocketsAlreadyBound);
        }
        self.sockets = Some(CommunicationSockets { send_port, recv_port });
        Ok(())
    }

    /// Notes that the connection to the rendezvous server is closed. The
    /// room and the links stay; requests to the server fail from now on.
    pub fn rendezvous_closed(&mut self)
        ensures
            final(self)@ == (PortalView {
                rendezvous: match old(self)@.rendezvous {
                    Some(connector) => Some(RendezvousConnector { connected: false, ..connector }),
                    None => None,
                },
                ..old(self)@
            }),
    {
        match self.rendezvous_connection {
            Some(connector) => {
                self.rendezvous_connection = Some(
                    RendezvousConnector { client_id: connector.client_id, connected: false },
                );
            },
            None => {},
        }
    }

    /// The request that asks the server for a new room, hosted here.
    pub fn create_room(&self) -> (r: Result<Message, PortalError>)
        requires
            self@.is_ready(),
        ensures
            request_view(r) == spec_create_room(self@),
    {
        if !self.rendezvous_connection.unwrap().connected {
            return Err(PortalError::Disconnected);
        }
        let sockets = self.sockets.unwrap();
        let request = CreateRoomRequest {
            max_clients: MAX_CLIENTS,
            send_port: sockets.send_port,
            recv_port: sockets.recv_port,
        };
        Ok(Message::new(String::from_str("room/create"), request.to_json()))
    }

    /// The request that asks the server for a place in the room `room_id`.
    pub fn join_room(&self, room_id: String) -> (r: Result<Message, PortalError>)
        requires
            self@.is_ready(),
        ensures
            request_view(r) == spec_join_room(self@, room_id@),
    {
        if !self.rendezvous_connection.unwrap().connected {
            return Err(PortalError::Disconnected);
        }
        let sockets = self.sockets.unwrap();
        let request = JoinRoomRequest {
            room_id,
            send_port: sockets.send_port,
            recv_port: sockets.recv_port,
        };
        Ok(Message::new(String::from_str("room/join"), request.to_json()))
    }

    /// The request that a process in `mode` opens with, if it opens with
    /// one.
    pub fn room_request(&self, mode: NetworkMode, room_id: Option<String>) -> (r: Result<
        Option<Message>,
        PortalError,
    >)
        requires
            mode != NetworkMode::Offline ==> self@.is_ready(),
        ensures
            opening_view(r) == spec_room_request(self@, mode, text_view(room_id)),
    {
        match mode {
            NetworkMode::Offline => Ok(None),
            NetworkMode::Host => match self.create_room() {
                Ok(request) => Ok(Some(request)),
                Err(e) => Err(e),
            },
            NetworkMode::Client => match room_id {
                Some(id) => match self.join_room(id) {
                    Ok(request) => Ok(Some(request)),
                    Err(e) => Err(e),
                },
                None => Err(PortalError::MissingRoomId),
            },
        }
    }

    /// Applies a control message that has been read.
    pub fn apply_control(&mut self, control: ControlMessage) -> (r: Result<Reaction, PortalError>)
        requires
            old(self)@.is_ready(),
        ensures
            final(self)@ == spec_apply(old(self)@, control@).portal,
            outcome_view(r) == spec_apply(old(self)@, control@).outcome,
    {
        match control {
            ControlMessage::RoomCreated(response) => self.on_room_created(response),
            ControlMessage::RoomJoined(response) => self.on_room_joined(response),
            ControlMessage::PeerJoined(client) => self.on_peer_joined(client),
            ControlMessage::Unknown(_) => Ok(Reaction::Ignored(Ignored::UnknownType)),
        }
    }

    /// Reads a message of the control channel and applies it.
    pub fn handle_rendezvous_message(&mut self, message: Message) -> (r: Result<
        Reaction,
        PortalError,
    >)
        requires
            old(self)@.is_ready(),
        ensures
            final(self)@ == spec_handle(old(self)@, message@).portal,
            outcome_view(r) == spec_handle(old(self)@, message@).outcome,
    {
        match ControlMessage::decode(message) {
            Some(control) => self.apply_control(control),
            None => Err(PortalError::Malformed),
        }
    }

    /// Reads a frame of the control channel and applies the message it
    /// carries.
    pub fn handle_rendezvous_frame(&mut self, frame: &[u8]) -> (r: Result<Reaction, PortalError>)
        requires
            old(self)@.is_ready(),
        ensures
            final(self)@ == spec_handle_frame(old(self)@, frame@).portal,
            outcome_view(r) == spec_handle_frame(old(self)@, frame@).outcome,
    {
        match Message::from_bytes(frame) {
            Some(message) => self.handle_rendezvous_message(message),
            None => Err(PortalError::Malformed),
        }
    }

    /// Hands out the hole punch of the link at `peer`; `None` where there is
    /// no such link.
    pub fn hole_punch(&mut self, peer: usize) -> (r: Option<Datagram>)
        ensures
            final(self)@ == old(self)@.after(peer as int, LinkOp::HolePunch),
            datagram_view(r) == old(self)@.emitted(peer as int, LinkOp::HolePunch),
    {
        match &mut self.room_connection {
            Some(room) => match &mut room.connection_type {
                RoomConnectionType::Host(peers) => {
                    if peer < peers.len() {
                        let ghost before = peers@.map_values(|p: PeerConnection| p@);
                        let link = &mut peers[peer];
                        let datagram = link.hole_punch();
                        proof {
                            assert(peers@.map_values(|p: PeerConnection| p@) =~= before.update(
                                peer as int,
                                before[peer as int].after(LinkOp::HolePunch),
                            ));
                        }
                        datagram
                    } else {
                        None
                    }
                },
                RoomConnectionType::Client(link) => {
                    if peer == 0 {
                        link.hole_punch()
                    } else {
                        None
                    }
                },
            },
            None => None,
        }
    }

    /// Hands out a keep-alive of the link at `peer`; `None` where there is
    /// no such link, and before its hole punch.
    pub fn keep_alive(&self, peer: usize) -> (r: Option<Datagram>)
        ensures
            datagram_view(r) == self@.emitted(peer as int, LinkOp::KeepAlive),
    {
        match &self.room_connection {
            Some(room) => match &room.connection_type {
                RoomConnectionType::Host(peers) => {
                    if peer < peers.len() {
                        peers[peer].keep_alive()
                    } else {
                        None
                    }
                },
                RoomConnectionType::Client(link) => {
                    if peer == 0 {
                        link.keep_alive()
                    } else {
                        None
                    }
                },
            },
            None => None,
        }
    }

    /// Hands out the oldest message that waits for the link at `peer`;
    /// `None` where there is no such link, before its hole punch, and where
    /// nothing waits.
    pub fn next_outbound(&mut self, peer: usize) -> (r: Option<Datagram>)
        ensures
            final(self)@ == old(self)@.after(peer as int, LinkOp::Pump),
            datagram_view(r) == old(self)@.emitted(peer as int, LinkOp::Pump),
    {
        match &mut self.room_connection {
            Some(room) => match &mut room.connection_type {
                RoomConnectionType::Host(peers) => {
                    if peer < peers.len() {
                        let ghost before = peers@.map_values(|p: PeerConnection| p@);
                        let link = &mut peers[peer];
                        let datagram = link.next_outbound();
                        proof {
                            assert(peers@.map_values(|p: PeerConnection| p@) =~= before.update(
                                peer as int,
                                before[peer as int].after(LinkOp::Pump),
                            ));
                        }
                        datagram
                    } else {
                        None
                    }
                },
                RoomConnectionType::Client(link) => {
                    if peer == 0 {
                        link.next_outbound()
                    } else {
                        None
                    }
                },
            },
            None => None,
        }
    }

    /// Queues `message` for the link at `peer` alone. The message comes
    /// back where there is no such link, where the link is closed and where
    /// its queue is full.
    pub fn send_to(&mut self, peer: usize, message: Message) -> (r: Result<(), Message>)
        ensures
            final(self)@ == old(self)@.after(peer as int, LinkOp::Enqueue(message@)),
            match r {
                Ok(_) => peer < old(self)@.peers().len() && old(self)@.peers()[peer as int].accepts(),
                Err(back) => back == message && (peer >= old(self)@.peers().len() || !old(
                    self,
                )@.peers()[peer as int].accepts()),
            },
    {
        match &mut self.room_connection {
            Some(room) => match &mut room.connection_type {
                RoomConnectionType::Host(peers) => {
                    if peer < peers.len() {
                        let ghost before = peers@.map_values(|p: PeerConnection| p@);
                        let link = &mut peers[peer];
                        let outcome = link.enqueue(message);
                        proof {
                            assert(peers@.map_values(|p: PeerConnection| p@) =~= before.update(
                                peer as int,
                                before[peer as int].after(LinkOp::Enqueue(message@)),
                            ));
                        }
                        outcome
                    } else {
                        Err(message)
                    }
                },
                RoomConnectionType::Client(link) => {
                    if peer == 0 {
                        link.enqueue(message)
                    } else {
                        Err(message)
                    }
                },
            },
            None => Err(message),
        }
    }

    /// Whether there is a link at `peer` that has not been closed. The
    /// tasks that serve a link end once this is false.
    pub fn is_link_open(&self, peer: usize) -> (r: bool)
        ensures
            r == (peer < self@.peers().len() && !self@.peers()[peer as int].closed),
    {
        match &self.room_connection {
            Some(room) => match &room.connection_type {
                RoomConnectionType::Host(peers) => peer < peers.len() && peers[peer].is_open(),
                RoomConnectionType::Client(link) => peer == 0 && link.is_open(),
            },
            None => false,
        }
    }

    /// Closes the link at `peer`: from now on it hands out nothing and
    /// takes nothing. The links keep their places.
    pub fn close_link(&mut self, peer: usize)
        ensures
            final(self)@ == old(self)@.after(peer as int, LinkOp::Close),
    {
        match &mut self.room_connection {
            Some(room) => match &mut room.connection_type {
                RoomConnectionType::Host(peers) => {
                    if peer < peers.len() {
                        let ghost before = peers@.map_values(|p: PeerConnection| p@);
                        let link = &mut peers[peer];
                        link.close();
                        proof {
                            assert(peers@.map_values(|p: PeerConnection| p@) =~= before.update(
                                peer as int,
                                before[peer as int].after(LinkOp::Close),
                            ));
                        }
                    }
                },
                RoomConnectionType::Client(link) => {
                    if peer == 0 {
                        link.close();
                    }
                },
            },
            None => {},
        }
    }

    /// Publishes `message` once: a copy is offered to the queue of every
    /// link. A full queue drops its copy and holds no other queue up.
    pub fn publish(&mut self, message: &Message)
        ensures
            final(self)@ == old(self)@.published(message@),
    {
        match self.room_connection.take() {
            Some(room) => {
                let RoomConnection { room_id, room_host, connection_type } = room;
                match connection_type {
                    RoomConnectionType::Host(mut peers) => {
                        let ghost before = peers@.map_values(|p: PeerConnection| p@);
                        let mut i: usize = 0;
                        while i < peers.len()
                            invariant
                                i <= peers.len(),
                                peers.len() == before.len(),
                                forall|k: int| 0 <= k < i ==> (#[trigger] peers@[k])@ == before[k].offer(message@),
                                forall|k: int| i <= k < before.len() ==> (#[trigger] peers@[k])@ == before[k],
                            decreases peers.len() - i,
                        {
                            let link = &mut peers[i];
                            let _ = link.enqueue(message.duplicate());
                            i = i + 1;
                        }
                        proof {
                            assert(peers@.map_values(|p: PeerConnection| p@) =~= Seq::new(
                                before.len(),
                                |k: int| before[k].offer(message@),
                            ));
                        }
                        self.room_connection = Some(
                            RoomConnection {
                                room_id,
                                room_host,
                                connection_type: RoomConnectionType::Host(peers),
                            },
                        );
                    },
                    RoomConnectionType::Client(mut link) => {
                        let _ = link.enqueue(message.duplicate());
                        self.room_connection = Some(
                            RoomConnection {
                                room_id,
                                room_host,
                                connection_type: RoomConnectionType::Client(link),
                            },
                        );
                    },
                }
            },
            None => {},
        }
    }

    fn on_room_created(&mut self, response: CreateRoomResponse) -> (r: Result<
        Reaction,
        PortalError,
    >)
        requires
            old(self)@.is_ready(),
        ensures
            final(self)@ == spec_on_room_created(old(self)@, response@).portal,
            outcome_view(r) == spec_on_room_created(old(self)@, response@).outcome,
    {
        if self.room_connection.is_some() {
            return Ok(Reaction::Ignored(Ignored::AlreadyInRoom));
        }
        let room_host = self.rendezvous_connection.unwrap().client_id;
        let peers: Vec<PeerConnection> = Vec::new();
        let room = RoomConnection {
            room_id: response.room_id,
            room_host,
            connection_type: RoomConnectionType::Host(peers),
        };
        proof {
            assert(room@.role->Host_0 =~= Seq::<PeerView>::empty());
        }
        self.room_connection = Some(room);
        Ok(Reaction::RoomCreated)
    }

    fn on_room_joined(&mut self, response: JoinRoomResponse) -> (r: Result<Reaction, PortalError>)
        requires
            old(self)@.is_ready(),
        ensures
            final(self)@ == spec_on_room_joined(old(self)@, response@).portal,
            outcome_view(r) == spec_on_room_joined(old(self)@, response@).outcome,
    {
        if !response.success {
            return Err(PortalError::JoinFailed(response.msg));
        }
        match response.host_data {
            None => Err(PortalError::MissingHost),
            Some(host) => {
                if self.room_connection.is_some() {
                    return Ok(Reaction::Ignored(Ignored::AlreadyInRoom));
                }
                let link = PeerConnection::open(&host);
                self.room_connection = Some(
                    RoomConnection {
                        room_id: response.room_id,
                        room_host: host.client_id,
                        connection_type: RoomConnectionType::Client(link),
                    },
                );
                Ok(Reaction::Linked { peer: 0 })
            },
        }
    }

    fn on_peer_joined(&mut self, client: ClientData) -> (r: Result<Reaction, PortalError>)
        requires
            old(self)@.is_ready(),
        ensures
            final(self)@ == spec_on_peer_joined(old(self)@, client@).portal,
            outcome_view(r) == spec_on_peer_joined(old(self)@, client@).outcome,
    {
        match &mut self.room_connection {
            Some(room) => match &mut room.connection_type {
                RoomConnectionType::Host(peers) => {
                    if peers.len() == usize::MAX {
                        return Err(PortalError::TooManyPeers);
                    }
                    let index = peers.len();
                    let ghost before = peers@.map_values(|p: PeerConnection| p@);
                    peers.push(PeerConnection::open(&client));
                    proof {
                        assert(peers@.map_values(|p: PeerConnection| p@) =~= before.push(
                            PeerView::opened(client@),
                        ));
                    }
                    Ok(Reaction::Linked { peer: index })
                },
                RoomConnectionType::Client(_) => Err(PortalError::NotHosting),
            },
            None => Err(PortalError::NotHosting),
        }
    }
}

/// One publish reaches every link on its own terms: each open link whose
/// queue has room gets exactly one copy at the end of its queue, and every
/// other link stays as it is, whatever the state of the links beside it.
pub proof fn lemma_publish_is_fair(portal: PortalView, message: MessageView, index: int)
    requires
        0 <= index < portal.peers().len(),
    ensures
        portal.published(message).peers().len() == portal.peers().len(),
        portal.published(message).peers()[index] == portal.peers()[index].offer(message),
        portal.peers()[index].accepts() ==> portal.published(message).peers()[index].outbound.items
            == portal.peers()[index].outbound.items.push(message),
        !portal.peers()[index].accepts() ==> portal.published(message).peers()[index]
            == portal.peers()[index],
{
}

/// What is published first is queued first: after two publishes, an open
/// link that had room for both holds the first message directly before the
/// second, behind what it held.
pub proof fn lemma_publish_keeps_order(
    portal: PortalView,
    first: MessageView,
    second: MessageView,
    index: int,
)
    requires
        0 <= index < portal.peers().len(),
        !portal.peers()[index].closed,
        portal.peers()[index].outbound.items.len() + 2 <= portal.peers()[index].outbound.capacity,
    ensures
        portal.published(first).published(second).peers()[index].outbound.items
            == portal.peers()[index].outbound.items.push(first).push(second),
{
    lemma_publish_is_fair(portal, first, index);
    lemma_publish_is_fair(portal.published(first), second, index);
}

/// Publishing changes queues and nothing else: the room, the identities and
/// addresses of the links, and whether each is punched or closed stay as
/// they were.
pub proof fn lemma_publish_touches_queues_only(portal: PortalView, message: MessageView)
    ensures
        portal.published(message).rendezvous == portal.rendezvous,
        portal.published(message).sockets == portal.sockets,
        portal.published(message).room is Some <==> portal.room is Some,
        portal.room is Some ==> portal.published(message).room->0.room_id == portal.room->0.room_id
            && portal.published(message).room->0.room_host == portal.room->0.room_host,
        forall|i: int|
            0 <= i < portal.peers().len() ==> (#[trigger] portal.published(message).peers()[i])
                == (PeerView {
                outbound: portal.published(message).peers()[i].outbound,
                ..portal.peers()[i]
            }),
{
    assert(portal.published(message).peers().len() == portal.peers().len());
}

/// A refused join leaves no room behind: whatever the state of the portal,
/// an answer to `room/join` that does not report success is an error that
/// carries the reason of the server, and the portal stays as it was.
pub proof fn lemma_refused_join_creates_no_room(portal: PortalView, response: JoinRoomResponseView)
    requires
        !response.success,
    ensures
        spec_apply(portal, ControlView::RoomJoined(response)).outcome == Err::<
            Reaction,
            PortalErrorView,
        >(PortalErrorView::JoinFailed(response.msg)),
        spec_apply(portal, ControlView::RoomJoined(response)).portal == portal,
{
}

/// No control message ever replaces a room: once the portal is in a room,
/// it stays in that room, under the same host and in the same role, and
/// keeps every link it has.
pub proof fn lemma_room_is_never_replaced(portal: PortalView, control: ControlView)
    requires
        portal.room is Some,
    ensures
        spec_apply(portal, control).portal.room is Some,
        spec_apply(portal, control).portal.room->0.room_id == portal.room->0.room_id,
        spec_apply(portal, control).portal.room->0.room_host == portal.room->0.room_host,
        spec_apply(portal, control).portal.room->0.role is Host <==> portal.room->0.role is Host,
        portal.peers().is_prefix_of(spec_apply(portal, control).portal.peers()),
{
}

/// The identity of this process and the ports of its sockets are set once:
/// no control message changes them, and no later frame of the server
/// assigns another identity.
pub proof fn lemma_identity_is_assigned_once(
    portal: PortalView,
    control: ControlView,
    frame: Seq<u8>,
)
    ensures
        spec_apply(portal, control).portal.rendezvous == portal.rendezvous,
        spec_apply(portal, control).portal.sockets == portal.sockets,
        spec_register(portal, frame).portal.sockets == portal.sockets,
        spec_register(portal, frame).portal.room == portal.room,
        portal.rendezvous is Some ==> spec_register(portal, frame).portal == portal
            && spec_register(portal, frame).outcome is Err,
{
}

/// An error changes nothing.
pub proof fn lemma_error_changes_nothing(portal: PortalView, message: MessageView)
    requires
        spec_handle(portal, message).outcome is Err,
    ensures
        spec_handle(portal, message).portal == portal,
{
}

/// A join notice is taken by a host and by no one else: outside a hosted
/// room it is an error, whatever it says.
pub proof fn lemma_notice_needs_a_host(portal: PortalView, client: ClientDataView)
    requires
        !(portal.room is Some && portal.room->0.role is Host),
    ensures
        spec_apply(portal, ControlView::PeerJoined(client)).outcome == Err::<
            Reaction,
            PortalErrorView,
        >(PortalErrorView::NotHosting),
{
}

/// A link that a control message opens is open, unpunched and has nothing
/// waiting, so it hands out nothing before its hole punch.
pub proof fn lemma_new_link_is_unpunched(portal: PortalView, control: ControlView)
    requires
        spec_apply(portal, control).outcome is Ok,
        spec_apply(portal, control).outcome->Ok_0 is Linked,
    ensures
        ({
            let after = spec_apply(portal, control).portal;
            let peer = spec_apply(portal, control).outcome->Ok_0->peer as int;
            &&& 0 <= peer < after.peers().len()
            &&& after.peers().len() == portal.peers().len() + 1
            &&& !after.peers()[peer].punched
            &&& !after.peers()[peer].closed
            &&& after.peers()[peer].outbound.items.len() == 0
            &&& after.emitted(peer, LinkOp::KeepAlive) is None
            &&& after.emitted(peer, LinkOp::Pump) is None
            &&& after.emitted(peer, LinkOp::HolePunch) == Some(
                after.peers()[peer].hole_punch_datagram(),
            )
        }),
{
}

/// Asking something of one link leaves every other link as it was.
pub proof fn lemma_links_are_independent(portal: PortalView, index: int, op: LinkOp, other: int)
    requires
        0 <= other < portal.peers().len(),
        other != index,
    ensures
        portal.after(index, op).peers().len() == portal.peers().len(),
        portal.after(index, op).peers()[other] == portal.peers()[other],
{
}

/// Creating and joining converge. A ready portal outside a room that gets
/// the answer to its `room/create` and then the notice of a client hosts
/// the room, and its one link is the link to that client. A ready portal
/// outside a room that gets a grant for its `room/join` is a client of that
/// room, and its one link goes to the endpoint that the host advertised.
pub proof fn lemma_create_and_join_converge(
    host: PortalView,
    created: CreateRoomResponseView,
    client: ClientDataView,
    joiner: PortalView,
    granted: JoinRoomResponseView,
)
    requires
        host.room is None,
        joiner.room is None,
        granted.success,
        granted.host_data is Some,
    ensures
        ({
            let hosting = spec_apply(host, ControlView::RoomCreated(created)).portal;
            let linked = spec_apply(hosting, ControlView::PeerJoined(client));
            &&& hosting.room == Some(
                RoomView {
                    room_id: created.room_id,
                    room_host: host.rendezvous->0.client_id,
                    role: RoleView::Host(Seq::empty()),
                },
            )
            &&& linked.outcome == Ok::<Reaction, PortalErrorView>(Reaction::Linked { peer: 0 })
            &&& linked.portal.room->0.role == RoleView::Host(seq![PeerView::opened(client)])
            &&& linked.portal.peers()[0].client_id == client.client_id
        }),
        ({
            let joined = spec_apply(joiner, ControlView::RoomJoined(granted));
            let link = PeerView::opened(granted.host_data->0);
            &&& joined.outcome == Ok::<Reaction, PortalErrorView>(Reaction::Linked { peer: 0 })
            &&& joined.portal.room == Some(
                RoomView {
                    room_id: granted.room_id,
                    room_host: granted.host_data->0.client_id,
                    role: RoleView::Client(link),
                },
            )
            &&& link.peer_addr.ip == granted.host_data->0.network_data.ip
            &&& link.peer_addr.port == granted.host_data->0.network_data.send_port
            &&& link.data_port == granted.host_data->0.network_data.recv_port
        }),
{
    let hosting = spec_apply(host, ControlView::RoomCreated(created)).portal;
    let linked = spec_apply(hosting, ControlView::PeerJoined(client));
    assert(Seq::<PeerView>::empty().push(PeerView::opened(client)) =~= seq![
        PeerView::opened(client),
    ]);
}

/// A refusal surfaces with its reason, whatever else the answer holds or
/// lacks: a message tagged as the answer to `room/join` whose payload says
/// `success: false` is the error `JoinFailed` with the string under `msg`,
/// where there is one, and it leaves the portal as it was.
pub proof fn lemma_refusal_surfaces_with_its_reason(portal: PortalView, message: MessageView)
    requires
        spec_control_kind(message.msg_type) == ControlKind::JoinRoomResponse,
        message.data.bool_at("success"@) == Some(false),
    ensures
        spec_handle(portal, message).outcome == Err::<Reaction, PortalErrorView>(
            PortalErrorView::JoinFailed(
                match message.data.member("msg"@) {
                    Some(JsonView::Text(reason)) => Some(reason),
                    _ => None,
                },
            ),
        ),
        spec_handle(portal, message).portal == portal,
{
    lemma_refusal_needs_nothing_else(message.data);
}

/// The notice of a client adds one link and touches nothing else: a host
/// with fewer links than the machine can count gets the link to the
/// announced client behind the links it has, which stay as they are and in
/// their order, and the room keeps its name and its host.
pub proof fn lemma_notice_appends_one_link(portal: PortalView, client: ClientDataView)
    requires
        portal.room is Some,
        portal.room->0.role is Host,
        portal.peers().len() < usize::MAX,
    ensures
        ({
            let before = portal.peers();
            let handled = spec_apply(portal, ControlView::PeerJoined(client));
            let after = handled.portal.peers();
            &&& handled.outcome == Ok::<Reaction, PortalErrorView>(
                Reaction::Linked { peer: before.len() as usize },
            )
            &&& handled.portal.room->0.role == RoleView::Host(
                before.push(PeerView::opened(client)),
            )
            &&& after.len() == before.len() + 1
            &&& forall|i: int| 0 <= i < before.len() ==> after[i] == before[i]
            &&& after.last().client_id == client.client_id
            &&& handled.portal.room->0.room_id == portal.room->0.room_id
            &&& handled.portal.room->0.room_host == portal.room->0.room_host
            &&& handled.portal.rendezvous == portal.rendezvous
            &&& handled.portal.sockets == portal.sockets
        }),
{
}

/// One publish, seen over all links at once: the number of links stays,
/// every open link with room holds exactly its old queue and then the
/// message, and every other link, a full one among them, is as it was. No
/// link waits for another, and the publisher is told of none.
pub proof fn lemma_publish_reaches_all(portal: PortalView, message: MessageView)
    ensures
        portal.published(message).peers().len() == portal.peers().len(),
        forall|i: int|
            #![trigger portal.published(message).peers()[i]]
            0 <= i < portal.peers().len() ==> {
                let before = portal.peers()[i];
                let after = portal.published(message).peers()[i];
                &&& before.accepts() ==> after == (PeerView {
                    outbound: QueueView {
                        items: before.outbound.items.push(message),
                        capacity: before.outbound.capacity,
                    },
                    ..before
                })
                &&& !before.accepts() ==> after == before
            },
{
    assert forall|i: int|
        #![trigger portal.published(message).peers()[i]]
        0 <= i < portal.peers().len() implies {
        let before = portal.peers()[i];
        let after = portal.published(message).peers()[i];
        &&& before.accepts() ==> after == (PeerView {
            outbound: QueueView {
                items: before.outbound.items.push(message),
                capacity: before.outbound.capacity,
            },
            ..before
        })
        &&& !before.accepts() ==> after == before
    } by {
        lemma_publish_is_fair(portal, message, i);
    }
}

} // verus!
