//! The link to one peer: where its datagrams go, what waits to be sent to
//! it, and the order in which the first datagrams leave.
//!
//! A link is opened unpunched. Until its hole punch has been handed out it
//! hands out nothing else, so the hole punch is the first datagram that any
//! peer sees from this side. A link that has been closed hands out nothing
//! at all, which is how the tasks that serve it learn to stop.

use vstd::prelude::*;
use crate::message::{Message, MessageView};
use crate::protocol::{ClientData, ClientDataView};
use crate::queue::{MessageQueue, QueueView, PEER_QUEUE_CAPACITY};

verus! {

/// Seconds between two keep-alive datagrams on one link.
pub const KEEP_ALIVE_INTERVAL_SECS: u64 = 5;

/// Which of the two shared datagram sockets a datagram leaves from.
#[derive(Debug, Clone, Copy, PartialEq, Eq, Structural)]
pub enum LocalSocket {
    /// The socket that application messages are sent from.
    Sender,
    /// The socket that datagrams are received on; hole punches and
    /// keep-alives leave from it, so that the binding they open is its own.
    Receiver,
}

/// An address as a peer advertises it: the text of an IP address, and a
/// port.
#[derive(Debug, PartialEq, Eq)]
pub struct PeerAddr {
    pub ip: String,
    pub port: u16,
}

/// Mathematical model of a [`PeerAddr`].
pub struct PeerAddrView {
    pub ip: Seq<char>,
    pub port: u16,
}

impl View for PeerAddr {
    type V = PeerAddrView;

    open spec fn view(&self) -> PeerAddrView {
        PeerAddrView { ip: self.ip@, port: self.port }
    }
}

impl PeerAddr {
    /// A copy of the address.
    pub fn duplicate(&self) -> (r: PeerAddr)
        ensures
            r@ == self@,
    {
        PeerAddr { ip: self.ip.clone(), port: self.port }
    }
}

/// A message on its way to a peer: the socket it leaves from, where it
/// goes, and what it says.
#[derive(Debug, PartialEq)]
pub struct Datagram {
    pub socket: LocalSocket,
    pub to: PeerAddr,
    pub message: Message,
}

/// Mathematical model of a [`Datagram`].
pub struct DatagramView {
    pub socket: LocalSocket,
    pub to: PeerAddrView,
    pub message: MessageView,
}

impl View for Datagram {
    type V = DatagramView;

    open spec fn view(&self) -> DatagramView {
        DatagramView { socket: self.socket, to: self.to@, message: self.message@ }
    }
}

/// The model of an optional datagram.
pub open spec fn datagram_view(datagram: Option<Datagram>) -> Option<DatagramView> {
    match datagram {
        Some(d) => Some(d@),
        None => None,
    }
}

/// Mathematical model of a [`PeerConnection`].
pub struct PeerView {
    pub client_id: u32,
    /// Where hole punches and keep-alives go: the peer's sending socket.
    pub peer_addr: PeerAddrView,
    /// The port of the peer's receiving socket, where messages go.
    pub data_port: u16,
    /// Whether the hole punch of this link has been handed out.
    pub punched: bool,
    /// Whether the link has been closed.
    pub closed: bool,
    /// What waits to be sent to the peer.
    pub outbound: QueueView,
}

/// What can be asked of a link.
pub enum LinkOp {
    /// Hand out the hole punch.
    HolePunch,
    /// Hand out a keep-alive.
    KeepAlive,
    /// Put a message into the queue.
    Enqueue(MessageView),
    /// Hand out the oldest message of the queue.
    Pump,
    /// Close the link.
    Close,
}

impl PeerView {
    /// The link to a peer as it is opened: unpunched, with nothing waiting.
    pub open spec fn opened(peer: ClientDataView) -> PeerView {
        PeerView {
            client_id: peer.client_id,
            peer_addr: PeerAddrView { ip: peer.network_data.ip, port: peer.network_data.send_port },
            data_port: peer.network_data.recv_port,
            punched: false,
            closed: false,
            outbound: QueueView { items: Seq::empty(), capacity: PEER_QUEUE_CAPACITY as nat },
        }
    }

    /// The hole punch of this link: from the receiving socket to the peer's
    /// sending socket.
    pub open spec fn hole_punch_datagram(self) -> DatagramView {
        DatagramView {
            socket: LocalSocket::Receiver,
            to: self.peer_addr,
            message: Message::spec_hole_punch(),
        }
    }

    /// A keep-alive of this link, on the path of its hole punch.
    pub open spec fn keep_alive_datagram(self) -> DatagramView {
        DatagramView {
            socket: LocalSocket::Receiver,
            to: self.peer_addr,
            message: Message::spec_keep_alive(),
        }
    }

    /// A message on its way to this peer: from the sending socket to the
    /// peer's receiving socket.
    pub open spec fn data_datagram(self, message: MessageView) -> DatagramView {
        DatagramView {
            socket: LocalSocket::Sender,
            to: PeerAddrView { ip: self.peer_addr.ip, port: self.data_port },
            message,
        }
    }

    /// The link once its hole punch has been handed out; a closed link
    /// stays as it is.
    pub open spec fn punch(self) -> PeerView {
        if self.closed {
            self
        } else {
            PeerView { punched: true, ..self }
        }
    }

    /// The link after an attempt to queue `message` for the peer; a closed
    /// link takes nothing.
    pub open spec fn offer(self, message: MessageView) -> PeerView {
        if self.closed {
            self
        } else {
            PeerView { outbound: self.outbound.offer(message), ..self }
        }
    }

    /// Whether `message` finds a place in the queue of the link.
    pub open spec fn accepts(self) -> bool {
        !self.closed && !self.outbound.is_full()
    }

    /// Whether a pump finds a message that it may hand out.
    pub open spec fn can_pump(self) -> bool {
        !self.closed && self.punched && self.outbound.items.len() > 0
    }

    /// The link after a pump.
    pub open spec fn pumped(self) -> PeerView {
        if self.can_pump() {
            PeerView { outbound: self.outbound.rest(), ..self }
        } else {
            self
        }
    }

    /// The link once it is closed.
    pub open spec fn close(self) -> PeerView {
        PeerView { closed: true, ..self }
    }

    /// The link after `op`.
    pub open spec fn after(self, op: LinkOp) -> PeerView {
        match op {
            LinkOp::HolePunch => self.punch(),
            LinkOp::KeepAlive => self,
            LinkOp::Enqueue(message) => self.offer(message),
            LinkOp::Pump => self.pumped(),
            LinkOp::Close => self.close(),
        }
    }

    /// The datagram that `op` hands out, if it hands one out.
    pub open spec fn emitted(self, op: LinkOp) -> Option<DatagramView> {
        match op {
            LinkOp::HolePunch => if self.closed {
                None
            } else {
                Some(self.hole_punch_datagram())
            },
            LinkOp::KeepAlive => if self.punched && !self.closed {
                Some(self.keep_alive_datagram())
            } else {
                None
            },
            LinkOp::Enqueue(_) => None,
            LinkOp::Pump => if self.can_pump() {
                Some(self.data_datagram(self.outbound.items[0]))
            } else {
                None
            },
            LinkOp::Close => None,
        }
    }

    /// The datagrams that a run of operations hands out, in their order.
    pub open spec fn trace(self, ops: Seq<LinkOp>) -> Seq<DatagramView>
        decreases ops.len(),
    {
        if ops.len() == 0 {
            Seq::empty()
        } else {
            let rest = self.after(ops[0]).trace(ops.drop_first());
            match self.emitted(ops[0]) {
                Some(d) => seq![d] + rest,
                None => rest,
            }
        }
    }
}

/// The link to one peer.
#[derive(Debug)]
pub struct PeerConnection {
    client_id: u32,
    peer_addr: PeerAddr,
    data_port: u16,
    punched: bool,
    closed: bool,
    outbound: MessageQueue,
}

impl View for PeerConnection {
    type V = PeerView;

    closed spec fn view(&self) -> PeerView {
        PeerView {
            client_id: self.client_id,
            peer_addr: self.peer_addr@,
            data_port: self.data_port,
            punched: self.punched,
            closed: self.closed,
            outbound: self.outbound@,
        }
    }
}

impl PeerConnection {
    /// Opens the link to a peer that the rendezvous server has described.
    pub fn open(peer: &ClientData) -> (r: PeerConnection)
        ensures
            r@ == PeerView::opened(peer@),
    {
        PeerConnection {
            client_id: peer.client_id,
            peer_addr: PeerAddr { ip: peer.network_data.ip.clone(), port: peer.network_data.send_port },
            data_port: peer.network_data.recv_port,
            punched: false,
            closed: false,
            outbound: MessageQueue::new(PEER_QUEUE_CAPACITY),
        }
    }

    /// The identity of the peer.
    pub fn client_id(&self) -> (r: u32)
        ensures
            r == self@.client_id,
    {
        self.client_id
    }

    /// The address that hole punches and keep-alives go to.
    pub fn peer_addr(&self) -> (r: &PeerAddr)
        ensures
            r@ == self@.peer_addr,
    {
        &self.peer_addr
    }

    /// The port of the peer's receiving socket.
    pub fn data_port(&self) -> (r: u16)
        ensures
            r == self@.data_port,
    {
        self.data_port
    }

    /// Whether the hole punch of this link has been handed out.
    pub fn is_punched(&self) -> (r: bool)
        ensures
            r == self@.punched,
    {
        self.punched
    }

    /// The number of messages that wait for the peer.
    pub fn pending(&self) -> (r: usize)
        ensures
            r == self@.outbound.items.len(),
    {
        self.outbound.len()
    }

    /// Whether the link is still open. The tasks that serve a link end
    /// once it is not.
    pub fn is_open(&self) -> (r: bool)
        ensures
            r == !self@.closed,
    {
        !self.closed
    }

    /// Closes the link: from now on it hands out nothing and takes nothing.
    pub fn close(&mut self)
        ensures
            final(self)@ == old(self)@.after(LinkOp::Close),
    {
        self.closed = true;
    }

    /// Hands out the hole punch of this link; none once it is closed.
    pub fn hole_punch(&mut self) -> (r: Option<Datagram>)
        ensures
            final(self)@ == old(self)@.after(LinkOp::HolePunch),
            datagram_view(r) == old(self)@.emitted(LinkOp::HolePunch),
    {
        if self.closed {
            return None;
        }
        self.punched = true;
        Some(
            Datagram {
                socket: LocalSocket::Receiver,
                to: self.peer_addr.duplicate(),
                message: Message::hole_punch(),
            },
        )
    }

    /// Hands out a keep-alive; none before the hole punch, and none once
    /// the link is closed.
    pub fn keep_alive(&self) -> (r: Option<Datagram>)
        ensures
            datagram_view(r) == self@.emitted(LinkOp::KeepAlive),
    {
        if self.punched && !self.closed {
            Some(
                Datagram {
                    socket: LocalSocket::Receiver,
                    to: self.peer_addr.duplicate(),
                    message: Message::keep_alive(),
                },
            )
        } else {
            None
        }
    }

    /// Queues `message` for the peer, or hands it back where the queue is
    /// full or the link closed.
    pub fn enqueue(&mut self, message: Message) -> (r: Result<(), Message>)
        ensures
            final(self)@ == old(self)@.after(LinkOp::Enqueue(message@)),
            match r {
                Ok(_) => old(self)@.accepts(),
                Err(back) => !old(self)@.accepts() && back == message,
            },
    {
        if self.closed {
            return Err(message);
        }
        self.outbound.push(message)
    }

    /// Hands out the oldest waiting message as a datagram; none before the
    /// hole punch, none where nothing waits, and none once the link is
    /// closed.
    pub fn next_outbound(&mut self) -> (r: Option<Datagram>)
        ensures
            final(self)@ == old(self)@.after(LinkOp::Pump),
            datagram_view(r) == old(self)@.emitted(LinkOp::Pump),
    {
        if !self.punched || self.closed {
            return None;
        }
        match self.outbound.pop() {
            Some(message) => Some(
                Datagram {
                    socket: LocalSocket::Sender,
                    to: PeerAddr { ip: self.peer_addr.ip.clone(), port: self.data_port },
                    message,
                },
            ),
            None => None,
        }
    }
}

/// Whatever is asked of an unpunched link, and in whatever order: the first
/// datagram that it hands out is its hole punch.
pub proof fn lemma_hole_punch_comes_first(link: PeerView, ops: Seq<LinkOp>)
    requires
        !link.punched,
    ensures
        link.trace(ops).len() > 0 ==> link.trace(ops)[0] == link.hole_punch_datagram(),
    decreases ops.len(),
{
    if ops.len() > 0 {
        let next = link.after(ops[0]);
        if link.emitted(ops[0]) is None {
            assert(ops[0] is HolePunch ==> link.closed);
            assert(!next.punched);
            assert(next.hole_punch_datagram() == link.hole_punch_datagram());
            lemma_hole_punch_comes_first(next, ops.drop_first());
        } else {
            assert(ops[0] is HolePunch);
        }
    }
}

/// A closed link stays closed and is silent: whatever is asked of it, it
/// hands out no datagram.
pub proof fn lemma_closed_link_is_silent(link: PeerView, ops: Seq<LinkOp>)
    requires
        link.closed,
    ensures
        link.trace(ops).len() == 0,
    decreases ops.len(),
{
    if ops.len() > 0 {
        assert(link.emitted(ops[0]) is None);
        assert(link.after(ops[0]).closed);
        lemma_closed_link_is_silent(link.after(ops[0]), ops.drop_first());
    }
}

/// What a link hands out from its queue, it hands out in the order in which
/// it was queued: with room for both, two messages queued one after the
/// other wait directly one before the other, behind what waited before them.
pub proof fn lemma_queue_keeps_order(link: PeerView, first: MessageView, second: MessageView)
    requires
        !link.closed,
        link.outbound.items.len() + 2 <= link.outbound.capacity,
    ensures
        link.offer(first).offer(second).outbound.items == link.outbound.items.push(first).push(
            second,
        ),
{
}

/// The messages that a punched, open link hands out are those that were
/// queued, oldest first: pumping a link whose queue holds `first` at its
/// head hands out `first`, to the receiving port of the peer, and leaves the
/// rest waiting.
pub proof fn lemma_pump_hands_out_the_oldest(link: PeerView)
    requires
        link.punched,
        !link.closed,
        link.outbound.items.len() > 0,
    ensures
        link.emitted(LinkOp::Pump) == Some(link.data_datagram(link.outbound.items[0])),
        link.after(LinkOp::Pump).outbound.items == link.outbound.items.drop_first(),
{
}

} // verus!
