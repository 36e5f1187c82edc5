//! The marks that tie an entity of the game to the network.

use vstd::prelude::*;

pub use crate::util::Incrementor;

verus! {

/// Marks an entity whose state is published to the peers under
/// `network_id`.
#[derive(Debug, Clone, Copy, PartialEq, Eq, Structural)]
pub struct NetworkSend {
    network_id: usize,
}

impl NetworkSend {
    /// The mark for the identity `network_id`.
    pub fn new(network_id: usize) -> (r: NetworkSend)
        ensures
            r.spec_network_id() == network_id,
    {
        NetworkSend { network_id }
    }

    /// The identity under which the entity is published.
    pub closed spec fn spec_network_id(self) -> usize {
        self.network_id
    }

    /// The identity under which the entity is published.
    pub fn network_id(&self) -> (r: usize)
        ensures
            r == self.spec_network_id(),
    {
        self.network_id
    }
}

/// Marks an entity whose state is taken from the updates that peers publish
/// under `network_id`.
#[derive(Debug, Clone, Copy, PartialEq, Eq, Structural)]
pub struct NetworkRecv {
    network_id: usize,
}

impl NetworkRecv {
    /// The mark for the identity `network_id`.
    pub fn new(network_id: usize) -> (r: NetworkRecv)
        ensures
            r.spec_network_id() == network_id,
    {
        NetworkRecv { network_id }
    }

    /// The identity whose updates the entity takes.
    pub closed spec fn spec_network_id(self) -> usize {
        self.network_id
    }

    /// The identity whose updates the entity takes.
    pub fn network_id(&self) -> (r: usize)
        ensures
            r == self.spec_network_id(),
    {
        self.network_id
    }

    /// Whether an update for `entity_id` is meant for this entity.
    pub fn matches(&self, entity_id: usize) -> (r: bool)
        ensures
            r == (self.spec_network_id() == entity_id),
    {
        self.network_id == entity_id
    }
}

/// A mark is its identity and nothing else: two sending marks with one
/// identity are one mark.
pub proof fn lemma_send_marks_with_one_id_are_equal(a: NetworkSend, b: NetworkSend)
    requires
        a.spec_network_id() == b.spec_network_id(),
    ensures
        a == b,
{
}

/// A mark is its identity and nothing else: two receiving marks with one
/// identity are one mark.
pub proof fn lemma_recv_marks_with_one_id_are_equal(a: NetworkRecv, b: NetworkRecv)
    requires
        a.spec_network_id() == b.spec_network_id(),
    ensures
        a == b,
{
}

} // verus!
