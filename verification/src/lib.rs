//! Rendezvous signalling and peer-to-peer delivery rules for a small
//! multiplayer platformer, with machine-checked contracts.

pub mod components;
pub mod control;
pub mod inbound;
pub mod json;
pub mod link;
pub mod message;
pub mod portal;
pub mod protocol;
pub mod queue;
pub mod resources;
pub mod util;
