//! State of the running game that the networking layer shares with it.

use vstd::prelude::*;

verus! {

/// Whether the game goes on.
#[derive(Debug, Clone, Copy, PartialEq, Eq, Structural)]
pub enum SystemState {
    Running,
    Quit,
}

impl Default for SystemState {
    fn default() -> (r: SystemState)
        ensures
            r == SystemState::Running,
    {
        SystemState::Running
    }
}

impl SystemState {
    /// Whether the game loop ends after this frame.
    pub fn is_quit(&self) -> (r: bool)
        ensures
            r == (*self == SystemState::Quit),
    {
        match self {
            SystemState::Quit => true,
            SystemState::Running => false,
        }
    }
}

} // verus!
