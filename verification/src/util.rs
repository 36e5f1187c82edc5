//! Small helpers shared by the game and the networking layer.

use vstd::prelude::*;

verus! {

/// Hands out the numbers 1, 2, 3, ... one at a time.
#[derive(Debug)]
pub struct Incrementor {
    value: usize,
}

impl View for Incrementor {
    type V = usize;

    /// The number that is handed out next.
    closed spec fn view(&self) -> usize {
        self.value
    }
}

impl Incrementor {
    /// A counter whose first number is 1.
    pub fn new() -> (r: Incrementor)
        ensures
            r@ == 1,
    {
        Incrementor { value: 1 }
    }

    /// The number that `next` hands out next.
    pub fn peek(&self) -> (r: usize)
        ensures
            r == self@,
    {
        self.value
    }

    /// Hands out the next number. The counter must not have reached the
    /// largest number of the machine.
    pub fn next(&mut self) -> (r: Option<usize>)
        requires
            old(self)@ < usize::MAX,
        ensures
            r == Some(old(self)@),
            final(self)@ == old(self)@ + 1,
    {
        let current = self.value;
        self.value = self.value + 1;
        Some(current)
    }
}

} // verus!
