//! The game-over event and the slot that carries it through one frame.

use vstd::prelude::*;

verus! {

/// The player died. Carries the score at that moment.
#[derive(Clone, Copy, Debug, PartialEq, Eq, Structural)]
pub struct GameOver {
    pub score: u32,
}

/// A queue of one slot. An event that is sent stays readable by every
/// listener until the slot is cleared at the end of the frame.
#[derive(Clone, Copy, Debug, PartialEq, Eq, Structural)]
pub struct EventSlot {
    pub pending: Option<GameOver>,
}

impl EventSlot {
    /// An empty slot.
    pub fn new() -> (slot: EventSlot)
        ensures
            slot.pending is None,
    {
        EventSlot { pending: None }
    }

    /// Puts an event into the slot.
    pub fn send(&mut self, event: GameOver)
        ensures
            final(self).pending == Some(event),
    {
        self.pending = Some(event);
    }

    /// The event of this frame, where there is one. Reading takes nothing
    /// out of the slot.
    pub fn read(&self) -> (out: Option<GameOver>)
        ensures
            out == self.pending,
    {
        self.pending
    }

    /// Empties the slot.
    pub fn clear(&mut self)
        ensures
            final(self).pending is None,
    {
        self.pending = None;
    }
}

} // verus!
