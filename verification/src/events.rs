//! The keyboard event queue resource: a double-buffered, append-only
//! per-frame store.
//!
//! The aging rule is fixed: an event sent while a frame is running
//! becomes visible at the next frame boundary, stays visible for
//! exactly one ingest-and-simulate stage, and is cleared at the
//! boundary after that.

use vstd::prelude::*;
use crate::input::KeyboardInput;

verus! {

/// Double-buffered queue of keyboard events.
pub struct KeyboardEvents {
    /// Events sent since the last frame boundary; not yet visible.
    pub pending: Vec<KeyboardInput>,
    /// Events visible to the systems of the current frame.
    pub current: Vec<KeyboardInput>,
}

impl KeyboardEvents {
    pub fn new() -> (r: KeyboardEvents)
        ensures
            r.pending@ =~= Seq::<KeyboardInput>::empty(),
            r.current@ =~= Seq::<KeyboardInput>::empty(),
    {
        KeyboardEvents { pending: Vec::new(), current: Vec::new() }
    }

    /// Appends an event; it becomes visible at the next frame
    /// boundary.
    pub fn send(&mut self, e: KeyboardInput)
        ensures
            final(self).pending@ == old(self).pending@.push(e),
            final(self).current@ == old(self).current@,
    {
        self.pending.push(e);
    }

    /// The frame-boundary rotation: what was pending becomes visible,
    /// and what was visible for the last frame is dropped.
    pub fn rotate(&mut self)
        ensures
            final(self).current@ == old(self).pending@,
            final(self).pending@ =~= Seq::<KeyboardInput>::empty(),
    {
        let mut fresh: Vec<KeyboardInput> = Vec::new();
        core::mem::swap(&mut fresh, &mut self.pending);
        self.current = fresh;
    }

    /// The events visible to readers this frame.
    pub fn visible(&self) -> (r: &Vec<KeyboardInput>)
        ensures
            r@ == self.current@,
    {
        &self.current
    }
}

} // verus!
