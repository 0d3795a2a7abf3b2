//! Process-wide state slots.
//!
//! Two pieces of state outlive any single event: the most recent captured
//! cursor position, and whether the live UI handle has been registered. Each
//! slot has exactly one writer role; the host program guards a value of each
//! type with a lock and holds the lock only for the duration of a read or a
//! write.

use vstd::prelude::*;

verus! {

/// Holds the most recently captured cursor position, if any.
///
/// The interceptor overwrites the pair on every qualifying gesture
/// (last write wins); readers observe either `None` or the latest complete
/// pair, never a partial one.
pub struct CursorSlot {
    stored: Option<(i32, i32)>,
}

impl CursorSlot {
    /// The pair the slot currently holds.
    pub closed spec fn spec_stored(&self) -> Option<(i32, i32)> {
        self.stored
    }

    /// A slot that has seen no capture yet.
    pub fn new() -> (s: CursorSlot)
        ensures
            s.spec_stored() is None,
    {
        CursorSlot { stored: None }
    }

    /// Overwrites the slot with the latest capture; the previous pair, if
    /// any, is discarded.
    pub fn store(&mut self, x: i32, y: i32)
        ensures
            final(self).spec_stored() == Some((x, y)),
    {
        self.stored = Some((x, y));
    }

    /// Reads the most recent complete pair, or `None` before any capture.
    pub fn read(&self) -> (r: Option<(i32, i32)>)
        ensures
            r == self.spec_stored(),
    {
        self.stored
    }

    /// Empties the slot.
    pub fn clear(&mut self)
        ensures
            final(self).spec_stored() is None,
    {
        self.stored = None;
    }
}

/// Records whether the live UI handle has been registered.
///
/// The handle itself is opaque to this library; what matters to the logic is
/// only its presence: it is registered exactly once during startup, and
/// context notifications raised before that moment are dropped rather than
/// queued.
pub struct UiHandleSlot {
    registered: bool,
}

impl UiHandleSlot {
    /// Whether the UI handle has been registered.
    pub closed spec fn spec_registered(&self) -> bool {
        self.registered
    }

    /// The state before startup completes: no handle yet.
    pub fn new() -> (s: UiHandleSlot)
        ensures
            !s.spec_registered(),
    {
        UiHandleSlot { registered: false }
    }

    /// Marks the handle as registered. Registration happens exactly once,
    /// so the slot must not already be registered.
    pub fn register(&mut self)
        requires
            !old(self).spec_registered(),
        ensures
            final(self).spec_registered(),
    {
        self.registered = true;
    }

    /// Whether a notification delivered now would reach the UI.
    pub fn is_registered(&self) -> (r: bool)
        ensures
            r == self.spec_registered(),
    {
        self.registered
    }
}

} // verus!
