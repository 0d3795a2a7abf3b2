//! The global input interceptor.
//!
//! The host installs a system-wide low-level mouse hook and forwards every
//! callback here as plain values: the hook code, the decoded pointer event,
//! the modifier-key state, the pointer coordinates, and the outcome of the
//! foreground-context resolution. This module makes the decision the hook
//! must act on: whether to intercept the event, what to store in the cursor
//! slot, whether a context notification goes out, and whether the native
//! click is suppressed.

use vstd::prelude::*;
use vstd::string::StringExecFns;
use crate::slots::CursorSlot;
use crate::slots::UiHandleSlot;

verus! {

/// The message code of a primary (left) button-down event in the hook
/// callback's message parameter.
pub const PRIMARY_BUTTON_DOWN_MESSAGE: u32 = 0x0201;

/// Bit set in a raw asynchronous key state while the key is held down.
pub const KEY_DOWN_BIT: u16 = 0x8000;

/// A pointer event as seen by the low-level hook, reduced to what the
/// interception decision needs.
#[derive(Clone, Copy, Debug, PartialEq, Eq, Structural)]
pub enum PointerEvent {
    /// Primary (left) button pressed.
    PrimaryDown,
    /// Any other pointer message; always passed through.
    Other,
}

/// Maps a raw hook message code to the event it stands for.
pub fn classify_pointer_event(message: u32) -> (e: PointerEvent)
    ensures
        e is PrimaryDown <==> message == PRIMARY_BUTTON_DOWN_MESSAGE,
{
    if message == PRIMARY_BUTTON_DOWN_MESSAGE {
        PointerEvent::PrimaryDown
    } else {
        PointerEvent::Other
    }
}

/// The pressed state of the two instances of the designated modifier key,
/// read independently and combined by logical OR. Computed fresh for every
/// event, never persisted.
#[derive(Clone, Copy, Debug, PartialEq, Eq, Structural)]
pub struct ModifierState {
    /// Left instance of the modifier key is held down.
    pub left: bool,
    /// Right instance of the modifier key is held down.
    pub right: bool,
}

impl ModifierState {
    /// The modifier counts as active if either instance is held down.
    pub open spec fn spec_active(&self) -> bool {
        self.left || self.right
    }

    /// Decodes the two raw asynchronous key states: only the high bit says
    /// whether the key is currently held down.
    pub fn from_key_states(left_state: i16, right_state: i16) -> (m: ModifierState)
        ensures
            m.left == (((left_state as u16) & KEY_DOWN_BIT) != 0),
            m.right == (((right_state as u16) & KEY_DOWN_BIT) != 0),
    {
        ModifierState {
            left: ((left_state as u16) & KEY_DOWN_BIT) != 0,
            right: ((right_state as u16) & KEY_DOWN_BIT) != 0,
        }
    }

    /// Whether the modifier is active right now.
    pub fn active(&self) -> (r: bool)
        ensures
            r == self.spec_active(),
    {
        self.left || self.right
    }
}

/// The payload of a "reveal the UI with context" notification.
pub struct ContextNotification {
    /// Name of the application the user was interacting with.
    pub app_name: String,
    /// Title of its foreground window.
    pub window_title: String,
    /// Pointer position at the instant of the gesture.
    pub cursor_x: i32,
    /// Pointer position at the instant of the gesture.
    pub cursor_y: i32,
    /// Wall-clock timestamp of the capture.
    pub timestamp: u64,
}

/// What the hook callback must do after a pointer event has been handled.
pub struct HookOutcome {
    /// Suppress the native click instead of passing it down the hook chain.
    pub suppress: bool,
    /// A notification to schedule on a separate execution context, or `None`
    /// when nothing is to be delivered.
    pub notification: Option<ContextNotification>,
}

/// Whether an event is the assistant-invocation gesture: a processable hook
/// callback for a primary-button-down with the modifier active.
pub open spec fn spec_intercepts(hook_code: int, event: PointerEvent, modifiers: ModifierState) -> bool {
    hook_code >= 0 && event is PrimaryDown && modifiers.spec_active()
}

/// What the cursor slot holds after an event: a qualifying gesture overwrites
/// it with the event's coordinates, anything else leaves it alone.
pub open spec fn spec_slot_after(
    prev: Option<(i32, i32)>,
    intercepted: bool,
    x: i32,
    y: i32,
) -> Option<(i32, i32)> {
    if intercepted {
        Some((x, y))
    } else {
        prev
    }
}

/// Law: repeating the same gesture at the same point is the same as making it
/// once — the slot keeps a single pair and only the latest capture is
/// retrievable.
pub proof fn lemma_repeat_gesture_overwrites(prev: Option<(i32, i32)>, x: i32, y: i32)
    ensures
        spec_slot_after(spec_slot_after(prev, true, x, y), true, x, y)
            == spec_slot_after(prev, true, x, y),
{
}

/// The interceptor's persistent state: the cursor slot it writes and the
/// UI-handle slot it consults before notifying.
pub struct Interceptor {
    cursor_slot: CursorSlot,
    ui_handle: UiHandleSlot,
}

impl Interceptor {
    /// The pair the cursor slot currently holds.
    pub closed spec fn spec_cursor(&self) -> Option<(i32, i32)> {
        self.cursor_slot.spec_stored()
    }

    /// Whether the UI handle has been registered.
    pub closed spec fn spec_ui_registered(&self) -> bool {
        self.ui_handle.spec_registered()
    }

    /// A fresh interceptor: no capture yet, UI not yet registered.
    pub fn new() -> (s: Interceptor)
        ensures
            s.spec_cursor() is None,
            !s.spec_ui_registered(),
    {
        Interceptor { cursor_slot: CursorSlot::new(), ui_handle: UiHandleSlot::new() }
    }

    /// Records that the live UI handle is now available. Called exactly once
    /// when startup completes; notifications decided before this call are
    /// dropped, not queued.
    pub fn register_ui(&mut self)
        requires
            !old(self).spec_ui_registered(),
        ensures
            final(self).spec_ui_registered(),
            final(self).spec_cursor() == old(self).spec_cursor(),
    {
        self.ui_handle.register();
    }

    /// Whether the UI handle has been registered.
    pub fn ui_registered(&self) -> (r: bool)
        ensures
            r == self.spec_ui_registered(),
    {
        self.ui_handle.is_registered()
    }

    /// The most recent captured cursor position, or `None` before any
    /// qualifying gesture.
    pub fn stored_cursor(&self) -> (r: Option<(i32, i32)>)
        ensures
            r == self.spec_cursor(),
    {
        self.cursor_slot.read()
    }

    /// Handles one hook callback.
    ///
    /// `resolution` is the outcome of the foreground-context lookup the host
    /// ran for this event: the resolved (application name, window title), or
    /// `None` when the lookup failed — the gesture then completes with the
    /// sentinel names instead of failing.
    ///
    /// Exactly the qualifying gestures are intercepted: the coordinates are
    /// stored (overwriting any previous capture), the native click is
    /// suppressed, and — provided the UI handle is registered — exactly one
    /// notification carrying the context is produced. Every other event
    /// leaves the state untouched and passes through unmodified.
    pub fn on_pointer_event(
        &mut self,
        hook_code: i32,
        event: PointerEvent,
        modifiers: ModifierState,
        cursor_x: i32,
        cursor_y: i32,
        resolution: Option<(String, String)>,
        now: u64,
    ) -> (out: HookOutcome)
        ensures
            out.suppress == spec_intercepts(hook_code as int, event, modifiers),
            final(self).spec_cursor() == spec_slot_after(
                old(self).spec_cursor(),
                spec_intercepts(hook_code as int, event, modifiers),
                cursor_x,
                cursor_y,
            ),
            final(self).spec_ui_registered() == old(self).spec_ui_registered(),
            !spec_intercepts(hook_code as int, event, modifiers) ==> *final(self) == *old(self),
            out.notification is Some <==> (spec_intercepts(hook_code as int, event, modifiers)
                && old(self).spec_ui_registered()),
            out.notification matches Some(n) ==> {
                &&& n.cursor_x == cursor_x
                &&& n.cursor_y == cursor_y
                &&& n.timestamp == now
                &&& (resolution matches Some(pair) ==> n.app_name == pair.0
                    && n.window_title == pair.1)
                &&& (resolution is None ==> n.app_name@ == "Unknown"@
                    && n.window_title@ == "Unknown"@)
            },
    {
        let is_gesture = hook_code >= 0
            && matches!(event, PointerEvent::PrimaryDown)
            && modifiers.active();
        if is_gesture {
            self.cursor_slot.store(cursor_x, cursor_y);
            let notification = if self.ui_handle.is_registered() {
                let (app_name, window_title) = match resolution {
                    Some(pair) => pair,
                    None => (String::from_str("Unknown"), String::from_str("Unknown")),
                };
                Some(ContextNotification {
                    app_name,
                    window_title,
                    cursor_x,
                    cursor_y,
                    timestamp: now,
                })
            } else {
                None
            };
            HookOutcome { suppress: true, notification }
        } else {
            HookOutcome { suppress: false, notification: None }
        }
    }
}

} // verus!
