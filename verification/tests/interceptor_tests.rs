use yaoscope::interceptor::classify_pointer_event;
use yaoscope::interceptor::Interceptor;
use yaoscope::interceptor::ModifierState;
use yaoscope::interceptor::PointerEvent;
use yaoscope::interceptor::PRIMARY_BUTTON_DOWN_MESSAGE;

fn both_up() -> ModifierState {
    ModifierState { left: false, right: false }
}

fn left_down() -> ModifierState {
    ModifierState { left: true, right: false }
}

fn right_down() -> ModifierState {
    ModifierState { left: false, right: true }
}

#[test]
fn modifier_reads_only_the_held_bit() {
    // The high bit says "held right now"; the low bit alone does not count.
    let held = ModifierState::from_key_states(i16::MIN, 0);
    assert!(held.left);
    assert!(!held.right);
    let recently_pressed = ModifierState::from_key_states(1, 1);
    assert!(!recently_pressed.left);
    assert!(!recently_pressed.right);
    assert!(!recently_pressed.active());
    assert!(ModifierState::from_key_states(0, i16::MIN).active());
}

#[test]
fn pointer_event_classification() {
    assert_eq!(classify_pointer_event(PRIMARY_BUTTON_DOWN_MESSAGE), PointerEvent::PrimaryDown);
    assert_eq!(classify_pointer_event(0x0202), PointerEvent::Other);
    assert_eq!(classify_pointer_event(0), PointerEvent::Other);
}

#[test]
fn gesture_is_intercepted_and_notified() {
    let mut interceptor = Interceptor::new();
    interceptor.register_ui();
    let resolution = Some(("Editor".to_string(), "draft.txt".to_string()));
    let out = interceptor.on_pointer_event(
        0,
        PointerEvent::PrimaryDown,
        left_down(),
        150,
        250,
        resolution,
        1234,
    );
    assert!(out.suppress);
    let n = out.notification.expect("a gesture with the UI registered notifies");
    assert_eq!(n.app_name, "Editor");
    assert_eq!(n.window_title, "draft.txt");
    assert_eq!(n.cursor_x, 150);
    assert_eq!(n.cursor_y, 250);
    assert_eq!(n.timestamp, 1234);
    assert_eq!(interceptor.stored_cursor(), Some((150, 250)));
}

#[test]
fn right_modifier_alone_intercepts() {
    let mut interceptor = Interceptor::new();
    interceptor.register_ui();
    let out = interceptor.on_pointer_event(
        0,
        PointerEvent::PrimaryDown,
        right_down(),
        7,
        8,
        None,
        1,
    );
    assert!(out.suppress);
    assert!(out.notification.is_some());
    assert_eq!(interceptor.stored_cursor(), Some((7, 8)));
}

#[test]
fn without_modifier_event_passes_through() {
    let mut interceptor = Interceptor::new();
    interceptor.register_ui();
    let out = interceptor.on_pointer_event(
        0,
        PointerEvent::PrimaryDown,
        both_up(),
        150,
        250,
        None,
        1234,
    );
    assert!(!out.suppress);
    assert!(out.notification.is_none());
    assert_eq!(interceptor.stored_cursor(), None);
}

#[test]
fn other_buttons_pass_through() {
    let mut interceptor = Interceptor::new();
    interceptor.register_ui();
    let out = interceptor.on_pointer_event(0, PointerEvent::Other, left_down(), 1, 2, None, 3);
    assert!(!out.suppress);
    assert!(out.notification.is_none());
    assert_eq!(interceptor.stored_cursor(), None);
}

#[test]
fn negative_hook_code_passes_through() {
    let mut interceptor = Interceptor::new();
    interceptor.register_ui();
    let out = interceptor.on_pointer_event(
        -1,
        PointerEvent::PrimaryDown,
        left_down(),
        1,
        2,
        None,
        3,
    );
    assert!(!out.suppress);
    assert!(out.notification.is_none());
}

#[test]
fn failed_resolution_uses_sentinel_names() {
    let mut interceptor = Interceptor::new();
    interceptor.register_ui();
    let out = interceptor.on_pointer_event(
        0,
        PointerEvent::PrimaryDown,
        left_down(),
        40,
        50,
        None,
        9,
    );
    assert!(out.suppress);
    let n = out.notification.expect("the gesture still completes");
    assert_eq!(n.app_name, "Unknown");
    assert_eq!(n.window_title, "Unknown");
    assert_eq!(interceptor.stored_cursor(), Some((40, 50)));
}

#[test]
fn notification_before_registration_is_dropped() {
    let mut interceptor = Interceptor::new();
    let out = interceptor.on_pointer_event(
        0,
        PointerEvent::PrimaryDown,
        left_down(),
        1,
        2,
        None,
        3,
    );
    assert!(out.suppress);
    assert!(out.notification.is_none());
    // The capture itself still happened.
    assert_eq!(interceptor.stored_cursor(), Some((1, 2)));
}

#[test]
fn repeated_gesture_overwrites_single_slot() {
    let mut interceptor = Interceptor::new();
    interceptor.register_ui();
    interceptor.on_pointer_event(0, PointerEvent::PrimaryDown, left_down(), 10, 20, None, 1);
    interceptor.on_pointer_event(0, PointerEvent::PrimaryDown, left_down(), 10, 20, None, 2);
    assert_eq!(interceptor.stored_cursor(), Some((10, 20)));
    interceptor.on_pointer_event(0, PointerEvent::PrimaryDown, left_down(), 30, 40, None, 3);
    assert_eq!(interceptor.stored_cursor(), Some((30, 40)));
}
