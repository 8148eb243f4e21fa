use show_image::event::{ElementState, WinitWindowEvent};
use show_image::mouse::{mouse_button_from_raw, MouseButton, MouseButtonState, MouseCache, Vec2Bits};

fn v(x: f32, y: f32) -> Vec2Bits {
    Vec2Bits { x: x.to_bits(), y: y.to_bits() }
}

fn moved(device: Option<i64>, x: f32, y: f32) -> WinitWindowEvent {
    WinitWindowEvent::PointerMoved { device_id: device, position: v(x, y) }
}

fn button(device: Option<i64>, state: ElementState, button: Option<MouseButton>) -> WinitWindowEvent {
    WinitWindowEvent::PointerButton { device_id: device, state, position: v(1.0, 1.0), button }
}

#[test]
fn button_state_set_and_clear() {
    let mut state = MouseButtonState::new();
    assert!(!state.is_pressed(MouseButton::Left));
    state.set_pressed(MouseButton::Left, true);
    state.set_pressed(MouseButton::Other(3), true);
    assert!(state.is_pressed(MouseButton::Left));
    assert!(state.is_pressed(MouseButton::Other(3)));
    assert!(!state.is_pressed(MouseButton::Other(4)));
    assert!(!state.is_pressed(MouseButton::Right));
    state.set_pressed(MouseButton::Left, false);
    assert!(!state.is_pressed(MouseButton::Left));
    assert!(state.is_pressed(MouseButton::Other(3)));
    let copy = state.clone();
    assert!(copy.is_pressed(MouseButton::Other(3)));
    assert!(!MouseButtonState::default().is_pressed(MouseButton::Other(3)));
}

#[test]
fn raw_mouse_buttons() {
    assert_eq!(mouse_button_from_raw(0), MouseButton::Left);
    assert_eq!(mouse_button_from_raw(1), MouseButton::Right);
    assert_eq!(mouse_button_from_raw(2), MouseButton::Middle);
    assert_eq!(mouse_button_from_raw(3), MouseButton::Back);
    assert_eq!(mouse_button_from_raw(4), MouseButton::Forward);
    assert_eq!(mouse_button_from_raw(5), MouseButton::Other(0));
    assert_eq!(mouse_button_from_raw(31), MouseButton::Other(0));
}

#[test]
fn first_move_has_zero_previous_position() {
    let mut cache = MouseCache::new();
    assert_eq!(cache.get_position(1, Some(7)), None);
    cache.handle_window_event(1, &moved(Some(7), 3.0, 4.0));
    assert_eq!(cache.get_position(1, Some(7)), Some(v(3.0, 4.0)));
    assert_eq!(cache.get_prev_position(1, Some(7)), Some(v(0.0, 0.0)));
}

#[test]
fn second_move_remembers_first() {
    let mut cache = MouseCache::default();
    cache.handle_window_event(1, &moved(Some(7), 3.0, 4.0));
    cache.handle_window_event(1, &moved(Some(7), 5.0, 6.0));
    assert_eq!(cache.get_position(1, Some(7)), Some(v(5.0, 6.0)));
    assert_eq!(cache.get_prev_position(1, Some(7)), Some(v(3.0, 4.0)));
    // other windows and devices are untouched
    assert_eq!(cache.get_position(2, Some(7)), None);
    assert_eq!(cache.get_position(1, Some(8)), None);
    assert_eq!(cache.get_prev_position(2, Some(7)), None);
}

#[test]
fn moves_without_device_are_ignored() {
    let mut cache = MouseCache::new();
    cache.handle_window_event(1, &moved(None, 3.0, 4.0));
    assert_eq!(cache.get_position(1, None), None);
    assert_eq!(cache.get_position(1, Some(0)), None);
}

#[test]
fn button_presses_are_tracked_per_device() {
    let mut cache = MouseCache::new();
    assert!(cache.get_buttons(Some(2)).is_none());
    cache.handle_window_event(1, &button(Some(2), ElementState::Pressed, Some(MouseButton::Left)));
    cache.handle_window_event(9, &button(Some(2), ElementState::Pressed, Some(MouseButton::Back)));
    let b = cache.get_buttons(Some(2)).unwrap();
    assert!(b.is_pressed(MouseButton::Left));
    assert!(b.is_pressed(MouseButton::Back));
    assert!(cache.get_buttons(Some(3)).is_none());
    assert!(cache.get_buttons(None).is_none());
    cache.handle_window_event(1, &button(Some(2), ElementState::Released, Some(MouseButton::Left)));
    let b = cache.get_buttons(Some(2)).unwrap();
    assert!(!b.is_pressed(MouseButton::Left));
    assert!(b.is_pressed(MouseButton::Back));
}

#[test]
fn buttons_without_device_or_mouse_button_are_ignored() {
    let mut cache = MouseCache::new();
    cache.handle_window_event(1, &button(None, ElementState::Pressed, Some(MouseButton::Left)));
    cache.handle_window_event(1, &button(Some(2), ElementState::Pressed, None));
    assert!(cache.get_buttons(Some(2)).is_none());
    cache.handle_window_event(1, &WinitWindowEvent::CloseRequested);
    assert_eq!(cache.get_position(1, Some(2)), None);
}

#[test]
fn default_cache_first_move_scenario() {
    let mut cache = MouseCache::default();
    cache.handle_window_event(1, &moved(Some(7), 3.0, 4.0));
    assert_eq!(cache.get_position(1, Some(7)), Some(v(3.0, 4.0)));
    assert_eq!(cache.get_prev_position(1, Some(7)), Some(Vec2Bits { x: 0, y: 0 }));
    assert!(cache.get_buttons(Some(7)).is_none());
}

#[test]
fn released_buttons_leave_no_trace() {
    let mut state = MouseButtonState::new();
    state.set_pressed(MouseButton::Other(65535), true);
    assert!(state.is_pressed(MouseButton::Other(65535)));
    state.set_pressed(MouseButton::Other(65535), false);
    assert_eq!(state, MouseButtonState::new());
}
