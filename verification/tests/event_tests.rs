use glam::Vec2;
use show_image::event::{
    convert_winit_device_event, convert_winit_window_event, DeviceButtonEvent, DeviceEvent,
    DeviceKeyboardInputEvent, DeviceMouseWheelEvent, DevicePointerMotionEvent, ElementState, Theme,
    WindowEvent, WinitDeviceEvent, WinitWindowEvent,
};
use show_image::image::{IVec2, UVec2};
use show_image::mouse::{MouseButton, MouseButtonState, MouseCache, Vec2Bits};

fn v(x: f32, y: f32) -> Vec2Bits {
    Vec2Bits { x: x.to_bits(), y: y.to_bits() }
}
use std::path::PathBuf;
use winit::event::{MouseScrollDelta, RawKeyEvent, TouchPhase};
use winit::keyboard::{KeyCode, ModifiersState, PhysicalKey};

fn convert(event: WinitWindowEvent, cache: &MouseCache) -> Option<WindowEvent> {
    convert_winit_window_event(4, event, cache, ModifiersState::SHIFT)
}

fn pressed(buttons: &[MouseButton]) -> MouseButtonState {
    let mut state = MouseButtonState::new();
    for b in buttons {
        state.set_pressed(*b, true);
    }
    state
}

#[test]
fn ignored_window_events() {
    let cache = MouseCache::new();
    for event in [
        WinitWindowEvent::Ime,
        WinitWindowEvent::Occluded,
        WinitWindowEvent::DragMoved,
        WinitWindowEvent::ModifiersChanged,
        WinitWindowEvent::ActivationTokenDone,
        WinitWindowEvent::PanGesture,
        WinitWindowEvent::DoubleTapGesture,
        WinitWindowEvent::RotationGesture,
    ] {
        assert_eq!(convert(event, &cache), None);
    }
}

#[test]
fn simple_window_events() {
    let cache = MouseCache::new();
    assert_eq!(
        convert(WinitWindowEvent::SurfaceResized { width: 640, height: 480 }, &cache),
        Some(WindowEvent::Resized { window_id: 4, size: UVec2 { x: 640, y: 480 } })
    );
    assert_eq!(
        convert(WinitWindowEvent::Moved { x: -3, y: 9 }, &cache),
        Some(WindowEvent::Moved { window_id: 4, position: IVec2 { x: -3, y: 9 } })
    );
    assert_eq!(convert(WinitWindowEvent::CloseRequested, &cache), Some(WindowEvent::CloseRequested { window_id: 4 }));
    assert_eq!(convert(WinitWindowEvent::Destroyed, &cache), Some(WindowEvent::Destroyed { window_id: 4 }));
    assert_eq!(convert(WinitWindowEvent::RedrawRequested, &cache), Some(WindowEvent::RedrawRequested { window_id: 4 }));
    assert_eq!(convert(WinitWindowEvent::Focused(true), &cache), Some(WindowEvent::FocusGained { window_id: 4 }));
    assert_eq!(convert(WinitWindowEvent::Focused(false), &cache), Some(WindowEvent::FocusLost { window_id: 4 }));
    assert_eq!(
        convert(WinitWindowEvent::DragLeft, &cache),
        Some(WindowEvent::HoveredFileCancelled { window_id: 4 })
    );
    assert_eq!(
        convert(WinitWindowEvent::ThemeChanged(Theme::Dark), &cache),
        Some(WindowEvent::ThemeChanged { window_id: 4, theme: Theme::Dark })
    );
}

#[test]
fn file_events_carry_paths() {
    let cache = MouseCache::new();
    let paths = vec![PathBuf::from("/tmp/a.png"), PathBuf::from("b.jpg")];
    assert_eq!(
        convert(WinitWindowEvent::DragDropped { paths: paths.clone() }, &cache),
        Some(WindowEvent::DroppedFile { window_id: 4, files: paths.clone() })
    );
    assert_eq!(
        convert(WinitWindowEvent::DragEntered { paths: paths.clone() }, &cache),
        Some(WindowEvent::HoveredFile { window_id: 4, files: paths })
    );
}

#[test]
fn float_payloads_pass_through() {
    let cache = MouseCache::new();
    let scale = 1.5f64.to_bits();
    assert_eq!(
        convert(WinitWindowEvent::ScaleFactorChanged { scale_factor_bits: scale }, &cache),
        Some(WindowEvent::ScaleFactorChanged { window_id: 4, scale_factor_bits: scale })
    );
    assert_eq!(
        convert(WinitWindowEvent::TouchpadPressure { device_id: Some(1), pressure_bits: 0.25f32.to_bits(), stage: 2 }, &cache),
        Some(WindowEvent::TouchpadPressure { window_id: 4, device_id: Some(1), pressure_bits: 0.25f32.to_bits(), stage: 2 })
    );
    assert_eq!(
        convert(WinitWindowEvent::PinchGesture { device_id: None, scale_bits: 1.1f64.to_bits(), phase: TouchPhase::Moved }, &cache),
        Some(WindowEvent::TouchpadMagnify { window_id: 4, device_id: None, scale_bits: 1.1f64.to_bits(), phase: TouchPhase::Moved })
    );
}

#[test]
fn pointer_move_uses_cache() {
    let mut cache = MouseCache::new();
    // unknown pointer: previous position is the position itself, no buttons
    assert_eq!(
        convert(WinitWindowEvent::PointerMoved { device_id: Some(2), position: v(5.0, 6.0) }, &cache),
        Some(WindowEvent::MouseMove {
            window_id: 4,
            device_id: Some(2),
            position: v(5.0, 6.0),
            prev_position: v(5.0, 6.0),
            buttons: MouseButtonState::new(),
        })
    );
    // the cache sees the event first, as the event loop does
    let first = WinitWindowEvent::PointerMoved { device_id: Some(2), position: v(1.0, 2.0) };
    cache.handle_window_event(4, &first);
    let second = WinitWindowEvent::PointerMoved { device_id: Some(2), position: v(3.0, 4.0) };
    cache.handle_window_event(4, &second);
    cache.handle_window_event(
        4,
        &WinitWindowEvent::PointerButton {
            device_id: Some(2),
            state: ElementState::Pressed,
            position: v(3.0, 4.0),
            button: Some(MouseButton::Right),
        },
    );
    assert_eq!(
        convert(second, &cache),
        Some(WindowEvent::MouseMove {
            window_id: 4,
            device_id: Some(2),
            position: v(3.0, 4.0),
            prev_position: v(1.0, 2.0),
            buttons: pressed(&[MouseButton::Right]),
        })
    );
    assert_eq!(
        convert(WinitWindowEvent::PointerEntered { device_id: Some(2) }, &cache),
        Some(WindowEvent::MouseEnter { window_id: 4, device_id: Some(2), buttons: pressed(&[MouseButton::Right]) })
    );
    assert_eq!(
        convert(WinitWindowEvent::PointerLeft { device_id: None }, &cache),
        Some(WindowEvent::MouseLeave { window_id: 4, device_id: None, buttons: MouseButtonState::new() })
    );
    let delta = MouseScrollDelta::LineDelta(0.0, -1.0);
    assert_eq!(
        convert(WinitWindowEvent::MouseWheel { device_id: Some(2), delta, phase: TouchPhase::Started }, &cache),
        Some(WindowEvent::MouseWheel {
            window_id: 4,
            device_id: Some(2),
            delta,
            phase: TouchPhase::Started,
            position: Some(v(3.0, 4.0)),
            buttons: pressed(&[MouseButton::Right]),
        })
    );
}

#[test]
fn pointer_button_needs_a_mouse_button() {
    let mut cache = MouseCache::new();
    let no_button = WinitWindowEvent::PointerButton {
        device_id: Some(2),
        state: ElementState::Pressed,
        position: v(3.0, 4.0),
        button: None,
    };
    assert_eq!(convert(no_button, &cache), None);
    let press = WinitWindowEvent::PointerButton {
        device_id: Some(2),
        state: ElementState::Pressed,
        position: v(3.0, 4.0),
        button: Some(MouseButton::Left),
    };
    cache.handle_window_event(4, &press);
    assert_eq!(
        convert(press, &cache),
        Some(WindowEvent::MouseButton {
            window_id: 4,
            device_id: Some(2),
            button: MouseButton::Left,
            state: ElementState::Pressed,
            position: v(3.0, 4.0),
            prev_position: v(3.0, 4.0),
            buttons: pressed(&[MouseButton::Left]),
        })
    );
}

#[test]
fn device_events_default_to_device_zero() {
    let key = RawKeyEvent { physical_key: PhysicalKey::Code(KeyCode::KeyA), state: winit::event::ElementState::Pressed };
    assert_eq!(
        convert_winit_device_event(None, WinitDeviceEvent::Key(key)),
        DeviceEvent::KeyboardInput(DeviceKeyboardInputEvent { device_id: 0, input: key })
    );
    assert_eq!(
        convert_winit_device_event(Some(-5), WinitDeviceEvent::PointerMotion { delta: Vec2::new(1.0, -1.0) }),
        DeviceEvent::PointerMotion(DevicePointerMotionEvent { device_id: -5, delta: Vec2::new(1.0, -1.0) })
    );
    let delta = MouseScrollDelta::LineDelta(1.0, 2.0);
    assert_eq!(
        convert_winit_device_event(Some(3), WinitDeviceEvent::MouseWheel { delta }),
        DeviceEvent::MouseWheel(DeviceMouseWheelEvent { device_id: 3, delta })
    );
    assert_eq!(
        convert_winit_device_event(Some(3), WinitDeviceEvent::Button { button: 7, state: ElementState::Released }),
        DeviceEvent::Button(DeviceButtonEvent { device_id: 3, button: 7, state: ElementState::Released })
    );
}

#[test]
fn device_event_from_structs() {
    let e: DeviceEvent = DeviceButtonEvent { device_id: 1, button: 2, state: ElementState::Pressed }.into();
    assert_eq!(e, DeviceEvent::Button(DeviceButtonEvent { device_id: 1, button: 2, state: ElementState::Pressed }));
}
