//! Window and device events: the form in which the windowing system reports
//! them, the library's own events, and the mapping between the two.

use vstd::prelude::*;
use crate::image::{IVec2, UVec2};
use crate::mouse::{
    MouseButton, MouseButtonState, MouseCache, MouseCacheView, Vec2Bits, after_button, after_move,
};
use std::path::PathBuf;
use winit::event::{KeyEvent, MouseScrollDelta, RawKeyEvent, TouchPhase};
use winit::keyboard::ModifiersState;

verus! {

/// The state of a key or button.
#[derive(Clone, Copy, Debug, PartialEq, Eq, Hash, Structural)]
pub enum ElementState {
    Pressed,
    Released,
}

/// The colour theme of a window.
#[derive(Clone, Copy, Debug, PartialEq, Eq, Hash, Structural)]
pub enum Theme {
    Light,
    Dark,
}

/// A window event as the windowing system reports it, with identifiers by
/// their raw numbers, pointer positions narrowed to single precision and held,
/// like the other floating-point values, by their bit patterns.
#[derive(Debug, PartialEq)]
pub enum WinitWindowEvent {
    /// An activation token was delivered.
    ActivationTokenDone,
    /// The drawable surface changed size, in physical pixels.
    SurfaceResized { width: u32, height: u32 },
    /// The window moved to this physical position.
    Moved { x: i32, y: i32 },
    /// The user asked to close the window.
    CloseRequested,
    /// The window was destroyed.
    Destroyed,
    /// Files were dragged over the window.
    DragEntered { paths: Vec<PathBuf> },
    /// Dragged files moved over the window.
    DragMoved,
    /// Files were dropped on the window.
    DragDropped { paths: Vec<PathBuf> },
    /// Dragged files left the window.
    DragLeft,
    /// The window gained (`true`) or lost (`false`) focus.
    Focused(bool),
    /// A key was pressed or released.
    KeyboardInput { device_id: Option<i64>, event: KeyEvent, is_synthetic: bool },
    /// The modifier keys changed.
    ModifiersChanged,
    /// Input-method event.
    Ime,
    /// The pointer moved to `position`.
    PointerMoved { device_id: Option<i64>, position: Vec2Bits },
    /// The pointer entered the window.
    PointerEntered { device_id: Option<i64> },
    /// The pointer left the window.
    PointerLeft { device_id: Option<i64> },
    /// A scroll wheel or touchpad scrolled.
    MouseWheel { device_id: Option<i64>, delta: MouseScrollDelta, phase: TouchPhase },
    /// A pointer button changed state at `position`; `button` is the mouse
    /// button it stands for, if any.
    PointerButton {
        device_id: Option<i64>,
        state: ElementState,
        position: Vec2Bits,
        button: Option<MouseButton>,
    },
    /// A two-finger pinch; `scale_bits` is the bit pattern of the `f64`
    /// one plus the pinch's delta.
    PinchGesture { device_id: Option<i64>, scale_bits: u64, phase: TouchPhase },
    /// A two-finger pan.
    PanGesture,
    /// A double tap.
    DoubleTapGesture,
    /// A two-finger rotation.
    RotationGesture,
    /// Touchpad pressure; `pressure_bits` is the bit pattern of the `f32`
    /// pressure.
    TouchpadPressure { device_id: Option<i64>, pressure_bits: u32, stage: i64 },
    /// The scale factor changed; `scale_factor_bits` is the bit pattern of
    /// the `f64` factor.
    ScaleFactorChanged { scale_factor_bits: u64 },
    /// The system theme changed.
    ThemeChanged(Theme),
    /// The window became hidden or visible.
    Occluded,
    /// The window should be redrawn.
    RedrawRequested,
}

/// An event of a window, as the library reports it.
#[derive(Debug, PartialEq)]
#[allow(inconsistent_fields)]
pub enum WindowEvent {
    /// The window should be redrawn.
    RedrawRequested { window_id: usize },
    /// The window was resized to `size` physical pixels.
    Resized { window_id: usize, size: UVec2 },
    /// The window moved to `position`.
    Moved { window_id: usize, position: IVec2 },
    /// The user asked to close the window.
    CloseRequested { window_id: usize },
    /// The window was destroyed.
    Destroyed { window_id: usize },
    /// Files were dropped on the window.
    DroppedFile { window_id: usize, files: Vec<PathBuf> },
    /// Files are being dragged over the window.
    HoveredFile { window_id: usize, files: Vec<PathBuf> },
    /// Dragged files left the window.
    HoveredFileCancelled { window_id: usize },
    /// The window gained focus.
    FocusGained { window_id: usize },
    /// The window lost focus.
    FocusLost { window_id: usize },
    /// A key was pressed or released while the window had focus.
    KeyboardInput {
        window_id: usize,
        device_id: Option<i64>,
        input: KeyEvent,
        is_synthetic: bool,
        modifiers: ModifiersState,
    },
    /// The pointer entered the window.
    MouseEnter { window_id: usize, device_id: Option<i64>, buttons: MouseButtonState },
    /// The pointer left the window.
    MouseLeave { window_id: usize, device_id: Option<i64>, buttons: MouseButtonState },
    /// The pointer moved from `prev_position` to `position`.
    MouseMove {
        window_id: usize,
        device_id: Option<i64>,
        position: Vec2Bits,
        prev_position: Vec2Bits,
        buttons: MouseButtonState,
    },
    /// The scroll wheel moved while the pointer was at `position`, if known.
    MouseWheel {
        window_id: usize,
        device_id: Option<i64>,
        delta: MouseScrollDelta,
        phase: TouchPhase,
        position: Option<Vec2Bits>,
        buttons: MouseButtonState,
    },
    /// A mouse button was pressed or released.
    MouseButton {
        window_id: usize,
        device_id: Option<i64>,
        button: MouseButton,
        state: ElementState,
        position: Vec2Bits,
        prev_position: Vec2Bits,
        buttons: MouseButtonState,
    },
    /// Touchpad pressure; `pressure_bits` is the bit pattern of an `f32`.
    TouchpadPressure { window_id: usize, device_id: Option<i64>, pressure_bits: u32, stage: i64 },
    /// A touchpad pinch; `scale_bits` is the bit pattern of the `f64` scale.
    TouchpadMagnify { window_id: usize, device_id: Option<i64>, scale_bits: u64, phase: TouchPhase },
    /// The scale factor changed; `scale_factor_bits` is the bit pattern of an `f64`.
    ScaleFactorChanged { window_id: usize, scale_factor_bits: u64 },
    /// The theme changed.
    ThemeChanged { window_id: usize, theme: Theme },
}

/// `buttons` holds exactly the buttons that the cache knows to be pressed on
/// `device_id`: none where it knows nothing of the device.
pub open spec fn reports_buttons(cache: MouseCacheView, device_id: Option<i64>, buttons: MouseButtonState) -> bool {
    buttons@ == cache.buttons_or_none_pressed(device_id)
}

/// The position before `position` of the pointer of `device_id` in
/// `window_id`: the one the cache knows, else `position` itself.
pub open spec fn prev_position_or(
    cache: MouseCacheView,
    window_id: usize,
    device_id: Option<i64>,
    position: Vec2Bits,
) -> Vec2Bits {
    match cache.prev_position_of(window_id, device_id) {
        Some(p) => p,
        None => position,
    }
}

/// `out` is what the library reports for `event` in window `window_id`,
/// given what `cache` knows and the state `modifiers` of the modifier keys.
pub open spec fn converts_window_event(
    window_id: usize,
    event: WinitWindowEvent,
    cache: MouseCacheView,
    modifiers: ModifiersState,
    out: Option<WindowEvent>,
) -> bool {
    match event {
        WinitWindowEvent::Ime => out is None,
        WinitWindowEvent::Occluded => out is None,
        WinitWindowEvent::DragMoved => out is None,
        WinitWindowEvent::ModifiersChanged => out is None,
        WinitWindowEvent::ActivationTokenDone => out is None,
        WinitWindowEvent::PanGesture => out is None,
        WinitWindowEvent::DoubleTapGesture => out is None,
        WinitWindowEvent::RotationGesture => out is None,
        WinitWindowEvent::SurfaceResized { width, height } => out == Some(
            WindowEvent::Resized { window_id, size: UVec2 { x: width, y: height } },
        ),
        WinitWindowEvent::Moved { x, y } => out == Some(
            WindowEvent::Moved { window_id, position: IVec2 { x, y } },
        ),
        WinitWindowEvent::CloseRequested => out == Some(WindowEvent::CloseRequested { window_id }),
        WinitWindowEvent::Destroyed => out == Some(WindowEvent::Destroyed { window_id }),
        WinitWindowEvent::RedrawRequested => out == Some(WindowEvent::RedrawRequested { window_id }),
        WinitWindowEvent::DragDropped { paths } => out == Some(
            WindowEvent::DroppedFile { window_id, files: paths },
        ),
        WinitWindowEvent::DragEntered { paths } => out == Some(
            WindowEvent::HoveredFile { window_id, files: paths },
        ),
        WinitWindowEvent::DragLeft => out == Some(WindowEvent::HoveredFileCancelled { window_id }),
        WinitWindowEvent::Focused(focused) => out == Some(
            if focused {
                WindowEvent::FocusGained { window_id }
            } else {
                WindowEvent::FocusLost { window_id }
            },
        ),
        WinitWindowEvent::KeyboardInput { device_id, event, is_synthetic } => out == Some(
            WindowEvent::KeyboardInput { window_id, device_id, input: event, is_synthetic, modifiers },
        ),
        WinitWindowEvent::PointerMoved { device_id, position } => match out {
            Some(WindowEvent::MouseMove { window_id: w, device_id: d, position: p, prev_position, buttons }) => {
                &&& w == window_id
                &&& d == device_id
                &&& p == position
                &&& prev_position == prev_position_or(cache, window_id, device_id, position)
                &&& reports_buttons(cache, device_id, buttons)
            },
            _ => false,
        },
        WinitWindowEvent::PointerEntered { device_id } => match out {
            Some(WindowEvent::MouseEnter { window_id: w, device_id: d, buttons }) => {
                &&& w == window_id
                &&& d == device_id
                &&& reports_buttons(cache, device_id, buttons)
            },
            _ => false,
        },
        WinitWindowEvent::PointerLeft { device_id } => match out {
            Some(WindowEvent::MouseLeave { window_id: w, device_id: d, buttons }) => {
                &&& w == window_id
                &&& d == device_id
                &&& reports_buttons(cache, device_id, buttons)
            },
            _ => false,
        },
        WinitWindowEvent::MouseWheel { device_id, delta, phase } => match out {
            Some(WindowEvent::MouseWheel { window_id: w, device_id: d, delta: dl, phase: ph, position, buttons }) => {
                &&& w == window_id
                &&& d == device_id
                &&& dl == delta
                &&& ph == phase
                &&& position == cache.position_of(window_id, device_id)
                &&& reports_buttons(cache, device_id, buttons)
            },
            _ => false,
        },
        WinitWindowEvent::PointerButton { device_id, state, position, button } => match button {
            None => out is None,
            Some(b) => match out {
                Some(
                    WindowEvent::MouseButton {
                        window_id: w,
                        device_id: d,
                        button: ob,
                        state: st,
                        position: p,
                        prev_position,
                        buttons,
                    },
                ) => {
                    &&& w == window_id
                    &&& d == device_id
                    &&& ob == b
                    &&& st == state
                    &&& p == position
                    &&& prev_position == prev_position_or(cache, window_id, device_id, position)
                    &&& reports_buttons(cache, device_id, buttons)
                },
                _ => false,
            },
        },
        WinitWindowEvent::TouchpadPressure { device_id, pressure_bits, stage } => out == Some(
            WindowEvent::TouchpadPressure { window_id, device_id, pressure_bits, stage },
        ),
        WinitWindowEvent::ThemeChanged(theme) => out == Some(WindowEvent::ThemeChanged { window_id, theme }),
        WinitWindowEvent::ScaleFactorChanged { scale_factor_bits } => out == Some(
            WindowEvent::ScaleFactorChanged { window_id, scale_factor_bits },
        ),
        WinitWindowEvent::PinchGesture { device_id, scale_bits, phase } => out == Some(
            WindowEvent::TouchpadMagnify { window_id, device_id, scale_bits, phase },
        ),
    }
}

/// The pressed buttons of `device_id` as the cache knows them, or none.
fn buttons_or_default(mouse_cache: &MouseCache, device_id: Option<i64>) -> (buttons: MouseButtonState)
    ensures
        reports_buttons(mouse_cache@, device_id, buttons),
{
    match mouse_cache.get_buttons(device_id) {
        Some(b) => b.clone(),
        None => MouseButtonState::new(),
    }
}

/// The previous position of the pointer as the cache knows it, or `position`.
fn prev_position_or_current(
    mouse_cache: &MouseCache,
    window_id: usize,
    device_id: Option<i64>,
    position: Vec2Bits,
) -> (prev: Vec2Bits)
    ensures
        prev == prev_position_or(mouse_cache@, window_id, device_id, position),
{
    match mouse_cache.get_prev_position(window_id, device_id) {
        Some(p) => p,
        None => position,
    }
}

/// Map a window event of the windowing system to the library's event, if
/// the library reports it at all.
pub fn convert_winit_window_event(
    window_id: usize,
    event: WinitWindowEvent,
    mouse_cache: &MouseCache,
    modifiers: ModifiersState,
) -> (out: Option<WindowEvent>)
    ensures
        converts_window_event(window_id, event, mouse_cache@, modifiers, out),
{
    match event {
        WinitWindowEvent::Ime => None,
        WinitWindowEvent::Occluded => None,
        WinitWindowEvent::SurfaceResized { width, height } => Some(
            WindowEvent::Resized { window_id, size: UVec2 { x: width, y: height } },
        ),
        WinitWindowEvent::Moved { x, y } => Some(WindowEvent::Moved { window_id, position: IVec2 { x, y } }),
        WinitWindowEvent::CloseRequested => Some(WindowEvent::CloseRequested { window_id }),
        WinitWindowEvent::Destroyed => Some(WindowEvent::Destroyed { window_id }),
        WinitWindowEvent::DragDropped { paths } => Some(WindowEvent::DroppedFile { window_id, files: paths }),
        WinitWindowEvent::DragEntered { paths } => Some(WindowEvent::HoveredFile { window_id, files: paths }),
        WinitWindowEvent::DragMoved => None,
        WinitWindowEvent::DragLeft => Some(WindowEvent::HoveredFileCancelled { window_id }),
        WinitWindowEvent::Focused(true) => Some(WindowEvent::FocusGained { window_id }),
        WinitWindowEvent::Focused(false) => Some(WindowEvent::FocusLost { window_id }),
        WinitWindowEvent::KeyboardInput { device_id, event, is_synthetic } => Some(
            WindowEvent::KeyboardInput { window_id, device_id, input: event, is_synthetic, modifiers },
        ),
        WinitWindowEvent::ModifiersChanged => None,
        WinitWindowEvent::PointerMoved { device_id, position } => Some(
            WindowEvent::MouseMove {
                window_id,
                device_id,
                position,
                prev_position: prev_position_or_current(mouse_cache, window_id, device_id, position),
                buttons: buttons_or_default(mouse_cache, device_id),
            },
        ),
        WinitWindowEvent::PointerEntered { device_id } => Some(
            WindowEvent::MouseEnter {
                window_id,
                device_id,
                buttons: buttons_or_default(mouse_cache, device_id),
            },
        ),
        WinitWindowEvent::PointerLeft { device_id } => Some(
            WindowEvent::MouseLeave {
                window_id,
                device_id,
                buttons: buttons_or_default(mouse_cache, device_id),
            },
        ),
        WinitWindowEvent::MouseWheel { device_id, delta, phase } => Some(
            WindowEvent::MouseWheel {
                window_id,
                device_id,
                delta,
                phase,
                position: mouse_cache.get_position(window_id, device_id),
                buttons: buttons_or_default(mouse_cache, device_id),
            },
        ),
        WinitWindowEvent::PointerButton { device_id, state, position, button } => {
            let mouse_button = match button {
                Some(b) => b,
                None => return None,
            };
            let prev_position = prev_position_or_current(mouse_cache, window_id, device_id, position);
            Some(
                WindowEvent::MouseButton {
                    window_id,
                    device_id,
                    button: mouse_button,
                    state,
                    position,
                    prev_position,
                    buttons: buttons_or_default(mouse_cache, device_id),
                },
            )
        },
        WinitWindowEvent::TouchpadPressure { device_id, pressure_bits, stage } => Some(
            WindowEvent::TouchpadPressure { window_id, device_id, pressure_bits, stage },
        ),
        WinitWindowEvent::ThemeChanged(theme) => Some(WindowEvent::ThemeChanged { window_id, theme }),
        WinitWindowEvent::ScaleFactorChanged { scale_factor_bits } => Some(
            WindowEvent::ScaleFactorChanged { window_id, scale_factor_bits },
        ),
        WinitWindowEvent::ActivationTokenDone => None,
        WinitWindowEvent::PinchGesture { device_id, scale_bits, phase } => Some(
            WindowEvent::TouchpadMagnify { window_id, device_id, scale_bits, phase },
        ),
        WinitWindowEvent::PanGesture => None,
        WinitWindowEvent::DoubleTapGesture => None,
        WinitWindowEvent::RotationGesture => None,
        WinitWindowEvent::RedrawRequested => Some(WindowEvent::RedrawRequested { window_id }),
    }
}

/// A device event as the windowing system reports it, with the pointer
/// motion already in single precision.
#[derive(Debug, PartialEq)]
#[allow(inconsistent_fields)]
pub enum WinitDeviceEvent {
    /// Relative motion of a pointing device.
    PointerMotion { delta: glam::Vec2 },
    /// A scroll-wheel movement.
    MouseWheel { delta: MouseScrollDelta },
    /// A button of the device changed state.
    Button { button: u32, state: ElementState },
    /// A key of the device changed state.
    Key(RawKeyEvent),
}

/// Raw hardware events that are not associated with any particular window.
///
/// Useful for interactions that diverge significantly from a conventional
/// 2D GUI, such as 3D camera or first-person game controls. Many physical
/// actions, such as mouse movement, can produce both device and window
/// events. Because window events typically arise from virtual devices
/// (corresponding to GUI cursors and keyboard focus) the device IDs may not
/// match.
///
/// Note that these events are delivered regardless of input focus.
#[derive(Debug, Clone, Copy, PartialEq)]
pub enum DeviceEvent {
    /// Change in physical position of a pointing device.
    PointerMotion(DevicePointerMotionEvent),
    /// The scroll-wheel of a mouse was moved.
    MouseWheel(DeviceMouseWheelEvent),
    /// A button on a device was pressed or released.
    Button(DeviceButtonEvent),
    /// A device generated keyboard input.
    KeyboardInput(DeviceKeyboardInputEvent),
}

/// The physical position of a pointing device was moved.
///
/// This represents raw, unfiltered physical motion.
#[derive(Debug, Clone, Copy, PartialEq)]
pub struct DevicePointerMotionEvent {
    /// The raw ID of the device.
    pub device_id: i64,
    /// The relative motion.
    pub delta: glam::Vec2,
}

/// The scroll-wheel of a mouse was moved.
#[derive(Debug, Clone, Copy, PartialEq)]
pub struct DeviceMouseWheelEvent {
    /// The raw ID of the device.
    pub device_id: i64,
    /// The scroll delta.
    pub delta: MouseScrollDelta,
}

/// A button on a device was pressed or released.
#[derive(Debug, Clone, Copy, PartialEq)]
pub struct DeviceButtonEvent {
    /// The raw ID of the device.
    pub device_id: i64,
    /// The button that was pressed or released.
    pub button: u32,
    /// The new state of the button (pressed or released).
    pub state: ElementState,
}

/// A device generated keyboard input.
#[derive(Debug, Clone, Copy, Eq, PartialEq, Hash)]
pub struct DeviceKeyboardInputEvent {
    /// The raw ID of the device.
    pub device_id: i64,
    /// The event that occured.
    pub input: RawKeyEvent,
}

impl From<DevicePointerMotionEvent> for DeviceEvent {
    fn from(other: DevicePointerMotionEvent) -> (event: Self) {
        DeviceEvent::PointerMotion(other)
    }
}

impl vstd::std_specs::convert::FromSpecImpl<DevicePointerMotionEvent> for DeviceEvent {
    open spec fn obeys_from_spec() -> bool {
        true
    }

    open spec fn from_spec(v: DevicePointerMotionEvent) -> DeviceEvent {
        DeviceEvent::PointerMotion(v)
    }
}

impl From<DeviceMouseWheelEvent> for DeviceEvent {
    fn from(other: DeviceMouseWheelEvent) -> (event: Self) {
        DeviceEvent::MouseWheel(other)
    }
}

impl vstd::std_specs::convert::FromSpecImpl<DeviceMouseWheelEvent> for DeviceEvent {
    open spec fn obeys_from_spec() -> bool {
        true
    }

    open spec fn from_spec(v: DeviceMouseWheelEvent) -> DeviceEvent {
        DeviceEvent::MouseWheel(v)
    }
}

impl From<DeviceButtonEvent> for DeviceEvent {
    fn from(other: DeviceButtonEvent) -> (event: Self) {
        DeviceEvent::Button(other)
    }
}

impl vstd::std_specs::convert::FromSpecImpl<DeviceButtonEvent> for DeviceEvent {
    open spec fn obeys_from_spec() -> bool {
        true
    }

    open spec fn from_spec(v: DeviceButtonEvent) -> DeviceEvent {
        DeviceEvent::Button(v)
    }
}

impl From<DeviceKeyboardInputEvent> for DeviceEvent {
    fn from(other: DeviceKeyboardInputEvent) -> (event: Self) {
        DeviceEvent::KeyboardInput(other)
    }
}

impl vstd::std_specs::convert::FromSpecImpl<DeviceKeyboardInputEvent> for DeviceEvent {
    open spec fn obeys_from_spec() -> bool {
        true
    }

    open spec fn from_spec(v: DeviceKeyboardInputEvent) -> DeviceEvent {
        DeviceEvent::KeyboardInput(v)
    }
}

/// The library's device event for `event` of the device `device_id`; a
/// device without an ID is reported as device zero.
pub open spec fn device_event_of(device_id: Option<i64>, event: WinitDeviceEvent) -> DeviceEvent {
    let id = match device_id {
        Some(d) => d,
        None => 0,
    };
    match event {
        WinitDeviceEvent::PointerMotion { delta } => DeviceEvent::PointerMotion(
            DevicePointerMotionEvent { device_id: id, delta },
        ),
        WinitDeviceEvent::MouseWheel { delta } => DeviceEvent::MouseWheel(
            DeviceMouseWheelEvent { device_id: id, delta },
        ),
        WinitDeviceEvent::Button { button, state } => DeviceEvent::Button(
            DeviceButtonEvent { device_id: id, button, state },
        ),
        WinitDeviceEvent::Key(input) => DeviceEvent::KeyboardInput(
            DeviceKeyboardInputEvent { device_id: id, input },
        ),
    }
}

/// Map a device event of the windowing system to the library's event.
pub fn convert_winit_device_event(device_id: Option<i64>, event: WinitDeviceEvent) -> (out: DeviceEvent)
    ensures
        out == device_event_of(device_id, event),
{
    let device_id_or_default = match device_id {
        Some(d) => d,
        None => 0,
    };
    match event {
        WinitDeviceEvent::PointerMotion { delta } => DevicePointerMotionEvent {
            device_id: device_id_or_default,
            delta,
        }.into(),
        WinitDeviceEvent::MouseWheel { delta } => DeviceMouseWheelEvent {
            device_id: device_id_or_default,
            delta,
        }.into(),
        WinitDeviceEvent::Button { button, state } => DeviceButtonEvent {
            device_id: device_id_or_default,
            button,
            state,
        }.into(),
        WinitDeviceEvent::Key(input) => DeviceKeyboardInputEvent {
            device_id: device_id_or_default,
            input,
        }.into(),
    }
}

/// A pointer move that the cache has seen is reported as a move from the
/// position the cache knew before it (the zero vector, if none) to the new one.
pub proof fn lemma_move_reports_where_it_came_from(
    cache: MouseCacheView,
    window_id: usize,
    device_id: i64,
    position: Vec2Bits,
    modifiers: ModifiersState,
    out: Option<WindowEvent>,
)
    requires
        converts_window_event(
            window_id,
            WinitWindowEvent::PointerMoved { device_id: Some(device_id), position },
            after_move(cache, window_id, device_id, position),
            modifiers,
            out,
        ),
    ensures
        match out {
            Some(WindowEvent::MouseMove { position: p, prev_position, .. }) => {
                &&& p == position
                &&& prev_position == match cache.position_of(window_id, Some(device_id)) {
                    Some(p0) => p0,
                    None => Vec2Bits::zero_spec(),
                }
            },
            _ => false,
        },
{
}

/// A mouse-button press that the cache has seen is reported with the button
/// among the pressed buttons; a release, with the button no longer among them.
pub proof fn lemma_button_reports_its_own_state(
    cache: MouseCacheView,
    window_id: usize,
    device_id: i64,
    state: ElementState,
    position: Vec2Bits,
    button: MouseButton,
    modifiers: ModifiersState,
    out: Option<WindowEvent>,
)
    requires
        converts_window_event(
            window_id,
            WinitWindowEvent::PointerButton {
                device_id: Some(device_id),
                state,
                position,
                button: Some(button),
            },
            after_button(cache, window_id, device_id, state, position, button),
            modifiers,
            out,
        ),
    ensures
        match out {
            Some(WindowEvent::MouseButton { button: b, state: s, buttons, .. }) => {
                &&& b == button
                &&& s == state
                &&& buttons@.contains(button) == (state == ElementState::Pressed)
            },
            _ => false,
        },
{
    crate::mouse::lemma_button_updates_only_its_button(cache, window_id, device_id, state, position, button);
}

/// The window a reported event belongs to.
pub open spec fn window_of(event: WindowEvent) -> usize {
    match event {
        WindowEvent::RedrawRequested { window_id } => window_id,
        WindowEvent::Resized { window_id, .. } => window_id,
        WindowEvent::Moved { window_id, .. } => window_id,
        WindowEvent::CloseRequested { window_id } => window_id,
        WindowEvent::Destroyed { window_id } => window_id,
        WindowEvent::DroppedFile { window_id, .. } => window_id,
        WindowEvent::HoveredFile { window_id, .. } => window_id,
        WindowEvent::HoveredFileCancelled { window_id } => window_id,
        WindowEvent::FocusGained { window_id } => window_id,
        WindowEvent::FocusLost { window_id } => window_id,
        WindowEvent::KeyboardInput { window_id, .. } => window_id,
        WindowEvent::MouseEnter { window_id, .. } => window_id,
        WindowEvent::MouseLeave { window_id, .. } => window_id,
        WindowEvent::MouseMove { window_id, .. } => window_id,
        WindowEvent::MouseWheel { window_id, .. } => window_id,
        WindowEvent::MouseButton { window_id, .. } => window_id,
        WindowEvent::TouchpadPressure { window_id, .. } => window_id,
        WindowEvent::TouchpadMagnify { window_id, .. } => window_id,
        WindowEvent::ScaleFactorChanged { window_id, .. } => window_id,
        WindowEvent::ThemeChanged { window_id, .. } => window_id,
    }
}

/// The only events the library drops are input-method events, occlusion,
/// drag moves, modifier changes, activation tokens, pan, double-tap and
/// rotation gestures, and pointer buttons that are no mouse button; every
/// other event is reported, for the window it came from.
pub proof fn lemma_dropped_events(
    window_id: usize,
    event: WinitWindowEvent,
    cache: MouseCacheView,
    modifiers: ModifiersState,
    out: Option<WindowEvent>,
)
    requires
        converts_window_event(window_id, event, cache, modifiers, out),
    ensures
        out is None <==> {
            ||| event is Ime
            ||| event is Occluded
            ||| event is DragMoved
            ||| event is ModifiersChanged
            ||| event is ActivationTokenDone
            ||| event is PanGesture
            ||| event is DoubleTapGesture
            ||| event is RotationGesture
            ||| event matches WinitWindowEvent::PointerButton { button: None, .. }
        },
        out matches Some(e) ==> window_of(e) == window_id,
{
}

/// A key press or release is always reported, with the window, the device,
/// the key event, whether it was synthetic, and the state of the modifier
/// keys passed in.
pub proof fn lemma_keyboard_input_is_reported(
    window_id: usize,
    device_id: Option<i64>,
    key: KeyEvent,
    is_synthetic: bool,
    cache: MouseCacheView,
    modifiers: ModifiersState,
    out: Option<WindowEvent>,
)
    requires
        converts_window_event(
            window_id,
            WinitWindowEvent::KeyboardInput { device_id, event: key, is_synthetic },
            cache,
            modifiers,
            out,
        ),
    ensures
        out == Some(
            WindowEvent::KeyboardInput { window_id, device_id, input: key, is_synthetic, modifiers },
        ),
{
}

/// A move of a pointer without a device ID is reported as coming from where
/// it now is, with no button pressed, whatever the cache holds.
pub proof fn lemma_move_without_device(
    window_id: usize,
    position: Vec2Bits,
    cache: MouseCacheView,
    modifiers: ModifiersState,
    out: Option<WindowEvent>,
)
    requires
        converts_window_event(
            window_id,
            WinitWindowEvent::PointerMoved { device_id: None, position },
            cache,
            modifiers,
            out,
        ),
    ensures
        match out {
            Some(WindowEvent::MouseMove { device_id, position: p, prev_position, buttons, .. }) => {
                &&& device_id is None
                &&& p == position
                &&& prev_position == position
                &&& buttons@ == Set::<MouseButton>::empty()
            },
            _ => false,
        },
{
}

/// The device a library device event comes from.
pub open spec fn device_of(event: DeviceEvent) -> i64 {
    match event {
        DeviceEvent::PointerMotion(e) => e.device_id,
        DeviceEvent::MouseWheel(e) => e.device_id,
        DeviceEvent::Button(e) => e.device_id,
        DeviceEvent::KeyboardInput(e) => e.device_id,
    }
}

/// A device event is reported for the device that sent it, and for device
/// zero only when the windowing system named no device; its kind and payload
/// are kept.
pub proof fn lemma_device_event_keeps_device(device_id: Option<i64>, event: WinitDeviceEvent, out: DeviceEvent)
    requires
        out == device_event_of(device_id, event),
    ensures
        device_id matches Some(d) ==> device_of(out) == d,
        device_id is None ==> device_of(out) == 0,
        event matches WinitDeviceEvent::PointerMotion { delta } ==> out matches DeviceEvent::PointerMotion(e)
            && e.delta == delta,
        event matches WinitDeviceEvent::MouseWheel { delta } ==> out matches DeviceEvent::MouseWheel(e)
            && e.delta == delta,
        event matches WinitDeviceEvent::Button { button, state } ==> out matches DeviceEvent::Button(e)
            && e.button == button && e.state == state,
        event matches WinitDeviceEvent::Key(input) ==> out matches DeviceEvent::KeyboardInput(e)
            && e.input == input,
{
}

/// What each reported window event carries: the size or position the
/// system gave, the files dragged, the theme, the raw floating-point bits,
/// the device and phase, focus gained exactly for `Focused(true)`, and the
/// pressed buttons and positions of a pointer as the cache knows them.
pub proof fn lemma_window_event_payloads(
    window_id: usize,
    event: WinitWindowEvent,
    cache: MouseCacheView,
    modifiers: ModifiersState,
    out: Option<WindowEvent>,
)
    requires
        converts_window_event(window_id, event, cache, modifiers, out),
    ensures
        event matches WinitWindowEvent::SurfaceResized { width, height } ==> out matches Some(
            WindowEvent::Resized { size, .. },
        ) && size.x == width && size.y == height,
        event matches WinitWindowEvent::Moved { x, y } ==> out matches Some(
            WindowEvent::Moved { position, .. },
        ) && position.x == x && position.y == y,
        event is CloseRequested ==> out matches Some(WindowEvent::CloseRequested { .. }),
        event is Destroyed ==> out matches Some(WindowEvent::Destroyed { .. }),
        event is RedrawRequested ==> out matches Some(WindowEvent::RedrawRequested { .. }),
        event is DragLeft ==> out matches Some(WindowEvent::HoveredFileCancelled { .. }),
        event matches WinitWindowEvent::DragDropped { paths } ==> out matches Some(
            WindowEvent::DroppedFile { files, .. },
        ) && files == paths,
        event matches WinitWindowEvent::DragEntered { paths } ==> out matches Some(
            WindowEvent::HoveredFile { files, .. },
        ) && files == paths,
        event == WinitWindowEvent::Focused(true) ==> out matches Some(WindowEvent::FocusGained { .. }),
        event == WinitWindowEvent::Focused(false) ==> out matches Some(WindowEvent::FocusLost { .. }),
        event matches WinitWindowEvent::ThemeChanged(t) ==> out matches Some(
            WindowEvent::ThemeChanged { theme, .. },
        ) && theme == t,
        event matches WinitWindowEvent::ScaleFactorChanged { scale_factor_bits } ==> out matches Some(
            WindowEvent::ScaleFactorChanged { scale_factor_bits: b, .. },
        ) && b == scale_factor_bits,
        event matches WinitWindowEvent::TouchpadPressure { device_id, pressure_bits, stage } ==> out matches Some(
            WindowEvent::TouchpadPressure { device_id: d, pressure_bits: p, stage: st, .. },
        ) && d == device_id && p == pressure_bits && st == stage,
        event matches WinitWindowEvent::PinchGesture { device_id, scale_bits, phase } ==> out matches Some(
            WindowEvent::TouchpadMagnify { device_id: d, scale_bits: sb, phase: ph, .. },
        ) && d == device_id && sb == scale_bits && ph == phase,
        event matches WinitWindowEvent::PointerEntered { device_id } ==> out matches Some(
            WindowEvent::MouseEnter { device_id: d, buttons, .. },
        ) && d == device_id && (forall|b: MouseButton|
            #[trigger] buttons@.contains(b) <==> (cache.buttons_of(device_id) matches Some(s) && s.contains(b))),
        event matches WinitWindowEvent::PointerLeft { device_id } ==> out matches Some(
            WindowEvent::MouseLeave { device_id: d, buttons, .. },
        ) && d == device_id && (forall|b: MouseButton|
            #[trigger] buttons@.contains(b) <==> (cache.buttons_of(device_id) matches Some(s) && s.contains(b))),
        event matches WinitWindowEvent::MouseWheel { device_id, delta, phase } ==> out matches Some(
            WindowEvent::MouseWheel { device_id: d, delta: dl, phase: ph, position, .. },
        ) && d == device_id && dl == delta && ph == phase && position == cache.position_of(window_id, device_id),
        event matches WinitWindowEvent::PointerMoved { device_id, position } ==> out matches Some(
            WindowEvent::MouseMove { device_id: d, position: p, prev_position, .. },
        ) && d == device_id && p == position && (cache.prev_position_of(window_id, device_id) is None
            ==> prev_position == position) && (cache.prev_position_of(window_id, device_id) matches Some(q)
            ==> prev_position == q),
        event matches WinitWindowEvent::PointerButton { device_id, state, position, button: Some(b) }
            ==> out matches Some(
            WindowEvent::MouseButton { device_id: d, button: ob, state: st, position: p, prev_position, .. },
        ) && d == device_id && ob == b && st == state && p == position && (cache.prev_position_of(
            window_id,
            device_id,
        ) is None ==> prev_position == position) && (cache.prev_position_of(window_id, device_id) matches Some(q)
            ==> prev_position == q),
{
}

} // verus!
