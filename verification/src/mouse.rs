//! Mouse buttons, the set of pressed buttons of a device, and the cache of
//! the latest pointer positions and pressed buttons per window and device.

use vstd::prelude::*;
use std::collections::{BTreeMap, BTreeSet};
use crate::event::{ElementState, WinitWindowEvent};

verus! {

/// A point of two `f32` coordinates, each held by its bit pattern
/// (`f32::to_bits`).
#[derive(Clone, Copy, Debug, PartialEq, Eq, Hash, Structural)]
pub struct Vec2Bits {
    pub x: u32,
    pub y: u32,
}

impl Vec2Bits {
    /// The zero vector: `+0.0` has the bit pattern zero.
    pub open spec fn zero_spec() -> Vec2Bits {
        Vec2Bits { x: 0, y: 0 }
    }
}

/// A button of a mouse.
#[derive(Clone, Copy, Debug, PartialEq, Eq, Hash, PartialOrd, Ord, Structural)]
pub enum MouseButton {
    Left,
    Right,
    Middle,
    Back,
    Forward,
    Other(u16),
}

/// The number by which a button is stored: the buttons in their declared
/// order, then `Other` by its number. This order is the order of the type.
pub open spec fn button_code(button: MouseButton) -> u32 {
    match button {
        MouseButton::Left => 0,
        MouseButton::Right => 1,
        MouseButton::Middle => 2,
        MouseButton::Back => 3,
        MouseButton::Forward => 4,
        MouseButton::Other(n) => (5 + n) as u32,
    }
}

/// Two buttons share a code only if they are the same button.
pub proof fn lemma_button_code_injective(a: MouseButton, b: MouseButton)
    ensures
        button_code(a) == button_code(b) ==> a == b,
{
}

fn code_of(button: MouseButton) -> (code: u32)
    ensures
        code == button_code(button),
{
    match button {
        MouseButton::Left => 0,
        MouseButton::Right => 1,
        MouseButton::Middle => 2,
        MouseButton::Back => 3,
        MouseButton::Forward => 4,
        MouseButton::Other(n) => 5 + n as u32,
    }
}

/// The button of a windowing-system mouse button given by its number:
/// the first five numbers are left, right, middle, back and forward; every
/// other button is reported as `Other(0)`.
pub open spec fn mouse_button_from_raw_spec(raw: u8) -> MouseButton {
    if raw == 0 {
        MouseButton::Left
    } else if raw == 1 {
        MouseButton::Right
    } else if raw == 2 {
        MouseButton::Middle
    } else if raw == 3 {
        MouseButton::Back
    } else if raw == 4 {
        MouseButton::Forward
    } else {
        MouseButton::Other(0)
    }
}

/// Map a windowing-system mouse button, given by its number, to a button.
pub fn mouse_button_from_raw(raw: u8) -> (button: MouseButton)
    ensures
        button == mouse_button_from_raw_spec(raw),
{
    match raw {
        0 => MouseButton::Left,
        1 => MouseButton::Right,
        2 => MouseButton::Middle,
        3 => MouseButton::Back,
        4 => MouseButton::Forward,
        _ => MouseButton::Other(0),
    }
}

/// The button stored by `code`, for every code of a button.
pub open spec fn button_of_code(code: u32) -> MouseButton {
    if code == 0 {
        MouseButton::Left
    } else if code == 1 {
        MouseButton::Right
    } else if code == 2 {
        MouseButton::Middle
    } else if code == 3 {
        MouseButton::Back
    } else if code == 4 {
        MouseButton::Forward
    } else {
        MouseButton::Other((code - 5) as u16)
    }
}

/// The codes of buttons are exactly the numbers up to `5 + u16::MAX`, so
/// a set of such codes is known from the buttons it holds.
pub proof fn lemma_codes_are_buttons(code: u32)
    requires
        code <= 5 + 0xffff,
    ensures
        button_code(button_of_code(code)) == code,
{
}

/// The set of pressed buttons of a mouse.
#[derive(Debug, PartialEq, Eq)]
pub struct MouseButtonState {
    buttons: BTreeSet<u32>,
}

impl MouseButtonState {
    /// Only codes of buttons are stored, so the set of pressed buttons fixes
    /// the stored set.
    #[verifier::type_invariant]
    spec fn stores_button_codes(&self) -> bool {
        forall|c: u32| self.buttons@.contains(c) ==> c <= 5 + 0xffff
    }
}

impl View for MouseButtonState {
    type V = Set<MouseButton>;

    closed spec fn view(&self) -> Set<MouseButton> {
        Set::new(|b: MouseButton| self.buttons@.contains(button_code(b)))
    }
}

impl Clone for MouseButtonState {
    fn clone(&self) -> (copy: Self)
        ensures
            copy@ == self@,
    {
        proof {
            use_type_invariant(self);
        }
        let copy = MouseButtonState { buttons: self.buttons.clone() };
        assert(copy@ =~= self@);
        copy
    }
}

impl Default for MouseButtonState {
    fn default() -> (state: Self)
        ensures
            state@ == Set::<MouseButton>::empty(),
    {
        MouseButtonState::new()
    }
}

impl MouseButtonState {
    /// No button pressed.
    pub fn new() -> (state: Self)
        ensures
            state@ == Set::<MouseButton>::empty(),
    {
        let state = MouseButtonState { buttons: BTreeSet::new() };
        assert(state@ =~= Set::<MouseButton>::empty());
        state
    }

    /// Whether `button` is pressed.
    pub fn is_pressed(&self, button: MouseButton) -> (pressed: bool)
        ensures
            pressed == self@.contains(button),
    {
        self.buttons.contains(&code_of(button))
    }

    /// Mark `button` as pressed or released.
    pub fn set_pressed(&mut self, button: MouseButton, pressed: bool)
        ensures
            final(self)@ == (if pressed {
                old(self)@.insert(button)
            } else {
                old(self)@.remove(button)
            }),
    {
        proof {
            use_type_invariant(&*self);
        }
        let code = code_of(button);
        let mut buttons = self.buttons.clone();
        if pressed {
            buttons.insert(code);
        } else {
            buttons.remove(&code);
        }
        *self = MouseButtonState { buttons };
        proof {
            assert forall|b: MouseButton| #[trigger] self@.contains(b) == (if pressed {
                old(self)@.insert(button)
            } else {
                old(self)@.remove(button)
            }).contains(b) by {
                lemma_button_code_injective(b, button);
            }
            assert(self@ =~= (if pressed {
                old(self)@.insert(button)
            } else {
                old(self)@.remove(button)
            }));
        }
    }
}

/// What the mouse cache knows: the pressed buttons per device, and the
/// latest and the one-before-latest pointer position per window and device.
/// The zero vector stands in for the previous position of a pointer whose
/// position was not known before.
pub struct MouseCacheView {
    pub buttons: Map<i64, Set<MouseButton>>,
    pub positions: Map<(usize, i64), Vec2Bits>,
    pub prev_positions: Map<(usize, i64), Vec2Bits>,
}

impl MouseCacheView {
    /// The latest position of the pointer of `device_id` in `window_id`.
    pub open spec fn position_of(self, window_id: usize, device_id: Option<i64>) -> Option<Vec2Bits> {
        match device_id {
            None => None,
            Some(d) => if self.positions.contains_key((window_id, d)) {
                Some(self.positions[(window_id, d)])
            } else {
                None
            },
        }
    }

    /// The position before the latest one of the pointer of `device_id` in
    /// `window_id`.
    pub open spec fn prev_position_of(self, window_id: usize, device_id: Option<i64>) -> Option<Vec2Bits> {
        match device_id {
            None => None,
            Some(d) => if self.prev_positions.contains_key((window_id, d)) {
                Some(self.prev_positions[(window_id, d)])
            } else {
                None
            },
        }
    }

    /// The pressed buttons of `device_id`, if any are known.
    pub open spec fn buttons_of(self, device_id: Option<i64>) -> Option<Set<MouseButton>> {
        match device_id {
            None => None,
            Some(d) => if self.buttons.contains_key(d) {
                Some(self.buttons[d])
            } else {
                None
            },
        }
    }

    /// The pressed buttons of `device_id`; none where nothing is known.
    pub open spec fn buttons_or_none_pressed(self, device_id: Option<i64>) -> Set<MouseButton> {
        match self.buttons_of(device_id) {
            Some(b) => b,
            None => Set::empty(),
        }
    }

    /// What the cache knows after it has seen `event` in window `window_id`:
    /// a mouse button of a known device is marked pressed or released; a
    /// pointer of a known device moves, its latest position becoming the
    /// previous one (the zero vector if there was none); nothing else changes.
    pub open spec fn after_event(self, window_id: usize, event: WinitWindowEvent) -> MouseCacheView {
        match event {
            WinitWindowEvent::PointerButton {
                device_id: Some(d),
                state,
                button: Some(button),
                ..
            } => {
                let before = self.buttons_or_none_pressed(Some(d));
                let after = if state == ElementState::Pressed {
                    before.insert(button)
                } else {
                    before.remove(button)
                };
                MouseCacheView {
                    buttons: self.buttons.insert(d, after),
                    positions: self.positions,
                    prev_positions: self.prev_positions,
                }
            },
            WinitWindowEvent::PointerMoved { device_id: Some(d), position } => {
                let prev = match self.position_of(window_id, Some(d)) {
                    Some(p) => p,
                    None => Vec2Bits::zero_spec(),
                };
                MouseCacheView {
                    buttons: self.buttons,
                    positions: self.positions.insert((window_id, d), position),
                    prev_positions: self.prev_positions.insert((window_id, d), prev),
                }
            },
            _ => self,
        }
    }
}

/// The latest pointer positions and pressed mouse buttons per window and
/// device, kept up to date from window events.
pub struct MouseCache {
    mouse_buttons: BTreeMap<i64, MouseButtonState>,
    mouse_position: BTreeMap<(usize, i64), Vec2Bits>,
    mouse_prev_position: BTreeMap<(usize, i64), Vec2Bits>,
}

impl View for MouseCache {
    type V = MouseCacheView;

    closed spec fn view(&self) -> MouseCacheView {
        MouseCacheView {
            buttons: self.mouse_buttons@.map_values(|s: MouseButtonState| s@),
            positions: self.mouse_position@,
            prev_positions: self.mouse_prev_position@,
        }
    }
}

impl Default for MouseCache {
    fn default() -> (cache: Self)
        ensures
            cache@.buttons == Map::<i64, Set<MouseButton>>::empty(),
            cache@.positions == Map::<(usize, i64), Vec2Bits>::empty(),
            cache@.prev_positions == Map::<(usize, i64), Vec2Bits>::empty(),
    {
        MouseCache::new()
    }
}

impl MouseCache {
    /// An empty cache.
    pub fn new() -> (cache: Self)
        ensures
            cache@.buttons == Map::<i64, Set<MouseButton>>::empty(),
            cache@.positions == Map::<(usize, i64), Vec2Bits>::empty(),
            cache@.prev_positions == Map::<(usize, i64), Vec2Bits>::empty(),
    {
        let cache = MouseCache {
            mouse_buttons: BTreeMap::new(),
            mouse_position: BTreeMap::new(),
            mouse_prev_position: BTreeMap::new(),
        };
        assert(cache@.buttons =~= Map::<i64, Set<MouseButton>>::empty());
        cache
    }

    /// The latest position of the pointer of `device_id` in `window_id`.
    pub fn get_position(&self, window_id: usize, device_id: Option<i64>) -> (position: Option<Vec2Bits>)
        ensures
            position == self@.position_of(window_id, device_id),
    {
        match device_id {
            None => None,
            Some(d) => match self.mouse_position.get(&(window_id, d)) {
                Some(p) => Some(*p),
                None => None,
            },
        }
    }

    /// The position before the latest one of the pointer of `device_id` in
    /// `window_id`.
    pub fn get_prev_position(&self, window_id: usize, device_id: Option<i64>) -> (position: Option<Vec2Bits>)
        ensures
            position == self@.prev_position_of(window_id, device_id),
    {
        match device_id {
            None => None,
            Some(d) => match self.mouse_prev_position.get(&(window_id, d)) {
                Some(p) => Some(*p),
                None => None,
            },
        }
    }

    /// The pressed buttons of `device_id`.
    pub fn get_buttons(&self, device_id: Option<i64>) -> (buttons: Option<&MouseButtonState>)
        ensures
            match buttons {
                Some(b) => self@.buttons_of(device_id) == Some(b@),
                None => self@.buttons_of(device_id) is None,
            },
    {
        match device_id {
            None => None,
            Some(d) => self.mouse_buttons.get(&d),
        }
    }

    /// Update the cache from a window event.
    pub fn handle_window_event(&mut self, window_id: usize, event: &WinitWindowEvent)
        ensures
            final(self)@ == old(self)@.after_event(window_id, *event),
    {
        match event {
            WinitWindowEvent::PointerButton {
                device_id: Some(device_id),
                state,
                button: Some(button),
                ..
            } => {
                let mut buttons = match self.mouse_buttons.get(device_id) {
                    Some(b) => b.clone(),
                    None => MouseButtonState::new(),
                };
                let pressed = match state {
                    ElementState::Pressed => true,
                    ElementState::Released => false,
                };
                buttons.set_pressed(*button, pressed);
                self.mouse_buttons.insert(*device_id, buttons);
                proof {
                    assert(self@.buttons =~= old(self)@.after_event(window_id, *event).buttons);
                }
            },
            WinitWindowEvent::PointerMoved { device_id: Some(device_id), position } => {
                let key = (window_id, *device_id);
                let cached = match self.mouse_position.get(&key) {
                    Some(p) => *p,
                    None => Vec2Bits { x: 0, y: 0 },
                };
                self.mouse_prev_position.insert(key, cached);
                self.mouse_position.insert(key, *position);
            },
            _ => {},
        }
    }
}

/// The cache after a move of the pointer of `device_id` to `position`.
pub open spec fn after_move(cache: MouseCacheView, window_id: usize, device_id: i64, position: Vec2Bits) -> MouseCacheView {
    cache.after_event(window_id, WinitWindowEvent::PointerMoved { device_id: Some(device_id), position })
}

/// The cache after a button of `device_id` changed to `state`.
pub open spec fn after_button(
    cache: MouseCacheView,
    window_id: usize,
    device_id: i64,
    state: ElementState,
    position: Vec2Bits,
    button: MouseButton,
) -> MouseCacheView {
    cache.after_event(
        window_id,
        WinitWindowEvent::PointerButton { device_id: Some(device_id), state, position, button: Some(button) },
    )
}

/// After the pointer of a device moves in a window, the cache gives the new
/// position as the latest one and the one it knew before (the zero vector,
/// if none) as the previous one; it knows the same of every other window and
/// device, and of the buttons, as before.
pub proof fn lemma_move_updates_only_its_pointer(
    cache: MouseCacheView,
    window_id: usize,
    device_id: i64,
    position: Vec2Bits,
)
    ensures
        after_move(cache, window_id, device_id, position).position_of(window_id, Some(device_id))
            == Some(position),
        after_move(cache, window_id, device_id, position).prev_position_of(window_id, Some(device_id))
            == Some(
            match cache.position_of(window_id, Some(device_id)) {
                Some(p) => p,
                None => Vec2Bits::zero_spec(),
            },
        ),
        forall|w: usize, d: i64|
            (w, d) != (window_id, device_id) ==> {
                &&& #[trigger] after_move(cache, window_id, device_id, position).position_of(w, Some(d))
                    == cache.position_of(w, Some(d))
                &&& after_move(cache, window_id, device_id, position).prev_position_of(w, Some(d))
                    == cache.prev_position_of(w, Some(d))
            },
        after_move(cache, window_id, device_id, position).buttons == cache.buttons,
{
}

/// After a mouse button of a device is pressed (released), the cache counts
/// it among the pressed buttons of that device (no longer counts it); every
/// other button and every other device stay as they were, and so do the
/// positions.
pub proof fn lemma_button_updates_only_its_button(
    cache: MouseCacheView,
    window_id: usize,
    device_id: i64,
    state: ElementState,
    position: Vec2Bits,
    button: MouseButton,
)
    ensures
        after_button(cache, window_id, device_id, state, position, button).buttons_or_none_pressed(
            Some(device_id),
        ).contains(button) == (state == ElementState::Pressed),
        forall|b: MouseButton|
            b != button ==> #[trigger] after_button(
                cache,
                window_id,
                device_id,
                state,
                position,
                button,
            ).buttons_or_none_pressed(Some(device_id)).contains(b) == cache.buttons_or_none_pressed(
                Some(device_id),
            ).contains(b),
        forall|d: i64|
            d != device_id ==> #[trigger] after_button(
                cache,
                window_id,
                device_id,
                state,
                position,
                button,
            ).buttons_of(Some(d)) == cache.buttons_of(Some(d)),
        after_button(cache, window_id, device_id, state, position, button).positions == cache.positions,
        after_button(cache, window_id, device_id, state, position, button).prev_positions
            == cache.prev_positions,
{
}

/// A pointer whose latest position the cache knows also has a previous
/// position there, and the other way round, whatever events come.
pub proof fn lemma_positions_and_previous_share_keys(cache: MouseCacheView, window_id: usize, event: WinitWindowEvent)
    requires
        cache.positions.dom() == cache.prev_positions.dom(),
    ensures
        cache.after_event(window_id, event).positions.dom() == cache.after_event(
            window_id,
            event,
        ).prev_positions.dom(),
{
    match event {
        WinitWindowEvent::PointerMoved { device_id: Some(d), position } => {
            assert(cache.after_event(window_id, event).positions.dom() =~= cache.after_event(
                window_id,
                event,
            ).prev_positions.dom());
        },
        _ => {},
    }
}

/// What the cache knows after seeing `events` in order, each with the window
/// it came from.
pub open spec fn after_events(cache: MouseCacheView, events: Seq<(usize, WinitWindowEvent)>) -> MouseCacheView
    decreases events.len(),
{
    if events.len() == 0 {
        cache
    } else {
        after_events(cache, events.drop_last()).after_event(events.last().0, events.last().1)
    }
}

/// However many events a cache has seen since it was empty, it knows a
/// previous position for exactly the pointers whose latest position it knows.
pub proof fn lemma_history_positions_share_keys(cache: MouseCacheView, events: Seq<(usize, WinitWindowEvent)>)
    requires
        cache.positions.dom() == cache.prev_positions.dom(),
    ensures
        after_events(cache, events).positions.dom() == after_events(cache, events).prev_positions.dom(),
    decreases events.len(),
{
    if events.len() > 0 {
        lemma_history_positions_share_keys(cache, events.drop_last());
        lemma_positions_and_previous_share_keys(
            after_events(cache, events.drop_last()),
            events.last().0,
            events.last().1,
        );
    }
}

/// A pointer without a device ID is never looked up: the cache knows no
/// position, previous position or pressed buttons for it, in any window.
pub proof fn lemma_no_device_finds_nothing(cache: MouseCacheView, window_id: usize)
    ensures
        cache.position_of(window_id, None) is None,
        cache.prev_position_of(window_id, None) is None,
        cache.buttons_of(None) is None,
        cache.buttons_or_none_pressed(None) == Set::<MouseButton>::empty(),
{
}

/// Only two kinds of events change the cache: a button of a mouse with a
/// device ID, and a move of a pointer with a device ID. Every other event
/// (leaving or entering a window, scrolling, keys, events without a device
/// ID, buttons that are no mouse button, ...) leaves the pressed buttons,
/// the positions and the previous positions as they were.
pub proof fn lemma_other_events_leave_cache_unchanged(
    cache: MouseCacheView,
    window_id: usize,
    event: WinitWindowEvent,
)
    requires
        !(event matches WinitWindowEvent::PointerButton { device_id: Some(_), button: Some(_), .. }),
        !(event matches WinitWindowEvent::PointerMoved { device_id: Some(_), .. }),
    ensures
        cache.after_event(window_id, event).buttons == cache.buttons,
        cache.after_event(window_id, event).positions == cache.positions,
        cache.after_event(window_id, event).prev_positions == cache.prev_positions,
{
}

/// Whatever the event, the cache keeps every pressed-button set of every
/// other device, and every position of every other window or device.
pub proof fn lemma_event_touches_only_its_device(
    cache: MouseCacheView,
    window_id: usize,
    event: WinitWindowEvent,
    w: usize,
    d: i64,
)
    requires
        !(event matches WinitWindowEvent::PointerButton { device_id: Some(e), .. } && e == d),
        !(event matches WinitWindowEvent::PointerMoved { device_id: Some(e), .. } && e == d
            && w == window_id),
    ensures
        cache.after_event(window_id, event).buttons_of(Some(d)) == cache.buttons_of(Some(d)),
        cache.after_event(window_id, event).position_of(w, Some(d)) == cache.position_of(w, Some(d)),
        cache.after_event(window_id, event).prev_position_of(w, Some(d)) == cache.prev_position_of(
            w,
            Some(d),
        ),
{
}

} // verus!
