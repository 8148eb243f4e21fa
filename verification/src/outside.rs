//! Types of the windowing system and of the vector library that events
//! carry through unchanged. The library never looks inside them.

use vstd::prelude::*;

verus! {

/// A two-dimensional vector of 32-bit floats (`glam::Vec2`).
#[verifier::external_type_specification]
#[verifier::external_body]
pub struct ExVec2(glam::Vec2);

/// A keyboard event delivered to a window (`winit::event::KeyEvent`).
#[verifier::external_type_specification]
#[verifier::external_body]
pub struct ExKeyEvent(winit::event::KeyEvent);

/// A raw keyboard event of a device (`winit::event::RawKeyEvent`).
#[verifier::external_type_specification]
#[verifier::external_body]
pub struct ExRawKeyEvent(winit::event::RawKeyEvent);

/// A scroll-wheel movement in lines or pixels (`winit::event::MouseScrollDelta`).
#[verifier::external_type_specification]
#[verifier::external_body]
pub struct ExMouseScrollDelta(winit::event::MouseScrollDelta);

/// The phase of a touch or gesture (`winit::event::TouchPhase`).
#[verifier::external_type_specification]
#[verifier::external_body]
pub struct ExTouchPhase(winit::event::TouchPhase);

/// The state of the modifier keys (`winit::keyboard::ModifiersState`).
#[verifier::external_type_specification]
#[verifier::external_body]
pub struct ExModifiersState(winit::keyboard::ModifiersState);

/// A path on the file system (`std::path::PathBuf`).
#[verifier::external_type_specification]
#[verifier::external_body]
pub struct ExPathBuf(std::path::PathBuf);

} // verus!
