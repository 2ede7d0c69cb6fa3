//! Bevy's input types as the verifier sees them, and the three queries on
//! [`ButtonInput`] that the controllers make.
//!
//! The enums are read as bevy declares them, variant by variant. `ButtonInput`
//! keeps its sets private, so each set gets a name here and each query a
//! contract over that name; those contracts are believed, not proved.

use bevy::input::keyboard::{KeyCode, NativeKeyCode};
use bevy::input::mouse::MouseButton;
use bevy::input::ButtonInput;
use bevy::window::CursorGrabMode;
use vstd::prelude::*;

verus! {

/// `bevy::input::keyboard::NativeKeyCode`, with its variants.
#[verifier::external_type_specification]
pub struct ExNativeKeyCode(NativeKeyCode);

/// `bevy::input::keyboard::KeyCode`, with its variants.
#[verifier::external_type_specification]
pub struct ExKeyCode(KeyCode);

/// `bevy::input::mouse::MouseButton`, with its variants.
#[verifier::external_type_specification]
pub struct ExMouseButton(MouseButton);

/// `bevy::window::CursorGrabMode`, with its variants.
#[verifier::external_type_specification]
pub struct ExCursorGrabMode(CursorGrabMode);

/// `bevy::input::ButtonInput`. Its three sets are private: a value of it is
/// opaque here and is only ever handed to the queries below.
#[verifier::external_type_specification]
#[verifier::external_body]
#[verifier::reject_recursive_types(T)]
pub struct ExButtonInput<T: Copy + Eq + core::hash::Hash + Send + Sync + 'static>(ButtonInput<T>);

/// The keys that `input` holds as currently pressed.
pub uninterp spec fn keys_held(input: ButtonInput<KeyCode>) -> Set<KeyCode>;

/// The mouse buttons that `input` holds as pressed during the current frame.
pub uninterp spec fn buttons_just_pressed(input: ButtonInput<MouseButton>) -> Set<MouseButton>;

/// The mouse buttons that `input` holds as released during the current frame.
pub uninterp spec fn buttons_just_released(input: ButtonInput<MouseButton>) -> Set<MouseButton>;

/// `ButtonInput::pressed` on a keyboard: whether `key` is in the set of keys
/// that are currently held. Bevy answers with a membership test on that set
/// and changes nothing.
#[verifier::external_body]
pub(crate) fn key_pressed(input: &ButtonInput<KeyCode>, key: KeyCode) -> (held: bool)
    ensures
        held == keys_held(*input).contains(key),
{
    input.pressed(key)
}

/// `ButtonInput::just_pressed` on a mouse: whether `button` is in the set of
/// buttons pressed during this frame. Bevy answers with a membership test on
/// that set and changes nothing.
#[verifier::external_body]
pub(crate) fn button_just_pressed(
    input: &ButtonInput<MouseButton>,
    button: MouseButton,
) -> (found: bool)
    ensures
        found == buttons_just_pressed(*input).contains(button),
{
    input.just_pressed(button)
}

/// `ButtonInput::just_released` on a mouse: whether `button` is in the set of
/// buttons released during this frame. Bevy answers with a membership test on
/// that set and changes nothing.
#[verifier::external_body]
pub(crate) fn button_just_released(
    input: &ButtonInput<MouseButton>,
    button: MouseButton,
) -> (found: bool)
    ensures
        found == buttons_just_released(*input).contains(button),
{
    input.just_released(button)
}

} // verus!
