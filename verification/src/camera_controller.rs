//! The freecam controller: keys that move the camera along the world's
//! axes, and a mouse button that grabs the cursor for zooming.

use crate::input::{buttons_just_pressed, buttons_just_released, key_pressed, keys_held};
use crate::rotator::{
    apply_grab, cursor_grab_update, grab_input_of, motion_after, status_after, windows_after_frame,
    Axis, CursorGrabStatus, PointerMotion, WindowCursor,
};
use bevy::input::keyboard::KeyCode;
use bevy::input::mouse::MouseButton;
use bevy::input::ButtonInput;
use vstd::prelude::*;

verus! {

/// The keys that move the camera and the mouse button that grabs the cursor
/// for zooming.
#[derive(Clone, Copy, Debug)]
pub struct CameraController {
    pub key_forward: KeyCode,
    pub key_back: KeyCode,
    pub key_left: KeyCode,
    pub key_right: KeyCode,
    pub key_up: KeyCode,
    pub key_down: KeyCode,
    pub mouse_key_cursor_zoom: MouseButton,
}

impl Default for CameraController {
    fn default() -> (controller: Self)
        ensures
            controller.key_forward == KeyCode::KeyW,
            controller.key_back == KeyCode::KeyS,
            controller.key_left == KeyCode::KeyA,
            controller.key_right == KeyCode::KeyD,
            controller.key_up == KeyCode::KeyE,
            controller.key_down == KeyCode::KeyQ,
            controller.mouse_key_cursor_zoom == MouseButton::Left,
    {
        Self {
            key_forward: KeyCode::KeyW,
            key_back: KeyCode::KeyS,
            key_left: KeyCode::KeyA,
            key_right: KeyCode::KeyD,
            key_up: KeyCode::KeyE,
            key_down: KeyCode::KeyQ,
            mouse_key_cursor_zoom: MouseButton::Left,
        }
    }
}

/// One step of the camera along an axis: towards larger coordinates if
/// `add` is set, towards smaller ones if not.
#[derive(Clone, Copy, Debug, PartialEq, Eq, Structural)]
pub struct Nudge {
    pub axis: Axis,
    pub add: bool,
}

/// The step along `axis` if it is wanted, else nothing.
pub open spec fn nudge_if(wanted: bool, axis: Axis, add: bool) -> Seq<Nudge> {
    if wanted {
        seq![(Nudge { axis, add })]
    } else {
        Seq::empty()
    }
}

/// The steps of one frame, in the order in which they are applied. Forward
/// is down the Z axis and back is up it, right is up the X axis and left is
/// down it, up is up the Y axis and down is down it. Opposite directions
/// asked for together both take their step, one after the other.
pub open spec fn nudges_for(
    forward: bool,
    back: bool,
    right: bool,
    left: bool,
    up: bool,
    down: bool,
) -> Seq<Nudge> {
    nudge_if(forward, Axis::Z, false) + nudge_if(back, Axis::Z, true) + nudge_if(right, Axis::X, true)
        + nudge_if(left, Axis::X, false) + nudge_if(up, Axis::Y, true) + nudge_if(down, Axis::Y, false)
}

/// Appends the step along `axis` to `nudges` if it is wanted.
fn push_nudge_if(nudges: &mut Vec<Nudge>, wanted: bool, axis: Axis, add: bool)
    ensures
        final(nudges)@ == old(nudges)@ + nudge_if(wanted, axis, add),
{
    if wanted {
        nudges.push(Nudge { axis, add });
    }
    proof {
        assert(nudges@ =~= old(nudges)@ + nudge_if(wanted, axis, add));
    }
}

/// The steps of one frame from the directions asked for.
pub fn plan_nudges(
    forward: bool,
    back: bool,
    right: bool,
    left: bool,
    up: bool,
    down: bool,
) -> (nudges: Vec<Nudge>)
    ensures
        nudges@ == nudges_for(forward, back, right, left, up, down),
{
    let mut nudges: Vec<Nudge> = Vec::new();
    push_nudge_if(&mut nudges, forward, Axis::Z, false);
    proof {
        assert(nudges@ =~= nudge_if(forward, Axis::Z, false));
    }
    push_nudge_if(&mut nudges, back, Axis::Z, true);
    push_nudge_if(&mut nudges, right, Axis::X, true);
    push_nudge_if(&mut nudges, left, Axis::X, false);
    push_nudge_if(&mut nudges, up, Axis::Y, true);
    push_nudge_if(&mut nudges, down, Axis::Y, false);
    nudges
}

/// The steps that the keyboard asks for in one frame: one for each of the
/// controller's six keys that is held.
pub fn handle_keyboard(key_input: &ButtonInput<KeyCode>, controller: &CameraController) -> (nudges: Vec<Nudge>)
    ensures
        nudges@ == nudges_for(
            keys_held(*key_input).contains(controller.key_forward),
            keys_held(*key_input).contains(controller.key_back),
            keys_held(*key_input).contains(controller.key_right),
            keys_held(*key_input).contains(controller.key_left),
            keys_held(*key_input).contains(controller.key_up),
            keys_held(*key_input).contains(controller.key_down),
        ),
{
    let forward = key_pressed(key_input, controller.key_forward);
    let back = key_pressed(key_input, controller.key_back);
    let right = key_pressed(key_input, controller.key_right);
    let left = key_pressed(key_input, controller.key_left);
    let up = key_pressed(key_input, controller.key_up);
    let down = key_pressed(key_input, controller.key_down);
    plan_nudges(forward, back, right, left, up, down)
}

/// One frame of mouse handling for the freecam controller: resolves the
/// gesture of the controller's zoom button and carries it out as
/// [`apply_grab`] does. On `PointerMotion::Apply` the caller zooms the
/// camera by the frame's pointer motion.
pub fn mouse_handler(
    windows: &mut Vec<WindowCursor>,
    mouse_button_input: &ButtonInput<MouseButton>,
    mouse_cursor_grab: &mut bool,
    controller: &CameraController,
) -> (motion: PointerMotion)
    ensures
        ({
            let grab = grab_input_of(
                buttons_just_released(*mouse_button_input).contains(controller.mouse_key_cursor_zoom),
                buttons_just_pressed(*mouse_button_input).contains(controller.mouse_key_cursor_zoom),
            );
            &&& final(windows)@ == windows_after_frame(old(windows)@, grab)
            &&& *final(mouse_cursor_grab) == (status_after(grab, *old(mouse_cursor_grab))
                == CursorGrabStatus::Active)
            &&& motion == motion_after(grab, *old(mouse_cursor_grab))
        }),
{
    let grab = cursor_grab_update(mouse_button_input, controller.mouse_key_cursor_zoom);
    apply_grab(windows, &grab, mouse_cursor_grab)
}

} // verus!
