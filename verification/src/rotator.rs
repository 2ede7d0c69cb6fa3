//! The cursor-grab gesture and the keyboard rotator.
//!
//! A designated mouse button grabs the cursor while it is held. Pressing it
//! locks and hides the cursor on the focused window; releasing it frees the
//! cursor everywhere and throws away the pointer motion that piled up during
//! the grab. While the grab is active, pointer motion drives the camera;
//! otherwise it is left alone.

use crate::input::{
    button_just_pressed, button_just_released, buttons_just_pressed, buttons_just_released,
    key_pressed, keys_held,
};
use bevy::input::keyboard::KeyCode;
use bevy::input::mouse::MouseButton;
use bevy::input::ButtonInput;
use bevy::window::CursorGrabMode;
use vstd::prelude::*;

verus! {

/// What the grab button did during one frame.
#[derive(Clone, Copy, Debug, PartialEq, Eq, Structural)]
pub enum CursorGrabInput {
    JustPressed,
    JustReleased,
}

/// Whether a grab is in force.
#[derive(Clone, Copy, Debug, PartialEq, Eq, Structural)]
pub enum CursorGrabStatus {
    Active,
    Inactive,
}

/// What a frame does with the pointer motion that is waiting to be read.
#[derive(Clone, Copy, Debug, PartialEq, Eq, Structural)]
pub enum PointerMotion {
    /// A grab is active: read the motion and let it move the camera.
    Apply,
    /// The grab has just ended: drop whatever motion is buffered.
    Discard,
    /// No grab: leave the motion untouched.
    Ignore,
}

/// The part of a window that the grab gesture reads and writes.
#[derive(Clone, Copy, Debug, PartialEq, Eq)]
pub struct WindowCursor {
    pub focused: bool,
    pub grab_mode: CursorGrabMode,
    pub visible: bool,
}

/// Which mouse button grabs the cursor for looking around.
#[derive(Clone, Copy, Debug)]
pub struct MouseController {
    pub mouse_key_cursor_grab: MouseButton,
}

impl Default for MouseController {
    fn default() -> (controller: Self)
        ensures
            controller.mouse_key_cursor_grab == MouseButton::Left,
    {
        Self { mouse_key_cursor_grab: MouseButton::Left }
    }
}

/// The keys that turn the camera about the origin, and the two shift keys
/// that reverse the direction of a turn.
#[derive(Clone, Copy, Debug)]
pub struct Rotator {
    pub key_y: KeyCode,
    pub key_z: KeyCode,
    pub key_x: KeyCode,
    pub key_i: KeyCode,
    pub key_o: KeyCode,
    pub key_p: KeyCode,
    pub key_shift_left: KeyCode,
    pub key_shift_right: KeyCode,
}

impl Default for Rotator {
    fn default() -> (rotator: Self)
        ensures
            rotator.key_y == KeyCode::KeyY,
            rotator.key_z == KeyCode::KeyZ,
            rotator.key_x == KeyCode::KeyX,
            rotator.key_i == KeyCode::KeyI,
            rotator.key_o == KeyCode::KeyO,
            rotator.key_p == KeyCode::KeyP,
            rotator.key_shift_left == KeyCode::ShiftLeft,
            rotator.key_shift_right == KeyCode::ShiftRight,
    {
        Self {
            key_y: KeyCode::KeyY,
            key_z: KeyCode::KeyZ,
            key_x: KeyCode::KeyX,
            key_i: KeyCode::KeyI,
            key_o: KeyCode::KeyO,
            key_p: KeyCode::KeyP,
            key_shift_left: KeyCode::ShiftLeft,
            key_shift_right: KeyCode::ShiftRight,
        }
    }
}

/// An axis of the world.
#[derive(Clone, Copy, Debug, PartialEq, Eq, Structural)]
pub enum Axis {
    X,
    Y,
    Z,
}

/// A turn about one axis through the origin, by a signed angle in
/// thousandths of a radian.
#[derive(Clone, Copy, Debug, PartialEq, Eq, Structural)]
pub struct Turn {
    pub axis: Axis,
    pub milliradians: i32,
}

/// The angle of one keyboard turn, in thousandths of a radian.
pub const ROTATION_STEP_MILLIRADIANS: i32 = 30;

/// The signed angle of a keyboard turn: the step, negated when reversed.
pub open spec fn turn_angle(reverse: bool) -> i32 {
    if reverse {
        (-ROTATION_STEP_MILLIRADIANS) as i32
    } else {
        ROTATION_STEP_MILLIRADIANS
    }
}

/// The turn about `axis` if it is wanted, else nothing.
pub open spec fn turn_if(wanted: bool, axis: Axis, milliradians: i32) -> Seq<Turn> {
    if wanted {
        seq![(Turn { axis, milliradians })]
    } else {
        Seq::empty()
    }
}

/// The turns of one frame, in the order in which they are applied: about
/// Y, then about Z, then about X, each only if asked for, all by the same
/// signed angle.
pub open spec fn turns_for(reverse: bool, about_y: bool, about_z: bool, about_x: bool) -> Seq<Turn> {
    turn_if(about_y, Axis::Y, turn_angle(reverse)) + turn_if(about_z, Axis::Z, turn_angle(reverse))
        + turn_if(about_x, Axis::X, turn_angle(reverse))
}

/// The gesture of a frame, from the button's two edge signals. A release
/// wins over a press that arrives in the same frame.
pub open spec fn grab_input_of(just_released: bool, just_pressed: bool) -> Option<CursorGrabInput> {
    if just_released {
        Some(CursorGrabInput::JustReleased)
    } else if just_pressed {
        Some(CursorGrabInput::JustPressed)
    } else {
        None
    }
}

/// The grab status once a frame's gesture is taken into account: a gesture
/// decides it, and without one the remembered state stands.
pub open spec fn status_after(grab: Option<CursorGrabInput>, grabbed: bool) -> CursorGrabStatus {
    match grab {
        Some(CursorGrabInput::JustPressed) => CursorGrabStatus::Active,
        Some(CursorGrabInput::JustReleased) => CursorGrabStatus::Inactive,
        None => if grabbed {
            CursorGrabStatus::Active
        } else {
            CursorGrabStatus::Inactive
        },
    }
}

/// What a frame does with pointer motion, given its gesture and the state
/// remembered from the frame before.
pub open spec fn motion_after(grab: Option<CursorGrabInput>, grabbed: bool) -> PointerMotion {
    if grab == Some(CursorGrabInput::JustReleased) {
        PointerMotion::Discard
    } else if status_after(grab, grabbed) == CursorGrabStatus::Active {
        PointerMotion::Apply
    } else {
        PointerMotion::Ignore
    }
}

/// One window's cursor after a gesture. A press locks and hides the cursor
/// of a focused window and leaves other windows alone; a release frees and
/// shows the cursor, focused or not.
pub open spec fn cursor_after(window: WindowCursor, input: CursorGrabInput) -> WindowCursor {
    match input {
        CursorGrabInput::JustPressed => if window.focused {
            WindowCursor { focused: window.focused, grab_mode: CursorGrabMode::Locked, visible: false }
        } else {
            window
        },
        CursorGrabInput::JustReleased => WindowCursor {
            focused: window.focused,
            grab_mode: CursorGrabMode::None,
            visible: true,
        },
    }
}

/// Every window's cursor after a gesture, window by window.
pub open spec fn windows_after(windows: Seq<WindowCursor>, input: CursorGrabInput) -> Seq<WindowCursor> {
    Seq::new(windows.len(), |i: int| cursor_after(windows[i], input))
}

/// The windows after a frame: changed by its gesture, or as they were.
pub open spec fn windows_after_frame(
    windows: Seq<WindowCursor>,
    grab: Option<CursorGrabInput>,
) -> Seq<WindowCursor> {
    match grab {
        Some(input) => windows_after(windows, input),
        None => windows,
    }
}

impl CursorGrabStatus {
    /// The status that a remembered flag stands for.
    pub fn from_grabbed(grabbed: bool) -> (status: CursorGrabStatus)
        ensures
            status == status_after(None, grabbed),
    {
        if grabbed {
            CursorGrabStatus::Active
        } else {
            CursorGrabStatus::Inactive
        }
    }

    /// The flag to remember for this status.
    pub fn is_active(&self) -> (active: bool)
        ensures
            active == (*self == CursorGrabStatus::Active),
    {
        match self {
            CursorGrabStatus::Active => true,
            CursorGrabStatus::Inactive => false,
        }
    }
}

impl WindowCursor {
    /// This window's cursor after `input`.
    pub fn after(self, input: &CursorGrabInput) -> (next: WindowCursor)
        ensures
            next == cursor_after(self, *input),
    {
        match input {
            CursorGrabInput::JustPressed => {
                if self.focused {
                    WindowCursor { focused: self.focused, grab_mode: CursorGrabMode::Locked, visible: false }
                } else {
                    self
                }
            },
            CursorGrabInput::JustReleased => WindowCursor {
                focused: self.focused,
                grab_mode: CursorGrabMode::None,
                visible: true,
            },
        }
    }
}

/// Resolves the two edge signals of the grab button into the frame's gesture.
/// Both can be set in one frame, when press and release are delivered
/// together; that frame counts as a release.
pub fn resolve_grab_input(just_released: bool, just_pressed: bool) -> (grab: Option<CursorGrabInput>)
    ensures
        grab == grab_input_of(just_released, just_pressed),
{
    if just_released {
        Some(CursorGrabInput::JustReleased)
    } else if just_pressed {
        Some(CursorGrabInput::JustPressed)
    } else {
        None
    }
}

/// The gesture that `button` made during the frame that `mouse_button_input`
/// describes, or `None` if it made none.
pub fn cursor_grab_update(
    mouse_button_input: &ButtonInput<MouseButton>,
    button: MouseButton,
) -> (grab: Option<CursorGrabInput>)
    ensures
        grab == grab_input_of(
            buttons_just_released(*mouse_button_input).contains(button),
            buttons_just_pressed(*mouse_button_input).contains(button),
        ),
{
    let just_released = button_just_released(mouse_button_input, button);
    let just_pressed = button_just_pressed(mouse_button_input, button);
    resolve_grab_input(just_released, just_pressed)
}

/// Takes a frame's gesture into account: returns the status that now holds
/// and stores it in `mouse_cursor_grab` for the frames to come.
pub fn update_grab_status(
    grab: &Option<CursorGrabInput>,
    mouse_cursor_grab: &mut bool,
) -> (status: CursorGrabStatus)
    ensures
        status == status_after(*grab, *old(mouse_cursor_grab)),
        *final(mouse_cursor_grab) == (status == CursorGrabStatus::Active),
{
    match grab {
        Some(gesture) => {
            let status = match gesture {
                CursorGrabInput::JustPressed => CursorGrabStatus::Active,
                CursorGrabInput::JustReleased => CursorGrabStatus::Inactive,
            };
            *mouse_cursor_grab = status.is_active();
            status
        },
        None => CursorGrabStatus::from_grabbed(*mouse_cursor_grab),
    }
}

/// Updates cursor visibility and grab mode of every window for a gesture.
/// Returns whether the pointer motion buffered so far is to be dropped,
/// which is the case exactly on a release.
pub fn update_cursor_and_window_for_grab_input(
    windows: &mut Vec<WindowCursor>,
    input: &CursorGrabInput,
) -> (discard_motion: bool)
    ensures
        final(windows)@ == windows_after(old(windows)@, *input),
        discard_motion == (*input == CursorGrabInput::JustReleased),
{
    let count: usize = windows.len();
    let mut i: usize = 0;
    while i < count
        invariant
            i <= count,
            windows@.len() == count,
            old(windows)@.len() == count,
            forall|j: int| 0 <= j < i ==> windows@[j] == cursor_after(old(windows)@[j], *input),
            forall|j: int| i <= j < count ==> windows@[j] == old(windows)@[j],
        decreases count - i,
    {
        let next = windows[i].after(input);
        windows.set(i, next);
        i += 1;
    }
    proof {
        assert(windows@ =~= windows_after(old(windows)@, *input));
    }
    match input {
        CursorGrabInput::JustPressed => false,
        CursorGrabInput::JustReleased => true,
    }
}

/// One frame of the grab gesture, from the gesture already resolved: stores
/// the new state in `mouse_cursor_grab`, updates the windows if there was a
/// gesture, and says what becomes of the waiting pointer motion.
pub fn apply_grab(
    windows: &mut Vec<WindowCursor>,
    grab: &Option<CursorGrabInput>,
    mouse_cursor_grab: &mut bool,
) -> (motion: PointerMotion)
    ensures
        final(windows)@ == windows_after_frame(old(windows)@, *grab),
        *final(mouse_cursor_grab) == (status_after(*grab, *old(mouse_cursor_grab))
            == CursorGrabStatus::Active),
        motion == motion_after(*grab, *old(mouse_cursor_grab)),
{
    let status = update_grab_status(grab, mouse_cursor_grab);
    let discard = match grab {
        Some(input) => update_cursor_and_window_for_grab_input(windows, input),
        None => false,
    };
    if discard {
        PointerMotion::Discard
    } else {
        match status {
            CursorGrabStatus::Active => PointerMotion::Apply,
            CursorGrabStatus::Inactive => PointerMotion::Ignore,
        }
    }
}

/// One frame of mouse handling for a look-around controller: resolves the
/// gesture of the controller's grab button and carries it out as
/// [`apply_grab`] does. On `PointerMotion::Apply` the caller turns the
/// camera by the frame's pointer motion.
pub fn handle_mouse(
    windows: &mut Vec<WindowCursor>,
    mouse_button_input: &ButtonInput<MouseButton>,
    mouse_cursor_grab: &mut bool,
    controller: &MouseController,
) -> (motion: PointerMotion)
    ensures
        ({
            let grab = grab_input_of(
                buttons_just_released(*mouse_button_input).contains(controller.mouse_key_cursor_grab),
                buttons_just_pressed(*mouse_button_input).contains(controller.mouse_key_cursor_grab),
            );
            &&& final(windows)@ == windows_after_frame(old(windows)@, grab)
            &&& *final(mouse_cursor_grab) == (status_after(grab, *old(mouse_cursor_grab))
                == CursorGrabStatus::Active)
            &&& motion == motion_after(grab, *old(mouse_cursor_grab))
        }),
{
    let grab = cursor_grab_update(mouse_button_input, controller.mouse_key_cursor_grab);
    apply_grab(windows, &grab, mouse_cursor_grab)
}

/// Appends the turn about `axis` to `turns` if it is wanted.
fn push_turn_if(turns: &mut Vec<Turn>, wanted: bool, axis: Axis, milliradians: i32)
    ensures
        final(turns)@ == old(turns)@ + turn_if(wanted, axis, milliradians),
{
    if wanted {
        turns.push(Turn { axis, milliradians });
    }
    proof {
        assert(turns@ =~= old(turns)@ + turn_if(wanted, axis, milliradians));
    }
}

/// The turns of one frame from what is asked for: whether to reverse, and
/// about which axes to turn.
pub fn plan_turns(reverse: bool, about_y: bool, about_z: bool, about_x: bool) -> (turns: Vec<Turn>)
    ensures
        turns@ == turns_for(reverse, about_y, about_z, about_x),
{
    let milliradians: i32 = if reverse {
        -ROTATION_STEP_MILLIRADIANS
    } else {
        ROTATION_STEP_MILLIRADIANS
    };
    let mut turns: Vec<Turn> = Vec::new();
    push_turn_if(&mut turns, about_y, Axis::Y, milliradians);
    proof {
        assert(turns@ =~= turn_if(about_y, Axis::Y, milliradians));
    }
    push_turn_if(&mut turns, about_z, Axis::Z, milliradians);
    push_turn_if(&mut turns, about_x, Axis::X, milliradians);
    turns
}

/// The turns that the keyboard asks for in one frame. Each of `y_key`,
/// `z_key` and `x_key` that is held turns the camera about its axis; either
/// of the rotator's shift keys, held, reverses all of them.
pub fn rotate(
    key_input: &ButtonInput<KeyCode>,
    rotator: &Rotator,
    x_key: KeyCode,
    y_key: KeyCode,
    z_key: KeyCode,
) -> (turns: Vec<Turn>)
    ensures
        turns@ == turns_for(
            keys_held(*key_input).contains(rotator.key_shift_left) || keys_held(*key_input).contains(
                rotator.key_shift_right,
            ),
            keys_held(*key_input).contains(y_key),
            keys_held(*key_input).contains(z_key),
            keys_held(*key_input).contains(x_key),
        ),
{
    let reverse = key_pressed(key_input, rotator.key_shift_left) || key_pressed(
        key_input,
        rotator.key_shift_right,
    );
    let about_y = key_pressed(key_input, y_key);
    let about_z = key_pressed(key_input, z_key);
    let about_x = key_pressed(key_input, x_key);
    plan_turns(reverse, about_y, about_z, about_x)
}

/// A frame in which the button was released counts as a release, whether or
/// not the button was also pressed in it.
pub proof fn release_takes_priority(just_pressed: bool)
    ensures
        grab_input_of(true, just_pressed) == Some(CursorGrabInput::JustReleased),
{
}

/// Buffered pointer motion is dropped in the frames whose gesture is a
/// release, and in no others.
pub proof fn motion_is_discarded_exactly_on_release(grab: Option<CursorGrabInput>, grabbed: bool)
    ensures
        (motion_after(grab, grabbed) == PointerMotion::Discard) <==> (grab == Some(
            CursorGrabInput::JustReleased,
        )),
{
}

/// Pointer motion moves the camera in the frames that leave the grab active,
/// and in no others.
pub proof fn motion_is_applied_exactly_while_grabbed(grab: Option<CursorGrabInput>, grabbed: bool)
    ensures
        (motion_after(grab, grabbed) == PointerMotion::Apply) <==> (status_after(grab, grabbed)
            == CursorGrabStatus::Active),
{
}

/// The status that a frame leaves behind stands in every following frame
/// that has no gesture.
pub proof fn status_stands_without_gesture(grab: Option<CursorGrabInput>, grabbed: bool)
    ensures
        status_after(None, status_after(grab, grabbed) == CursorGrabStatus::Active) == status_after(
            grab,
            grabbed,
        ),
{
}

/// A gesture changes how many windows there are, and which of them are
/// focused, in no way.
pub proof fn gesture_keeps_windows_and_focus(windows: Seq<WindowCursor>, input: CursorGrabInput, i: int)
    requires
        0 <= i < windows.len(),
    ensures
        windows_after(windows, input).len() == windows.len(),
        windows_after(windows, input)[i].focused == windows[i].focused,
{
}

/// After a release the cursor is free and visible on every window.
pub proof fn release_frees_every_window(windows: Seq<WindowCursor>, i: int)
    requires
        0 <= i < windows.len(),
    ensures
        windows_after(windows, CursorGrabInput::JustReleased)[i].grab_mode == CursorGrabMode::None,
        windows_after(windows, CursorGrabInput::JustReleased)[i].visible,
{
}

/// After a press the cursor is locked and hidden on every focused window,
/// and every other window is as it was.
pub proof fn press_locks_focused_windows_only(windows: Seq<WindowCursor>, i: int)
    requires
        0 <= i < windows.len(),
    ensures
        windows[i].focused ==> {
            &&& windows_after(windows, CursorGrabInput::JustPressed)[i].grab_mode == CursorGrabMode::Locked
            &&& !windows_after(windows, CursorGrabInput::JustPressed)[i].visible
        },
        !windows[i].focused ==> windows_after(windows, CursorGrabInput::JustPressed)[i] == windows[i],
{
}

/// A release after a press leaves the windows as a release alone does.
pub proof fn release_after_press_is_a_release(windows: Seq<WindowCursor>)
    ensures
        windows_after(windows_after(windows, CursorGrabInput::JustPressed), CursorGrabInput::JustReleased)
            == windows_after(windows, CursorGrabInput::JustReleased),
{
    assert(windows_after(
        windows_after(windows, CursorGrabInput::JustPressed),
        CursorGrabInput::JustReleased,
    ) =~= windows_after(windows, CursorGrabInput::JustReleased));
}

/// Reversing a frame's turns keeps their number, order and axes, and negates
/// every angle.
pub proof fn reverse_negates_every_turn(about_y: bool, about_z: bool, about_x: bool, i: int)
    requires
        0 <= i < turns_for(false, about_y, about_z, about_x).len(),
    ensures
        ({
            let plain = turns_for(false, about_y, about_z, about_x);
            let reversed = turns_for(true, about_y, about_z, about_x);
            &&& reversed.len() == plain.len()
            &&& reversed[i].axis == plain[i].axis
            &&& reversed[i].milliradians == -plain[i].milliradians
        }),
{
}

} // verus!
