use bevy::input::mouse::MouseButton;
use bevy::input::ButtonInput;
use bevy::window::CursorGrabMode;
use freecam::rotator::{
    apply_grab, cursor_grab_update, handle_mouse, resolve_grab_input, update_cursor_and_window_for_grab_input,
    update_grab_status, CursorGrabInput, CursorGrabStatus, MouseController, PointerMotion, WindowCursor,
};

fn window(focused: bool, grab_mode: CursorGrabMode, visible: bool) -> WindowCursor {
    WindowCursor { focused, grab_mode, visible }
}

#[test]
fn release_wins_over_press_in_the_same_frame() {
    assert_eq!(resolve_grab_input(true, true), Some(CursorGrabInput::JustReleased));
}

#[test]
fn release_alone_resolves_to_release() {
    assert_eq!(resolve_grab_input(true, false), Some(CursorGrabInput::JustReleased));
}

#[test]
fn press_alone_resolves_to_press() {
    assert_eq!(resolve_grab_input(false, true), Some(CursorGrabInput::JustPressed));
}

#[test]
fn no_edge_resolves_to_no_change() {
    assert_eq!(resolve_grab_input(false, false), None);
}

#[test]
fn untouched_button_makes_no_gesture() {
    let input = ButtonInput::<MouseButton>::default();
    assert_eq!(cursor_grab_update(&input, MouseButton::Left), None);
}

#[test]
fn pressed_button_makes_a_press() {
    let mut input = ButtonInput::<MouseButton>::default();
    input.press(MouseButton::Left);
    assert_eq!(cursor_grab_update(&input, MouseButton::Left), Some(CursorGrabInput::JustPressed));
}

#[test]
fn held_button_makes_no_gesture_in_later_frames() {
    let mut input = ButtonInput::<MouseButton>::default();
    input.press(MouseButton::Left);
    input.clear();
    assert!(input.pressed(MouseButton::Left));
    assert_eq!(cursor_grab_update(&input, MouseButton::Left), None);
}

#[test]
fn released_button_makes_a_release() {
    let mut input = ButtonInput::<MouseButton>::default();
    input.press(MouseButton::Left);
    input.clear();
    input.release(MouseButton::Left);
    assert_eq!(cursor_grab_update(&input, MouseButton::Left), Some(CursorGrabInput::JustReleased));
}

#[test]
fn press_and_release_delivered_together_make_a_release() {
    let mut input = ButtonInput::<MouseButton>::default();
    input.press(MouseButton::Left);
    input.release(MouseButton::Left);
    assert!(input.just_pressed(MouseButton::Left));
    assert!(input.just_released(MouseButton::Left));
    assert_eq!(cursor_grab_update(&input, MouseButton::Left), Some(CursorGrabInput::JustReleased));
}

#[test]
fn only_the_designated_button_counts() {
    let mut input = ButtonInput::<MouseButton>::default();
    input.press(MouseButton::Right);
    input.press(MouseButton::Other(7));
    assert_eq!(cursor_grab_update(&input, MouseButton::Left), None);
    assert_eq!(cursor_grab_update(&input, MouseButton::Right), Some(CursorGrabInput::JustPressed));
    assert_eq!(cursor_grab_update(&input, MouseButton::Other(7)), Some(CursorGrabInput::JustPressed));
    assert_eq!(cursor_grab_update(&input, MouseButton::Other(8)), None);
}

#[test]
fn release_of_one_button_and_press_of_another_are_told_apart() {
    let mut input = ButtonInput::<MouseButton>::default();
    input.press(MouseButton::Left);
    input.clear();
    input.release(MouseButton::Left);
    input.press(MouseButton::Right);
    assert_eq!(cursor_grab_update(&input, MouseButton::Left), Some(CursorGrabInput::JustReleased));
    assert_eq!(cursor_grab_update(&input, MouseButton::Right), Some(CursorGrabInput::JustPressed));
}

#[test]
fn press_activates_and_is_remembered() {
    for before in [false, true] {
        let mut grabbed = before;
        let status = update_grab_status(&Some(CursorGrabInput::JustPressed), &mut grabbed);
        assert_eq!(status, CursorGrabStatus::Active);
        assert!(grabbed);
    }
}

#[test]
fn release_deactivates_and_is_remembered() {
    for before in [false, true] {
        let mut grabbed = before;
        let status = update_grab_status(&Some(CursorGrabInput::JustReleased), &mut grabbed);
        assert_eq!(status, CursorGrabStatus::Inactive);
        assert!(!grabbed);
    }
}

#[test]
fn no_gesture_keeps_the_remembered_status() {
    let mut grabbed = true;
    assert_eq!(update_grab_status(&None, &mut grabbed), CursorGrabStatus::Active);
    assert!(grabbed);
    let mut grabbed = false;
    assert_eq!(update_grab_status(&None, &mut grabbed), CursorGrabStatus::Inactive);
    assert!(!grabbed);
}

#[test]
fn status_and_flag_convert_both_ways() {
    assert_eq!(CursorGrabStatus::from_grabbed(true), CursorGrabStatus::Active);
    assert_eq!(CursorGrabStatus::from_grabbed(false), CursorGrabStatus::Inactive);
    assert!(CursorGrabStatus::Active.is_active());
    assert!(!CursorGrabStatus::Inactive.is_active());
}

#[test]
fn press_locks_and_hides_the_focused_window_only() {
    let mut windows = vec![
        window(false, CursorGrabMode::None, true),
        window(true, CursorGrabMode::None, true),
        window(false, CursorGrabMode::Confined, false),
    ];
    let discard = update_cursor_and_window_for_grab_input(&mut windows, &CursorGrabInput::JustPressed);
    assert!(!discard);
    assert_eq!(
        windows,
        vec![
            window(false, CursorGrabMode::None, true),
            window(true, CursorGrabMode::Locked, false),
            window(false, CursorGrabMode::Confined, false),
        ]
    );
}

#[test]
fn release_frees_and_shows_every_window_and_discards_motion() {
    let mut windows = vec![
        window(false, CursorGrabMode::Locked, false),
        window(true, CursorGrabMode::Locked, false),
        window(false, CursorGrabMode::Confined, true),
    ];
    let discard = update_cursor_and_window_for_grab_input(&mut windows, &CursorGrabInput::JustReleased);
    assert!(discard);
    assert_eq!(
        windows,
        vec![
            window(false, CursorGrabMode::None, true),
            window(true, CursorGrabMode::None, true),
            window(false, CursorGrabMode::None, true),
        ]
    );
}

#[test]
fn gestures_on_no_windows_change_nothing() {
    let mut windows: Vec<WindowCursor> = Vec::new();
    assert!(!update_cursor_and_window_for_grab_input(&mut windows, &CursorGrabInput::JustPressed));
    assert!(windows.is_empty());
    assert!(update_cursor_and_window_for_grab_input(&mut windows, &CursorGrabInput::JustReleased));
    assert!(windows.is_empty());
}

#[test]
fn one_window_follows_a_gesture() {
    let focused = window(true, CursorGrabMode::Confined, true);
    let unfocused = window(false, CursorGrabMode::Confined, true);
    assert_eq!(focused.after(&CursorGrabInput::JustPressed), window(true, CursorGrabMode::Locked, false));
    assert_eq!(unfocused.after(&CursorGrabInput::JustPressed), unfocused);
    assert_eq!(focused.after(&CursorGrabInput::JustReleased), window(true, CursorGrabMode::None, true));
    assert_eq!(unfocused.after(&CursorGrabInput::JustReleased), window(false, CursorGrabMode::None, true));
}

#[test]
fn release_after_press_equals_release_alone() {
    let start = vec![
        window(true, CursorGrabMode::Confined, false),
        window(false, CursorGrabMode::Locked, false),
    ];
    let mut both = start.clone();
    update_cursor_and_window_for_grab_input(&mut both, &CursorGrabInput::JustPressed);
    update_cursor_and_window_for_grab_input(&mut both, &CursorGrabInput::JustReleased);
    let mut alone = start.clone();
    update_cursor_and_window_for_grab_input(&mut alone, &CursorGrabInput::JustReleased);
    assert_eq!(both, alone);
}

#[test]
fn motion_is_ignored_while_not_grabbed() {
    let mut windows = vec![window(true, CursorGrabMode::None, true)];
    let mut grabbed = false;
    let motion = apply_grab(&mut windows, &None, &mut grabbed);
    assert_eq!(motion, PointerMotion::Ignore);
    assert!(!grabbed);
    assert_eq!(windows, vec![window(true, CursorGrabMode::None, true)]);
}

#[test]
fn motion_is_applied_while_grabbed() {
    let mut windows = vec![window(true, CursorGrabMode::Locked, false)];
    let mut grabbed = true;
    let motion = apply_grab(&mut windows, &None, &mut grabbed);
    assert_eq!(motion, PointerMotion::Apply);
    assert!(grabbed);
    assert_eq!(windows, vec![window(true, CursorGrabMode::Locked, false)]);
}

#[test]
fn motion_is_applied_from_the_frame_of_the_press() {
    let mut windows = vec![window(true, CursorGrabMode::None, true), window(false, CursorGrabMode::None, true)];
    let mut grabbed = false;
    let motion = apply_grab(&mut windows, &Some(CursorGrabInput::JustPressed), &mut grabbed);
    assert_eq!(motion, PointerMotion::Apply);
    assert!(grabbed);
    assert_eq!(
        windows,
        vec![window(true, CursorGrabMode::Locked, false), window(false, CursorGrabMode::None, true)]
    );
}

#[test]
fn motion_is_discarded_in_the_frame_of_the_release() {
    for before in [false, true] {
        let mut windows = vec![window(true, CursorGrabMode::Locked, false)];
        let mut grabbed = before;
        let motion = apply_grab(&mut windows, &Some(CursorGrabInput::JustReleased), &mut grabbed);
        assert_eq!(motion, PointerMotion::Discard);
        assert!(!grabbed);
        assert_eq!(windows, vec![window(true, CursorGrabMode::None, true)]);
    }
}

#[test]
fn a_grab_runs_from_press_to_release_across_frames() {
    let controller = MouseController::default();
    let mut input = ButtonInput::<MouseButton>::default();
    let mut windows = vec![window(true, CursorGrabMode::None, true), window(false, CursorGrabMode::None, true)];
    let mut grabbed = false;

    assert_eq!(handle_mouse(&mut windows, &input, &mut grabbed, &controller), PointerMotion::Ignore);
    assert!(!grabbed);

    input.press(MouseButton::Left);
    assert_eq!(handle_mouse(&mut windows, &input, &mut grabbed, &controller), PointerMotion::Apply);
    assert!(grabbed);
    assert_eq!(windows[0], window(true, CursorGrabMode::Locked, false));
    assert_eq!(windows[1], window(false, CursorGrabMode::None, true));

    input.clear();
    assert_eq!(handle_mouse(&mut windows, &input, &mut grabbed, &controller), PointerMotion::Apply);
    assert!(grabbed);
    assert_eq!(windows[0], window(true, CursorGrabMode::Locked, false));

    input.release(MouseButton::Left);
    assert_eq!(handle_mouse(&mut windows, &input, &mut grabbed, &controller), PointerMotion::Discard);
    assert!(!grabbed);
    assert_eq!(windows[0], window(true, CursorGrabMode::None, true));
    assert_eq!(windows[1], window(false, CursorGrabMode::None, true));

    input.clear();
    assert_eq!(handle_mouse(&mut windows, &input, &mut grabbed, &controller), PointerMotion::Ignore);
    assert!(!grabbed);
}

#[test]
fn a_click_within_one_frame_grabs_nothing() {
    let controller = MouseController::default();
    let mut input = ButtonInput::<MouseButton>::default();
    input.press(MouseButton::Left);
    input.release(MouseButton::Left);
    let mut windows = vec![window(true, CursorGrabMode::None, true)];
    let mut grabbed = false;
    assert_eq!(handle_mouse(&mut windows, &input, &mut grabbed, &controller), PointerMotion::Discard);
    assert!(!grabbed);
    assert_eq!(windows, vec![window(true, CursorGrabMode::None, true)]);
}

#[test]
fn the_controller_button_is_the_one_that_grabs() {
    let controller = MouseController { mouse_key_cursor_grab: MouseButton::Middle };
    let mut input = ButtonInput::<MouseButton>::default();
    input.press(MouseButton::Left);
    let mut windows = vec![window(true, CursorGrabMode::None, true)];
    let mut grabbed = false;
    assert_eq!(handle_mouse(&mut windows, &input, &mut grabbed, &controller), PointerMotion::Ignore);
    input.press(MouseButton::Middle);
    assert_eq!(handle_mouse(&mut windows, &input, &mut grabbed, &controller), PointerMotion::Apply);
    assert!(grabbed);
}

#[test]
fn mouse_controller_grabs_with_the_left_button_by_default() {
    assert_eq!(MouseController::default().mouse_key_cursor_grab, MouseButton::Left);
}
