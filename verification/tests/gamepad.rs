use rust_blaster::fixed::ONE;
use rust_blaster::input::{GamepadState, PadAxis, PadButton};

#[test]
fn a_new_gamepad_is_at_rest() {
    let pad = GamepadState::new();
    assert_eq!(pad.left_stick_x, 0);
    assert_eq!(pad.right_trigger, 0);
    assert!(!pad.a_pressed && !pad.a_just_pressed && !pad.start_pressed && !pad.left_thumb);
    let mut cleared = pad;
    cleared.clear_just_pressed();
    assert_eq!(cleared, pad);
}

#[test]
fn a_button_that_goes_down_is_held_and_just_pressed() {
    let rest = GamepadState::new();
    let mut pad = rest;
    pad.button_pressed(PadButton::South);
    assert_eq!(pad, GamepadState { a_pressed: true, a_just_pressed: true, ..rest });
    let mut pad = rest;
    pad.button_pressed(PadButton::East);
    assert_eq!(pad, GamepadState { b_pressed: true, b_just_pressed: true, ..rest });
    let mut pad = rest;
    pad.button_pressed(PadButton::LeftTrigger);
    assert_eq!(pad, GamepadState { lb_pressed: true, lb_just_pressed: true, ..rest });
    let mut pad = rest;
    pad.button_pressed(PadButton::RightTrigger);
    assert_eq!(pad, GamepadState { rb_pressed: true, rb_just_pressed: true, ..rest });
    let mut pad = rest;
    pad.button_pressed(PadButton::Start);
    assert_eq!(pad, GamepadState { start_pressed: true, start_just_pressed: true, ..rest });
    let mut pad = rest;
    pad.button_pressed(PadButton::DPadUp);
    assert_eq!(pad, GamepadState { dpad_up: true, dpad_up_just: true, ..rest });
    let mut pad = rest;
    pad.button_pressed(PadButton::DPadDown);
    assert_eq!(pad, GamepadState { dpad_down: true, dpad_down_just: true, ..rest });
    let mut pad = rest;
    pad.button_pressed(PadButton::DPadLeft);
    assert_eq!(pad, GamepadState { dpad_left: true, dpad_left_just: true, ..rest });
    let mut pad = rest;
    pad.button_pressed(PadButton::DPadRight);
    assert_eq!(pad, GamepadState { dpad_right: true, dpad_right_just: true, ..rest });
}

#[test]
fn some_buttons_are_only_held() {
    let rest = GamepadState::new();
    let mut pad = rest;
    pad.button_pressed(PadButton::West);
    assert_eq!(pad, GamepadState { x_pressed: true, ..rest });
    let mut pad = rest;
    pad.button_pressed(PadButton::North);
    assert_eq!(pad, GamepadState { y_pressed: true, ..rest });
    let mut pad = rest;
    pad.button_pressed(PadButton::LeftTrigger2);
    assert_eq!(pad, GamepadState { lt_button: true, ..rest });
    let mut pad = rest;
    pad.button_pressed(PadButton::RightTrigger2);
    assert_eq!(pad, GamepadState { rt_button: true, ..rest });
    let mut pad = rest;
    pad.button_pressed(PadButton::LeftThumb);
    assert_eq!(pad, GamepadState { left_thumb: true, ..rest });
    let mut pad = rest;
    pad.button_pressed(PadButton::Other);
    assert_eq!(pad, rest);
}

#[test]
fn a_button_that_comes_up_is_no_longer_held() {
    let buttons = [
        PadButton::South,
        PadButton::East,
        PadButton::West,
        PadButton::North,
        PadButton::LeftTrigger,
        PadButton::RightTrigger,
        PadButton::LeftTrigger2,
        PadButton::RightTrigger2,
        PadButton::Start,
        PadButton::DPadUp,
        PadButton::DPadDown,
        PadButton::DPadLeft,
        PadButton::DPadRight,
        PadButton::LeftThumb,
        PadButton::Other,
    ];
    for button in buttons {
        let mut pad = GamepadState::new();
        pad.button_pressed(button);
        let mut expected = pad;
        pad.button_released(button);
        // the edge of the press is still to be read in this frame
        expected.a_pressed = false;
        expected.b_pressed = false;
        expected.x_pressed = false;
        expected.y_pressed = false;
        expected.lb_pressed = false;
        expected.rb_pressed = false;
        expected.lt_button = false;
        expected.rt_button = false;
        expected.start_pressed = false;
        expected.dpad_up = false;
        expected.dpad_down = false;
        expected.dpad_left = false;
        expected.dpad_right = false;
        expected.left_thumb = false;
        assert_eq!(pad, expected);
    }
}

#[test]
fn releasing_one_button_leaves_the_others_held() {
    let mut pad = GamepadState::new();
    pad.button_pressed(PadButton::South);
    pad.button_pressed(PadButton::Start);
    pad.button_released(PadButton::South);
    assert!(!pad.a_pressed);
    assert!(pad.a_just_pressed);
    assert!(pad.start_pressed);
    assert!(pad.start_just_pressed);
}

#[test]
fn the_edges_are_cleared_and_the_rest_stays() {
    let mut pad = GamepadState::new();
    for button in [
        PadButton::South,
        PadButton::East,
        PadButton::LeftTrigger,
        PadButton::RightTrigger,
        PadButton::Start,
        PadButton::DPadUp,
        PadButton::DPadDown,
        PadButton::DPadLeft,
        PadButton::DPadRight,
        PadButton::West,
    ] {
        pad.button_pressed(button);
    }
    pad.axis_changed(PadAxis::LeftStickX, 500_000);
    let before = pad;
    pad.clear_just_pressed();
    assert_eq!(
        pad,
        GamepadState {
            a_just_pressed: false,
            b_just_pressed: false,
            lb_just_pressed: false,
            rb_just_pressed: false,
            start_just_pressed: false,
            dpad_up_just: false,
            dpad_down_just: false,
            dpad_left_just: false,
            dpad_right_just: false,
            ..before
        }
    );
    assert!(pad.a_pressed && pad.start_pressed && pad.x_pressed && pad.dpad_left);
    assert_eq!(pad.left_stick_x, 500_000);
}

#[test]
fn each_axis_has_its_field() {
    let rest = GamepadState::new();
    let mut pad = rest;
    pad.axis_changed(PadAxis::LeftStickX, -ONE);
    assert_eq!(pad, GamepadState { left_stick_x: -ONE, ..rest });
    let mut pad = rest;
    pad.axis_changed(PadAxis::LeftStickY, 1);
    assert_eq!(pad, GamepadState { left_stick_y: 1, ..rest });
    let mut pad = rest;
    pad.axis_changed(PadAxis::RightStickX, 2);
    assert_eq!(pad, GamepadState { right_stick_x: 2, ..rest });
    let mut pad = rest;
    pad.axis_changed(PadAxis::RightStickY, 3);
    assert_eq!(pad, GamepadState { right_stick_y: 3, ..rest });
    let mut pad = rest;
    pad.axis_changed(PadAxis::LeftZ, 4);
    assert_eq!(pad, GamepadState { left_trigger: 4, ..rest });
    let mut pad = rest;
    pad.axis_changed(PadAxis::RightZ, ONE);
    assert_eq!(pad, GamepadState { right_trigger: ONE, ..rest });
    let mut pad = rest;
    pad.axis_changed(PadAxis::Other, 5);
    assert_eq!(pad, rest);
}

#[test]
fn a_gamepad_is_valid_while_its_axes_are_in_range() {
    let mut pad = GamepadState::new();
    assert!(pad.is_valid());
    pad.axis_changed(PadAxis::LeftStickX, ONE);
    pad.axis_changed(PadAxis::RightZ, -ONE);
    assert!(pad.is_valid());
    pad.right_stick_y = ONE + 1;
    assert!(!pad.is_valid());
    pad.right_stick_y = 0;
    pad.left_trigger = -ONE - 1;
    assert!(!pad.is_valid());
}
