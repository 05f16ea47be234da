//! One frame's input, sampled once and read by every consumer of the frame.
use crate::fixed::{Vec3, ONE};
use vstd::prelude::*;

verus! {

/// Stick deflections below this are taken for none.
pub const DEADZONE: i64 = 150_000;

/// A trigger pulled further than this counts as held.
pub const TRIGGER_THRESHOLD: i64 = 300_000;

/// The keys that the game reads: `_down` while held, `_pressed` in the frame
/// in which the key went down.
#[derive(Clone, Copy, Debug, PartialEq, Eq, Structural)]
pub struct Keys {
    pub enter_pressed: bool,
    pub space_pressed: bool,
    pub escape_pressed: bool,
    pub w_down: bool,
    pub a_down: bool,
    pub s_down: bool,
    pub d_down: bool,
    pub left_shift_down: bool,
    pub key1_pressed: bool,
    pub key2_pressed: bool,
    pub key3_pressed: bool,
    pub key4_pressed: bool,
}

/// Mouse buttons, the pointer's movement since the last frame, and the
/// wheel's.
#[derive(Clone, Copy, Debug, PartialEq, Eq, Structural)]
pub struct Mouse {
    pub left_down: bool,
    pub right_down: bool,
    pub delta_x: i32,
    pub delta_y: i32,
    pub wheel: i32,
}

/// What is known of a frame before the simulation runs.
#[derive(Clone, Copy, Debug, PartialEq, Eq, Structural)]
pub struct Input {
    /// Time since the last frame, in microseconds.
    pub dt: u32,
    /// Time since the start of the program, in microseconds.
    pub time: u64,
    pub keys: Keys,
    pub mouse: Mouse,
}

/// The directions that follow from where the player looks.
#[derive(Clone, Copy, Debug, PartialEq, Eq, Structural)]
pub struct Basis {
    /// Unit vector along the line of sight.
    pub forward: Vec3,
    /// Unit vector to the player's right, level with the ground.
    pub right: Vec3,
}

impl Basis {
    pub open spec fn wf(self) -> bool {
        self.forward.is_direction() && self.right.is_direction()
    }

    /// Whether no component of the two directions is longer than 1.0.
    pub fn is_valid(&self) -> (b: bool)
        ensures
            b == self.wf(),
    {
        self.forward.is_unit_box() && self.right.is_unit_box()
    }
}

/// A button of a gamepad.
#[derive(Clone, Copy, Debug, PartialEq, Eq, Structural)]
pub enum PadButton {
    South,
    East,
    West,
    North,
    LeftTrigger,
    RightTrigger,
    LeftTrigger2,
    RightTrigger2,
    Start,
    DPadUp,
    DPadDown,
    DPadLeft,
    DPadRight,
    LeftThumb,
    Other,
}

/// An axis of a gamepad.
#[derive(Clone, Copy, Debug, PartialEq, Eq, Structural)]
pub enum PadAxis {
    LeftStickX,
    LeftStickY,
    RightStickX,
    RightStickY,
    LeftZ,
    RightZ,
    Other,
}

#[derive(Clone, Copy, Debug, PartialEq, Eq, Structural)]
pub struct GamepadState {
    // Axes, from -1.0 to 1.0
    pub left_stick_x: i64,
    pub left_stick_y: i64,
    pub right_stick_x: i64,
    pub right_stick_y: i64,
    pub left_trigger: i64,
    pub right_trigger: i64,
    // Triggers of controllers that report them as buttons
    pub lt_button: bool,
    pub rt_button: bool,
    // Buttons held
    pub a_pressed: bool,
    pub b_pressed: bool,
    pub x_pressed: bool,
    pub y_pressed: bool,
    pub lb_pressed: bool,
    pub rb_pressed: bool,
    pub start_pressed: bool,
    pub dpad_up: bool,
    pub dpad_down: bool,
    pub dpad_left: bool,
    pub dpad_right: bool,
    pub left_thumb: bool,
    // Buttons that went down in this frame
    pub a_just_pressed: bool,
    pub b_just_pressed: bool,
    pub lb_just_pressed: bool,
    pub rb_just_pressed: bool,
    pub start_just_pressed: bool,
    pub dpad_up_just: bool,
    pub dpad_down_just: bool,
    pub dpad_left_just: bool,
    pub dpad_right_just: bool,
}

/// `v`, or nothing where it lies inside the dead zone.
pub open spec fn spec_apply_deadzone(v: i64) -> i64 {
    if -DEADZONE < v < DEADZONE {
        0
    } else {
        v
    }
}

fn in_unit(v: i64) -> (b: bool)
    ensures
        b == (-ONE <= v <= ONE),
{
    -ONE <= v && v <= ONE
}

#[verifier::when_used_as_spec(spec_apply_deadzone)]
pub fn apply_deadzone(v: i64) -> (r: i64)
    ensures
        r == spec_apply_deadzone(v),
{
    if -DEADZONE < v && v < DEADZONE {
        0
    } else {
        v
    }
}

impl GamepadState {
    /// Every axis is between -1.0 and 1.0.
    pub open spec fn wf(self) -> bool {
        &&& -ONE <= self.left_stick_x <= ONE
        &&& -ONE <= self.left_stick_y <= ONE
        &&& -ONE <= self.right_stick_x <= ONE
        &&& -ONE <= self.right_stick_y <= ONE
        &&& -ONE <= self.left_trigger <= ONE
        &&& -ONE <= self.right_trigger <= ONE
    }

    /// A gamepad at rest: axes centred, nothing held.
    pub open spec fn spec_new() -> GamepadState {
        GamepadState {
            left_stick_x: 0,
            left_stick_y: 0,
            right_stick_x: 0,
            right_stick_y: 0,
            left_trigger: 0,
            right_trigger: 0,
            lt_button: false,
            rt_button: false,
            a_pressed: false,
            b_pressed: false,
            x_pressed: false,
            y_pressed: false,
            lb_pressed: false,
            rb_pressed: false,
            start_pressed: false,
            dpad_up: false,
            dpad_down: false,
            dpad_left: false,
            dpad_right: false,
            left_thumb: false,
            a_just_pressed: false,
            b_just_pressed: false,
            lb_just_pressed: false,
            rb_just_pressed: false,
            start_just_pressed: false,
            dpad_up_just: false,
            dpad_down_just: false,
            dpad_left_just: false,
            dpad_right_just: false,
        }
    }

    /// No button counts as having gone down in this frame; the rest stays.
    pub open spec fn spec_clear_just_pressed(self) -> GamepadState {
        GamepadState {
            a_just_pressed: false,
            b_just_pressed: false,
            lb_just_pressed: false,
            rb_just_pressed: false,
            start_just_pressed: false,
            dpad_up_just: false,
            dpad_down_just: false,
            dpad_left_just: false,
            dpad_right_just: false,
            ..self
        }
    }

    /// The state after `button` went down: it is held, and where the game
    /// reads its edge, it has just been pressed.
    pub open spec fn spec_button_pressed(self, button: PadButton) -> GamepadState {
        match button {
            PadButton::South => GamepadState { a_pressed: true, a_just_pressed: true, ..self },
            PadButton::East => GamepadState { b_pressed: true, b_just_pressed: true, ..self },
            PadButton::West => GamepadState { x_pressed: true, ..self },
            PadButton::North => GamepadState { y_pressed: true, ..self },
            PadButton::LeftTrigger => GamepadState { lb_pressed: true, lb_just_pressed: true, ..self },
            PadButton::RightTrigger => GamepadState { rb_pressed: true, rb_just_pressed: true, ..self },
            PadButton::LeftTrigger2 => GamepadState { lt_button: true, ..self },
            PadButton::RightTrigger2 => GamepadState { rt_button: true, ..self },
            PadButton::Start => GamepadState {
                start_pressed: true,
                start_just_pressed: true,
                ..self
            },
            PadButton::DPadUp => GamepadState { dpad_up: true, dpad_up_just: true, ..self },
            PadButton::DPadDown => GamepadState { dpad_down: true, dpad_down_just: true, ..self },
            PadButton::DPadLeft => GamepadState { dpad_left: true, dpad_left_just: true, ..self },
            PadButton::DPadRight => GamepadState { dpad_right: true, dpad_right_just: true, ..self },
            PadButton::LeftThumb => GamepadState { left_thumb: true, ..self },
            PadButton::Other => self,
        }
    }

    /// The state after `button` came up: it is no longer held.
    pub open spec fn spec_button_released(self, button: PadButton) -> GamepadState {
        match button {
            PadButton::South => GamepadState { a_pressed: false, ..self },
            PadButton::East => GamepadState { b_pressed: false, ..self },
            PadButton::West => GamepadState { x_pressed: false, ..self },
            PadButton::North => GamepadState { y_pressed: false, ..self },
            PadButton::LeftTrigger => GamepadState { lb_pressed: false, ..self },
            PadButton::RightTrigger => GamepadState { rb_pressed: false, ..self },
            PadButton::LeftTrigger2 => GamepadState { lt_button: false, ..self },
            PadButton::RightTrigger2 => GamepadState { rt_button: false, ..self },
            PadButton::Start => GamepadState { start_pressed: false, ..self },
            PadButton::DPadUp => GamepadState { dpad_up: false, ..self },
            PadButton::DPadDown => GamepadState { dpad_down: false, ..self },
            PadButton::DPadLeft => GamepadState { dpad_left: false, ..self },
            PadButton::DPadRight => GamepadState { dpad_right: false, ..self },
            PadButton::LeftThumb => GamepadState { left_thumb: false, ..self },
            PadButton::Other => self,
        }
    }

    /// The state after `axis` moved to `value`.
    pub open spec fn spec_axis_changed(self, axis: PadAxis, value: i64) -> GamepadState {
        match axis {
            PadAxis::LeftStickX => GamepadState { left_stick_x: value, ..self },
            PadAxis::LeftStickY => GamepadState { left_stick_y: value, ..self },
            PadAxis::RightStickX => GamepadState { right_stick_x: value, ..self },
            PadAxis::RightStickY => GamepadState { right_stick_y: value, ..self },
            PadAxis::LeftZ => GamepadState { left_trigger: value, ..self },
            PadAxis::RightZ => GamepadState { right_trigger: value, ..self },
            PadAxis::Other => self,
        }
    }

    /// Whether every axis is between -1.0 and 1.0.
    pub fn is_valid(&self) -> (b: bool)
        ensures
            b == self.wf(),
    {
        in_unit(self.left_stick_x) && in_unit(self.left_stick_y) && in_unit(self.right_stick_x)
            && in_unit(self.right_stick_y) && in_unit(self.left_trigger) && in_unit(
            self.right_trigger,
        )
    }

    #[verifier::when_used_as_spec(spec_new)]
    pub fn new() -> (g: GamepadState)
        ensures
            g == Self::spec_new(),
            g.wf(),
    {
        GamepadState {
            left_stick_x: 0,
            left_stick_y: 0,
            right_stick_x: 0,
            right_stick_y: 0,
            left_trigger: 0,
            right_trigger: 0,
            lt_button: false,
            rt_button: false,
            a_pressed: false,
            b_pressed: false,
            x_pressed: false,
            y_pressed: false,
            lb_pressed: false,
            rb_pressed: false,
            start_pressed: false,
            dpad_up: false,
            dpad_down: false,
            dpad_left: false,
            dpad_right: false,
            left_thumb: false,
            a_just_pressed: false,
            b_just_pressed: false,
            lb_just_pressed: false,
            rb_just_pressed: false,
            start_just_pressed: false,
            dpad_up_just: false,
            dpad_down_just: false,
            dpad_left_just: false,
            dpad_right_just: false,
        }
    }

    /// Forgets which buttons went down in the last frame. Called at the start
    /// of each frame, before the frame's events are read.
    pub fn clear_just_pressed(&mut self)
        ensures
            *final(self) == old(self).spec_clear_just_pressed(),
    {
        *self = GamepadState {
            a_just_pressed: false,
            b_just_pressed: false,
            lb_just_pressed: false,
            rb_just_pressed: false,
            start_just_pressed: false,
            dpad_up_just: false,
            dpad_down_just: false,
            dpad_left_just: false,
            dpad_right_just: false,
            ..*self
        };
    }

    /// Records that `button` went down.
    pub fn button_pressed(&mut self, button: PadButton)
        ensures
            *final(self) == old(self).spec_button_pressed(button),
    {
        let g = *self;
        *self = match button {
            PadButton::South => GamepadState { a_pressed: true, a_just_pressed: true, ..g },
            PadButton::East => GamepadState { b_pressed: true, b_just_pressed: true, ..g },
            PadButton::West => GamepadState { x_pressed: true, ..g },
            PadButton::North => GamepadState { y_pressed: true, ..g },
            PadButton::LeftTrigger => GamepadState { lb_pressed: true, lb_just_pressed: true, ..g },
            PadButton::RightTrigger => GamepadState { rb_pressed: true, rb_just_pressed: true, ..g },
            PadButton::LeftTrigger2 => GamepadState { lt_button: true, ..g },
            PadButton::RightTrigger2 => GamepadState { rt_button: true, ..g },
            PadButton::Start => GamepadState { start_pressed: true, start_just_pressed: true, ..g },
            PadButton::DPadUp => GamepadState { dpad_up: true, dpad_up_just: true, ..g },
            PadButton::DPadDown => GamepadState { dpad_down: true, dpad_down_just: true, ..g },
            PadButton::DPadLeft => GamepadState { dpad_left: true, dpad_left_just: true, ..g },
            PadButton::DPadRight => GamepadState { dpad_right: true, dpad_right_just: true, ..g },
            PadButton::LeftThumb => GamepadState { left_thumb: true, ..g },
            PadButton::Other => g,
        };
    }

    /// Records that `button` came up.
    pub fn button_released(&mut self, button: PadButton)
        ensures
            *final(self) == old(self).spec_button_released(button),
    {
        let g = *self;
        *self = match button {
            PadButton::South => GamepadState { a_pressed: false, ..g },
            PadButton::East => GamepadState { b_pressed: false, ..g },
            PadButton::West => GamepadState { x_pressed: false, ..g },
            PadButton::North => GamepadState { y_pressed: false, ..g },
            PadButton::LeftTrigger => GamepadState { lb_pressed: false, ..g },
            PadButton::RightTrigger => GamepadState { rb_pressed: false, ..g },
            PadButton::LeftTrigger2 => GamepadState { lt_button: false, ..g },
            PadButton::RightTrigger2 => GamepadState { rt_button: false, ..g },
            PadButton::Start => GamepadState { start_pressed: false, ..g },
            PadButton::DPadUp => GamepadState { dpad_up: false, ..g },
            PadButton::DPadDown => GamepadState { dpad_down: false, ..g },
            PadButton::DPadLeft => GamepadState { dpad_left: false, ..g },
            PadButton::DPadRight => GamepadState { dpad_right: false, ..g },
            PadButton::LeftThumb => GamepadState { left_thumb: false, ..g },
            PadButton::Other => g,
        };
    }

    /// Records the new value of an axis, which lies between -1.0 and 1.0.
    pub fn axis_changed(&mut self, axis: PadAxis, value: i64)
        requires
            old(self).wf(),
            -ONE <= value <= ONE,
        ensures
            *final(self) == old(self).spec_axis_changed(axis, value),
            final(self).wf(),
    {
        let g = *self;
        *self = match axis {
            PadAxis::LeftStickX => GamepadState { left_stick_x: value, ..g },
            PadAxis::LeftStickY => GamepadState { left_stick_y: value, ..g },
            PadAxis::RightStickX => GamepadState { right_stick_x: value, ..g },
            PadAxis::RightStickY => GamepadState { right_stick_y: value, ..g },
            PadAxis::LeftZ => GamepadState { left_trigger: value, ..g },
            PadAxis::RightZ => GamepadState { right_trigger: value, ..g },
            PadAxis::Other => g,
        };
    }
}

} // verus!
