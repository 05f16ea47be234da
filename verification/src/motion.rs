//! Movement against the level: a step is tried on each axis by itself, so
//! that what is blocked on one axis can still slide along the other.
use crate::fixed::{
    lemma_mul_bound, lemma_trunc_div_bound, saturate, saturated, sq, trunc_div, Vec3, COORD_LIMIT,
    ONE, SECOND,
};
use crate::input::{apply_deadzone, spec_apply_deadzone, Basis, GamepadState, Input};
use crate::level::{cell_index, touches_cell, Level, LevelView, CELL_SIZE};
use crate::player::{Player, PLAYER_HEIGHT, PLAYER_RADIUS, PLAYER_SPEED};
use crate::weapon::STAT_LIMIT;
use vstd::prelude::*;

verus! {

/// How fast the eye height follows the floor: ten times the remaining
/// difference per second.
pub const HEIGHT_RATE: i64 = 10;

/// The way covered along one axis in `dt` microseconds at the given speed,
/// where `dir` is that axis's component of the unit direction.
pub open spec fn spec_step(dir: int, speed: int, dt: int) -> int {
    trunc_div(dir * speed * dt, ONE * SECOND)
}

/// The walking speed: 8.0 per second, 1.6 times that in a sprint, and half
/// as much again under a speed boost.
pub open spec fn spec_walking_speed(sprint: bool, boosted: bool) -> int {
    let base = if sprint {
        PLAYER_SPEED * 16 / 10
    } else {
        PLAYER_SPEED as int
    };
    if boosted {
        base * 15 / 10
    } else {
        base
    }
}

/// Whether the player sprints in this frame.
pub open spec fn sprints(input: Input, pad: GamepadState) -> bool {
    input.keys.left_shift_down || pad.left_thumb || pad.b_pressed
}

/// How far ahead the player wants to go: -1.0 to 1.0 from the keys, the same
/// again from the left stick.
pub open spec fn wish_ahead(input: Input, pad: GamepadState) -> int {
    (if input.keys.w_down {
        ONE as int
    } else {
        0
    }) - (if input.keys.s_down {
        ONE as int
    } else {
        0
    }) + spec_apply_deadzone(pad.left_stick_y)
}

/// How far to the right the player wants to go.
pub open spec fn wish_aside(input: Input, pad: GamepadState) -> int {
    (if input.keys.d_down {
        ONE as int
    } else {
        0
    }) - (if input.keys.a_down {
        ONE as int
    } else {
        0
    }) + spec_apply_deadzone(pad.left_stick_x)
}

/// The direction on the ground in which the player wants to go, not yet of
/// unit length. Ahead is the direction a quarter turn to the left of
/// `basis.right`.
pub open spec fn spec_move_intent(input: Input, pad: GamepadState, basis: Basis) -> Vec3 {
    let ahead = wish_ahead(input, pad);
    let aside = wish_aside(input, pad);
    Vec3 {
        x: trunc_div(basis.right.z * ahead + basis.right.x * aside, ONE as int) as i64,
        y: 0,
        z: trunc_div(-basis.right.x * ahead + basis.right.z * aside, ONE as int) as i64,
    }
}

impl LevelView {
    /// Where something of the given radius at `pos` ends up when it tries to
    /// go to (new_x, new_z): the step along x is taken if it is free, then
    /// the step along z if that is free from there. The height stays.
    pub open spec fn slide(self, pos: Vec3, new_x: int, new_z: int, radius: int) -> Vec3 {
        let x = if self.check_collision(new_x, pos.z as int, radius) {
            pos.x as int
        } else {
            new_x
        };
        let z = if self.check_collision(x, new_z, radius) {
            pos.z as int
        } else {
            new_z
        };
        Vec3 { x: x as i64, y: pos.y, z: z as i64 }
    }

    /// Where the player stands after this frame's walking, the height left
    /// as it was.
    pub open spec fn walk(self, player: Player, input: Input, pad: GamepadState, basis: Basis) -> Vec3 {
        let intent = spec_move_intent(input, pad, basis);
        if intent.spec_length() > 0 {
            let dir = intent.spec_normalized();
            let speed = spec_walking_speed(sprints(input, pad), player.speed_boost > 0);
            self.slide(
                player.pos,
                player.pos.x + spec_step(dir.x as int, speed, input.dt as int),
                player.pos.z + spec_step(dir.z as int, speed, input.dt as int),
                PLAYER_RADIUS as int,
            )
        } else {
            player.pos
        }
    }

    /// The height of the eye at `pos` after `dt` microseconds of following
    /// the floor.
    pub open spec fn settle(self, pos: Vec3, dt: u32) -> int {
        let target = self.floor_height(pos.x as int, pos.z as int) + PLAYER_HEIGHT;
        saturated(pos.y + trunc_div((target - pos.y) * HEIGHT_RATE * dt, SECOND as int))
    }
}

/// A circle that touches nothing solid has its centre inside the grid.
pub proof fn lemma_free_spot(l: LevelView, x: int, z: int, radius: int)
    requires
        l.wf(),
        radius != 0,
        !l.check_collision(x, z, radius),
    ensures
        0 <= x < l.width * CELL_SIZE,
        0 <= z < l.height * CELL_SIZE,
        -COORD_LIMIT <= x <= COORD_LIMIT,
        -COORD_LIMIT <= z <= COORD_LIMIT,
{
    let gx = cell_index(x);
    let gz = cell_index(z);
    assert(sq(radius) > 0) by (nonlinear_arith)
        requires
            radius != 0,
    ;
    assert(sq(0) == 0);
    // The cell that holds the point, which for a negative coordinate lies
    // one before the cell that the index names.
    let dx: int = if x < gx * CELL_SIZE {
        -1
    } else {
        0
    };
    let dy: int = if z < gz * CELL_SIZE {
        -1
    } else {
        0
    };
    assert(touches_cell(x, z, radius, gx + dx, gz + dy));
    if l.is_wall(gx + dx, gz + dy) {
        assert(l.check_collision(x, z, radius));
    }
    assert(l.in_grid(gx + dx, gz + dy));
    assert(l.width * CELL_SIZE <= 0x10000 * CELL_SIZE) by (nonlinear_arith)
        requires
            l.width <= 0x10000,
    ;
    assert(l.height * CELL_SIZE <= 0x10000 * CELL_SIZE) by (nonlinear_arith)
        requires
            l.height <= 0x10000,
    ;
    assert((gx + 1) * CELL_SIZE <= l.width * CELL_SIZE) by (nonlinear_arith)
        requires
            gx + 1 <= l.width,
    ;
    assert((gz + 1) * CELL_SIZE <= l.height * CELL_SIZE) by (nonlinear_arith)
        requires
            gz + 1 <= l.height,
    ;
}

/// A step is short enough to be added to a coordinate.
pub proof fn lemma_step_bound(dir: int, speed: int, dt: int)
    requires
        -ONE <= dir <= ONE,
        0 <= speed <= STAT_LIMIT,
        0 <= dt < 0x1_0000_0000,
    ensures
        -0x20_0000_0000_0000 <= spec_step(dir, speed, dt) <= 0x20_0000_0000_0000,
        -(1_000_000 * 0x100_0000_0000int) <= dir * speed <= 1_000_000 * 0x100_0000_0000int,
        -(1_000_000 * 0x100_0000_0000_0000_0000int) <= dir * speed * dt <= 1_000_000
            * 0x100_0000_0000_0000_0000int,
{
    lemma_mul_bound(dir, speed, ONE as int, STAT_LIMIT as int);
    lemma_mul_bound(dir * speed, dt, ONE * STAT_LIMIT, 0x1_0000_0000);
    assert(ONE * STAT_LIMIT * 0x1_0000_0000 == 1_000_000 * 0x100_0000_0000_0000_0000int);
    assert(ONE * SECOND == 1_000_000_000_000int);
    lemma_trunc_div_bound(dir * speed * dt, 1_000_000_000_000, 0x20_0000_0000_0000);
}

/// The way covered along one axis in `dt` microseconds at the given speed.
pub fn step(dir: i64, speed: i64, dt: u32) -> (d: i64)
    requires
        -ONE <= dir <= ONE,
        0 <= speed <= STAT_LIMIT,
    ensures
        d == spec_step(dir as int, speed as int, dt as int),
        -0x20_0000_0000_0000 <= d <= 0x20_0000_0000_0000,
{
    proof {
        lemma_step_bound(dir as int, speed as int, dt as int);
        assert(ONE * SECOND == 1_000_000_000_000int);
    }
    let product: i128 = (dir as i128) * (speed as i128) * (dt as i128);
    (product / 1_000_000_000_000) as i64
}

/// Moves something of the given radius from `pos` toward (new_x, new_z),
/// one axis at a time. A step into a wall leaves the position on that axis
/// as it was and does not hinder the step along the other axis.
pub fn slide(level: &Level, pos: Vec3, new_x: i64, new_z: i64, radius: i64) -> (r: Vec3)
    requires
        level.wf(),
        pos.wf(),
        radius != 0,
    ensures
        r == level@.slide(pos, new_x as int, new_z as int, radius as int),
        r.wf(),
        r.y == pos.y,
        level@.check_collision(new_x as int, pos.z as int, radius as int) ==> r.x == pos.x,
        !level@.check_collision(new_x as int, pos.z as int, radius as int) ==> r.x == new_x,
        level@.check_collision(r.x as int, new_z as int, radius as int) ==> r.z == pos.z,
        !level@.check_collision(r.x as int, new_z as int, radius as int) ==> r.z == new_z,
{
    let mut r = pos;
    if !level.check_collision(new_x, pos.z, radius) {
        proof {
            lemma_free_spot(level@, new_x as int, pos.z as int, radius as int);
        }
        r.x = new_x;
    }
    if !level.check_collision(r.x, new_z, radius) {
        proof {
            lemma_free_spot(level@, r.x as int, new_z as int, radius as int);
        }
        r.z = new_z;
    }
    r
}

/// The walking speed, with or without sprint and speed boost.
pub fn walking_speed(sprint: bool, boosted: bool) -> (speed: i64)
    ensures
        speed == spec_walking_speed(sprint, boosted),
        0 <= speed <= 20_000_000,
{
    let base = if sprint {
        PLAYER_SPEED * 16 / 10
    } else {
        PLAYER_SPEED
    };
    if boosted {
        base * 15 / 10
    } else {
        base
    }
}

/// `(a * b + c * d) / 1.0` for two directions `a`, `c` and two wishes `b`, `d`.
fn blend(a: i64, b: i64, c: i64, d: i64) -> (r: i64)
    requires
        -ONE <= a <= ONE,
        -ONE <= c <= ONE,
        -2 * ONE <= b <= 2 * ONE,
        -2 * ONE <= d <= 2 * ONE,
    ensures
        r == trunc_div(a * b + c * d, ONE as int),
        -4 * ONE <= r <= 4 * ONE,
{
    proof {
        lemma_mul_bound(a as int, b as int, ONE as int, 2 * ONE);
        lemma_mul_bound(c as int, d as int, ONE as int, 2 * ONE);
        assert(ONE * (2 * ONE) == 2_000_000_000_000int);
        assert((4 * ONE) * ONE == 4_000_000_000_000int);
        lemma_trunc_div_bound(a * b + c * d, ONE as int, 4 * ONE);
    }
    let ab: i128 = (a as i128) * (b as i128);
    let cd: i128 = (c as i128) * (d as i128);
    ((ab + cd) / 1_000_000) as i64
}

/// The direction in which the keys and the left stick ask the player to go.
pub fn move_intent(input: &Input, pad: &GamepadState, basis: &Basis) -> (v: Vec3)
    requires
        pad.wf(),
        basis.wf(),
    ensures
        v == spec_move_intent(*input, *pad, *basis),
        v.spans(),
{
    let mut ahead: i64 = apply_deadzone(pad.left_stick_y);
    if input.keys.w_down {
        ahead += ONE;
    }
    if input.keys.s_down {
        ahead -= ONE;
    }
    let mut aside: i64 = apply_deadzone(pad.left_stick_x);
    if input.keys.d_down {
        aside += ONE;
    }
    if input.keys.a_down {
        aside -= ONE;
    }
    Vec3 {
        x: blend(basis.right.z, ahead, basis.right.x, aside),
        y: 0,
        z: blend(-basis.right.x, ahead, basis.right.z, aside),
    }
}

/// Where the player stands after this frame's walking.
pub fn walk(level: &Level, player: &Player, input: &Input, pad: &GamepadState, basis: &Basis) -> (pos: Vec3)
    requires
        level.wf(),
        player.wf(),
        pad.wf(),
        basis.wf(),
    ensures
        pos == level@.walk(*player, *input, *pad, *basis),
        pos.wf(),
        pos.y == player.pos.y,
{
    let intent = move_intent(input, pad, basis);
    if intent.length() > 0 {
        let dir = intent.normalized();
        let sprint = input.keys.left_shift_down || pad.left_thumb || pad.b_pressed;
        let speed = walking_speed(sprint, player.speed_boost > 0);
        let new_x = player.pos.x + step(dir.x, speed, input.dt);
        let new_z = player.pos.z + step(dir.z, speed, input.dt);
        slide(level, player.pos, new_x, new_z, PLAYER_RADIUS)
    } else {
        player.pos
    }
}

/// The height of the eye after `dt` microseconds of following the floor
/// under `pos`.
pub fn settle(level: &Level, pos: Vec3, dt: u32) -> (y: i64)
    requires
        level.wf(),
        pos.wf(),
    ensures
        y == level@.settle(pos, dt),
        -COORD_LIMIT <= y <= COORD_LIMIT,
{
    let target = level.get_floor_height(pos.x, pos.z) + PLAYER_HEIGHT;
    let gap: i64 = target - pos.y;
    proof {
        lemma_mul_bound(gap * HEIGHT_RATE, dt as int, 0x1000_0000_0000, 0x1_0000_0000);
        assert(0x1000_0000_0000int * 0x1_0000_0000 == 0x1000_0000_0000_0000_0000int);
    }
    let change: i128 = ((gap as i128) * (HEIGHT_RATE as i128) * (dt as i128)) / (SECOND as i128);
    saturate(pos.y as i128 + change)
}

} // verus!
