//! One frame of the game, and the flow from menu to play to its end.
//!
//! A frame takes two calls. `update_aim` turns the player's view. The caller
//! then works out the `Basis` of the new view, which takes trigonometry that
//! this library leaves to it, and hands it to `update`, which does the rest
//! and tells what is to become of the pointer.
use crate::ai::{spec_update_enemies, update_enemies};
use crate::blast::{projectiles_post, update_projectiles};
use crate::fixed::{clamp, clamp_int, lemma_mul_bound, lemma_sq_range, sq, Vec3, ONE};
use crate::input::{Basis, GamepadState, Input, TRIGGER_THRESHOLD};
use crate::maps::LEVEL_COUNT;
use crate::motion::{settle, walk};
use crate::particles::{survivors, update_particles};
use crate::pickups::{pickups_post, update_pickups};
use crate::player::{spec_select_weapon, Player};
use crate::shooting::{try_shoot, try_shoot_post};
use crate::weapon::STAT_LIMIT;
use crate::world::{lemma_marker_bounds, GameState, World, WorldView};
use vstd::prelude::*;

verus! {

/// The exit is reached from less than this.
pub const EXIT_RANGE: i64 = 2_000_000;

/// What is to become of the pointer after a frame.
#[derive(Clone, Copy, Debug, PartialEq, Eq, Structural)]
pub enum Pointer {
    /// Leave it as it is.
    Keep,
    /// Grab and hide it: play begins or resumes.
    Grab,
    /// Release and show it: play stops.
    Release,
}

/// Enter, Space, the south button or Start went down in this frame.
pub open spec fn confirms(input: Input, pad: GamepadState) -> bool {
    input.keys.enter_pressed || input.keys.space_pressed || pad.a_just_pressed
        || pad.start_just_pressed
}

/// Escape or Start went down in this frame.
pub open spec fn pauses(input: Input, pad: GamepadState) -> bool {
    input.keys.escape_pressed || pad.start_just_pressed
}

/// Escape, Start or the east button went down in this frame.
pub open spec fn resumes(input: Input, pad: GamepadState) -> bool {
    input.keys.escape_pressed || pad.start_just_pressed || pad.b_just_pressed
}

/// The left mouse button, the right trigger or the south button is held.
pub open spec fn wants_fire(input: Input, pad: GamepadState) -> bool {
    input.mouse.left_down || pad.right_trigger > TRIGGER_THRESHOLD || pad.rt_button || pad.a_pressed
}

/// A feedback signal after `dt` microseconds of fading at `rate` per second,
/// down to zero.
pub open spec fn spec_fade(v: i64, rate: int, dt: u32) -> i64 {
    clamp_int(v - rate * dt, 0, ONE as int) as i64
}

/// The pointer follows the game into play and out of it.
pub open spec fn spec_pointer(before: GameState, after: GameState) -> Pointer {
    if after == GameState::Playing && before != GameState::Playing {
        Pointer::Grab
    } else if before == GameState::Playing && after != GameState::Playing {
        Pointer::Release
    } else {
        Pointer::Keep
    }
}

impl WorldView {
    /// The world after the feedback signals have faded for `dt`
    /// microseconds.
    pub open spec fn faded(self, dt: u32) -> WorldView {
        WorldView {
            screen_shake: spec_fade(self.screen_shake, 5, dt),
            muzzle_flash: spec_fade(self.muzzle_flash, 10, dt),
            hit_marker: spec_fade(self.hit_marker, 5, dt),
            player: Player { damage_flash: spec_fade(self.player.damage_flash, 2, dt), ..self.player },
            ..self
        }
    }

    /// The world after the player's view has turned, which it does only
    /// while the game is in play.
    pub open spec fn aimed(self, input: Input, pad: GamepadState) -> WorldView {
        if self.state == GameState::Playing {
            WorldView { player: self.player.spec_turn(input, pad), ..self }
        } else {
            self
        }
    }

    /// The world after the player has walked, settled on the floor and
    /// chosen a weapon.
    pub open spec fn walked(self, input: Input, pad: GamepadState, basis: Basis) -> WorldView {
        let at = self.level.walk(self.player, input, pad, basis);
        WorldView {
            player: Player {
                pos: Vec3 { y: self.level.settle(at, input.dt) as i64, ..at },
                current_weapon: spec_select_weapon(self.player.current_weapon as int, input, pad) as usize,
                ..self.player
            },
            ..self
        }
    }

    /// The world after the particles have flown for `dt` microseconds.
    pub open spec fn particles_flown(self, dt: u32) -> WorldView {
        WorldView { particles: survivors(self.particles, dt, self.particles.len()), ..self }
    }

    /// The player stands within 2.0 of the middle of the exit cell.
    pub open spec fn at_exit(self) -> bool {
        sq(self.player.pos.x - self.level.marker('X').0) + sq(
            self.player.pos.z - self.level.marker('X').1,
        ) < sq(EXIT_RANGE as int)
    }

    /// The level is won: no enemy is alive and the player is at the exit.
    pub open spec fn victory_reached(self) -> bool {
        self.alive_enemies() == 0 && self.at_exit()
    }

    /// The world after the test for victory.
    pub open spec fn victory_checked(self) -> WorldView {
        if self.victory_reached() {
            WorldView { state: GameState::Victory, ..self }
        } else {
            self
        }
    }

    /// The world after `dt` microseconds have run off the window of the
    /// streak. The streak ends when the window has run out.
    pub open spec fn combo_run(self, dt: u32) -> WorldView {
        let left = clamp_int(self.combo_timer - dt, -STAT_LIMIT, STAT_LIMIT as int) as i64;
        WorldView {
            combo_timer: left,
            combo: if left <= 0 {
                0
            } else {
                self.combo
            },
            ..self
        }
    }

    /// How a frame of play ends once everything has moved: the test for
    /// victory, the streak, then pause, and death above all.
    pub open spec fn play_ended(self, input: Input, pad: GamepadState) -> WorldView {
        let run = self.victory_checked().combo_run(input.dt);
        let paused = if pauses(input, pad) {
            WorldView { state: GameState::Paused, ..run }
        } else {
            run
        };
        if paused.player.health <= 0 {
            WorldView { state: GameState::Dead, ..paused }
        } else {
            paused
        }
    }

    /// The next level begins: the kills of the level start from zero.
    pub open spec fn advanced(self) -> WorldView {
        WorldView {
            state: GameState::Playing,
            ..(WorldView { player: Player { kills: 0, ..self.player }, ..self }).load_level(
                (self.current_level + 1) as usize,
            )
        }
    }
}

/// `post` is what the player's frame makes of `pre`: walking, then the
/// choice of weapon, then a pull of the trigger where fire is held.
pub open spec fn player_post(
    pre: WorldView,
    post: WorldView,
    input: Input,
    pad: GamepadState,
    basis: Basis,
) -> bool {
    if wants_fire(input, pad) {
        try_shoot_post(pre.walked(input, pad, basis), post, input.time, basis)
    } else {
        post == pre.walked(input, pad, basis)
    }
}

/// `post` is what a frame of play makes of `pre`: the player, the enemies,
/// the projectiles, the particles and the pickups have their turn in this
/// order, and then the frame ends.
pub open spec fn play_post(
    pre: WorldView,
    post: WorldView,
    input: Input,
    pad: GamepadState,
    basis: Basis,
) -> bool {
    exists|moved: WorldView, landed: WorldView, collected: WorldView|
        #![trigger player_post(pre, moved, input, pad, basis), pickups_post(landed.particles_flown(input.dt), collected, input.dt)]
        {
            &&& player_post(pre, moved, input, pad, basis)
            &&& projectiles_post(
                spec_update_enemies(moved, input.dt, input.time),
                landed,
                input.dt,
                input.time,
            )
            &&& pickups_post(landed.particles_flown(input.dt), collected, input.dt)
            &&& post == collected.play_ended(input, pad)
        }
}

/// `post` is what a frame makes of `pre`. The feedback signals fade in
/// every state; the rest depends on the state.
pub open spec fn update_post(
    pre: WorldView,
    post: WorldView,
    input: Input,
    pad: GamepadState,
    basis: Basis,
) -> bool {
    let faded = pre.faded(input.dt);
    match pre.state {
        GameState::Menu => if confirms(input, pad) {
            post.is_but_phases(faded.restart())
        } else {
            post == faded
        },
        GameState::Playing => play_post(faded, post, input, pad, basis),
        GameState::Paused => post == if resumes(input, pad) {
            WorldView { state: GameState::Playing, ..faded }
        } else {
            faded
        },
        GameState::Dead => post == if confirms(input, pad) {
            WorldView { state: GameState::Menu, ..faded }
        } else {
            faded
        },
        GameState::Victory => if confirms(input, pad) {
            if faded.current_level < LEVEL_COUNT {
                post.is_but_phases(faded.advanced())
            } else {
                post == (WorldView { state: GameState::Menu, ..faded })
            }
        } else {
            post == faded
        },
    }
}

/// A feedback signal after `dt` microseconds of fading at `rate` per second.
pub fn fade(v: i64, rate: i64, dt: u32) -> (r: i64)
    ensures
        r == spec_fade(v, rate as int, dt),
        0 <= r <= ONE,
{
    proof {
        lemma_mul_bound(rate as int, dt as int, 0x8000_0000_0000_0000, 0x1_0000_0000);
        assert(0x8000_0000_0000_0000int * 0x1_0000_0000 == 0x8000_0000_0000_0000_0000_0000int);
    }
    let left: i128 = v as i128 - (rate as i128) * (dt as i128);
    if left < 0 {
        0
    } else if left > ONE as i128 {
        ONE
    } else {
        left as i64
    }
}

/// Turns the player's view by this frame's input, if the game is in play.
pub fn update_aim(world: &mut World, input: &Input, gamepad: &GamepadState)
    requires
        old(world).wf(),
        gamepad.wf(),
    ensures
        final(world)@ == old(world)@.aimed(*input, *gamepad),
        final(world).wf(),
{
    if world.state == GameState::Playing {
        world.player.turn(input, gamepad);
    }
}

/// The player's frame: walking against the walls, following the floor,
/// choosing a weapon, and firing.
pub fn update_player(world: &mut World, input: &Input, gamepad: &GamepadState, basis: &Basis)
    requires
        old(world).wf(),
        gamepad.wf(),
        basis.wf(),
    ensures
        player_post(old(world)@, final(world)@, *input, *gamepad, *basis),
        final(world).wf(),
{
    let ghost pre = world@;
    let at = walk(&world.level, &world.player, input, gamepad, basis);
    let y = settle(&world.level, at, input.dt);
    world.player.pos = Vec3 { y, ..at };
    world.player.select_weapon(input, gamepad);
    proof {
        assert(world@ == pre.walked(*input, *gamepad, *basis));
    }
    let gamepad_shoot = gamepad.right_trigger > TRIGGER_THRESHOLD || gamepad.rt_button
        || gamepad.a_pressed;
    if input.mouse.left_down || gamepad_shoot {
        try_shoot(world, input.time, basis);
    }
}

/// Ends the level in victory when no enemy is alive and the player stands
/// at the exit.
pub fn check_victory(world: &mut World)
    requires
        old(world).wf(),
    ensures
        final(world)@ == old(world)@.victory_checked(),
        final(world).wf(),
        final(world)@.state == GameState::Victory && old(world)@.state != GameState::Victory ==> old(
            world,
        )@.alive_enemies() == 0 && old(world)@.at_exit(),
{
    if world.alive_enemies() == 0 {
        let (ex, ez) = World::find_char(&world.level, 'X');
        proof {
            lemma_marker_bounds(world@.level, 'X');
            lemma_sq_range(EXIT_RANGE as int, EXIT_RANGE as int);
        }
        let exit = Vec3 { x: ex, y: 0, z: ez };
        if world.player.pos.flat_dist_sq(&exit) < (EXIT_RANGE as i128) * (EXIT_RANGE as i128) {
            world.state = GameState::Victory;
        }
    }
}

/// Fades the feedback signals.
fn fade_feedback(world: &mut World, dt: u32)
    requires
        old(world).wf(),
    ensures
        final(world)@ == old(world)@.faded(dt),
        final(world).wf(),
{
    world.screen_shake = fade(world.screen_shake, 5, dt);
    world.muzzle_flash = fade(world.muzzle_flash, 10, dt);
    world.hit_marker = fade(world.hit_marker, 5, dt);
    world.player.damage_flash = fade(world.player.damage_flash, 2, dt);
}

/// Ends a frame of play: victory, the streak, pause and death.
fn end_play(world: &mut World, input: &Input, gamepad: &GamepadState)
    requires
        old(world).wf(),
    ensures
        final(world)@ == old(world)@.play_ended(*input, *gamepad),
        final(world).wf(),
{
    check_victory(world);
    world.combo_timer = clamp(world.combo_timer - input.dt as i64, -STAT_LIMIT, STAT_LIMIT);
    if world.combo_timer <= 0 {
        world.combo = 0;
    }
    if input.keys.escape_pressed || gamepad.start_just_pressed {
        world.state = GameState::Paused;
    }
    if world.player.health <= 0 {
        world.state = GameState::Dead;
    }
}

/// A frame of play.
fn play(world: &mut World, input: &Input, gamepad: &GamepadState, basis: &Basis)
    requires
        old(world).wf(),
        gamepad.wf(),
        basis.wf(),
    ensures
        play_post(old(world)@, final(world)@, *input, *gamepad, *basis),
        final(world).wf(),
{
    let ghost pre = world@;
    update_player(world, input, gamepad, basis);
    let ghost moved = world@;
    update_enemies(world, input.dt, input.time);
    update_projectiles(world, input.dt, input.time);
    let ghost landed = world@;
    update_particles(world, input.dt);
    update_pickups(world, input.dt);
    let ghost collected = world@;
    end_play(world, input, gamepad);
    proof {
        assert(player_post(pre, moved, *input, *gamepad, *basis));
        assert(pickups_post(landed.particles_flown(input.dt), collected, input.dt));
    }
}

/// Advances the game by one frame and tells what is to become of the
/// pointer.
pub fn update(world: &mut World, input: &Input, gamepad: &GamepadState, basis: &Basis) -> (pointer:
    Pointer)
    requires
        old(world).wf(),
        gamepad.wf(),
        basis.wf(),
    ensures
        update_post(old(world)@, final(world)@, *input, *gamepad, *basis),
        pointer == spec_pointer(old(world)@.state, final(world)@.state),
        final(world).wf(),
{
    let before = world.state;
    fade_feedback(world, input.dt);
    let confirm = input.keys.enter_pressed || input.keys.space_pressed || gamepad.a_just_pressed
        || gamepad.start_just_pressed;
    match before {
        GameState::Menu => {
            if confirm {
                world.restart();
            }
        },
        GameState::Playing => {
            play(world, input, gamepad, basis);
        },
        GameState::Paused => {
            if input.keys.escape_pressed || gamepad.start_just_pressed || gamepad.b_just_pressed {
                world.state = GameState::Playing;
            }
        },
        GameState::Dead => {
            if confirm {
                world.state = GameState::Menu;
            }
        },
        GameState::Victory => {
            if confirm {
                if world.current_level < LEVEL_COUNT {
                    world.player.kills = 0;
                    world.state = GameState::Playing;
                    world.load_level(world.current_level + 1);
                } else {
                    world.state = GameState::Menu;
                }
            }
        },
    }
    pointer_for(before, world.state)
}

/// What is to become of the pointer when the game goes from one state to
/// another.
pub fn pointer_for(before: GameState, after: GameState) -> (pointer: Pointer)
    ensures
        pointer == spec_pointer(before, after),
{
    let was_playing = matches!(before, GameState::Playing);
    let is_playing = matches!(after, GameState::Playing);
    if is_playing && !was_playing {
        Pointer::Grab
    } else if was_playing && !is_playing {
        Pointer::Release
    } else {
        Pointer::Keep
    }
}

} // verus!
