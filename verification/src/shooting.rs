//! Firing the weapon in hand: the fire-rate gate, the cone of fire, and what
//! becomes of each pellet.
use crate::combat::{raycast_post, raycast_shot};
use crate::entity::Projectile;
use crate::fixed::{lemma_mul_bound, lemma_trunc_div_bound, trunc_div, Vec3, ONE};
use crate::input::Basis;
use crate::player::Player;
use crate::random::random_between;
use crate::weapon::{Weapon, SPREAD_LIMIT, STAT_LIMIT};
use crate::world::{World, WorldView};
use vstd::prelude::*;

verus! {

/// Speed of a rocket, per second.
pub const MUZZLE_SPEED: i64 = 25;

/// The half-width of the cone of fire of a weapon with the given spread:
/// the spread itself at the hip, half of it when the weapon is fully raised.
pub open spec fn spec_aimed_spread(spread: i64, aim: i64) -> int {
    trunc_div(spread * (2 * ONE - aim), 2 * ONE)
}

/// The direction of a pellet that leaves the line of sight by `sx` to the
/// right and by `sy` upward.
pub open spec fn spec_shot_direction(basis: Basis, sx: i64, sy: i64) -> Vec3 {
    (Vec3 {
        x: (basis.forward.x + trunc_div(basis.right.x * sx, ONE as int)) as i64,
        y: (basis.forward.y + trunc_div(basis.right.y * sx, ONE as int) + sy) as i64,
        z: (basis.forward.z + trunc_div(basis.right.z * sx, ONE as int)) as i64,
    }).spec_normalized()
}

/// The rocket that leaves the player along `dir`.
pub open spec fn spec_rocket_along(w: WorldView, dir: Vec3, damage: i64) -> Projectile {
    Projectile {
        pos: w.player.pos,
        vel: Vec3 {
            x: (dir.x * MUZZLE_SPEED) as i64,
            y: (dir.y * MUZZLE_SPEED) as i64,
            z: (dir.z * MUZZLE_SPEED) as i64,
        },
        damage,
        explosive: true,
    }
}

/// `post` is what one pellet along `dir` makes of `pre`: an explosive weapon
/// lets a rocket fly, any other settles the shot at once.
pub open spec fn pellet_post(
    pre: WorldView,
    post: WorldView,
    dir: Vec3,
    damage: i64,
    explosive: bool,
    time: u64,
) -> bool {
    if explosive {
        post == (WorldView {
            projectiles: pre.projectiles.push(spec_rocket_along(pre, dir, damage)),
            ..pre
        })
    } else {
        raycast_post(pre, post, dir, damage, time)
    }
}

/// `post` is what `n` pellets make of `pre`, one after the other, each at
/// its own place within the cone of fire.
pub open spec fn volley(
    pre: WorldView,
    post: WorldView,
    basis: Basis,
    spread: i64,
    damage: i64,
    explosive: bool,
    time: u64,
    n: nat,
) -> bool
    decreases n,
{
    if n == 0 {
        post == pre
    } else {
        exists|mid: WorldView, sx: i64, sy: i64|
            {
                &&& volley(pre, mid, basis, spread, damage, explosive, time, (n - 1) as nat)
                &&& -spread <= sx <= spread
                &&& -spread <= sy <= spread
                &&& #[trigger] pellet_post(
                    mid,
                    post,
                    spec_shot_direction(basis, sx, sy),
                    damage,
                    explosive,
                    time,
                )
            }
    }
}

impl WorldView {
    /// The weapon in the player's hand.
    pub open spec fn weapon(self) -> Weapon {
        self.player.weapons[self.player.current_weapon as int]
    }

    /// The world just after the trigger is pulled: the weapon has fired, the
    /// muzzle flashes and the view shakes.
    pub open spec fn fired(self, time: u64) -> WorldView {
        WorldView {
            player: Player {
                weapons: vstd::array::spec_array_update(
                    self.player.weapons,
                    self.player.current_weapon as int,
                    self.weapon().spec_fire(time),
                ),
                ..self.player
            },
            muzzle_flash: ONE,
            screen_shake: 100_000,
            ..self
        }
    }

    /// The damage of one pellet: the weapon's, doubled under a damage boost.
    pub open spec fn shot_damage(self) -> int {
        if self.player.damage_boost > 0 {
            self.weapon().damage * 2
        } else {
            self.weapon().damage as int
        }
    }
}

/// `post` is what pulling the trigger at `time` makes of `pre`: nothing
/// where the weapon may not fire, else the shot and its pellets.
pub open spec fn try_shoot_post(pre: WorldView, post: WorldView, time: u64, basis: Basis) -> bool {
    if !pre.weapon().spec_can_fire(time) {
        post == pre
    } else {
        volley(
            pre.fired(time),
            post,
            basis,
            spec_aimed_spread(pre.weapon().spread, pre.player.aim_transition) as i64,
            pre.shot_damage() as i64,
            pre.weapon().explosive,
            time,
            if pre.weapon().pellets > 0 {
                pre.weapon().pellets as nat
            } else {
                0
            },
        )
    }
}

/// The half-width of the cone of fire at the given stage of aiming.
pub fn aimed_spread(spread: i64, aim: i64) -> (s: i64)
    requires
        0 <= spread <= SPREAD_LIMIT,
        0 <= aim <= ONE,
    ensures
        s == spec_aimed_spread(spread, aim),
        0 <= s <= SPREAD_LIMIT,
{
    proof {
        lemma_mul_bound(spread as int, 2 * ONE - aim, SPREAD_LIMIT as int, 2 * ONE);
        assert(0 <= spread * (2 * ONE - aim)) by (nonlinear_arith)
            requires
                0 <= spread,
                0 <= 2 * ONE - aim,
        ;
        assert(SPREAD_LIMIT * (2 * ONE) == 2_000_000_000_000int);
        lemma_trunc_div_bound(spread * (2 * ONE - aim), 2 * ONE, SPREAD_LIMIT as int);
    }
    spread * (2 * ONE - aim) / (2 * ONE)
}

/// `a + b * s / 1.0` for two direction components and an offset.
fn offset_part(a: i64, b: i64, s: i64) -> (r: i64)
    requires
        -ONE <= a <= ONE,
        -ONE <= b <= ONE,
        -SPREAD_LIMIT <= s <= SPREAD_LIMIT,
    ensures
        r == a + trunc_div(b * s, ONE as int),
        -2 * ONE <= r <= 2 * ONE,
{
    proof {
        lemma_mul_bound(b as int, s as int, ONE as int, SPREAD_LIMIT as int);
        assert(ONE * SPREAD_LIMIT == 1_000_000_000_000int);
        lemma_trunc_div_bound(b * s, ONE as int, ONE as int);
    }
    a + b * s / ONE
}

/// The direction of a pellet that leaves the line of sight by `sx` to the
/// right and by `sy` upward.
pub fn shot_direction(basis: &Basis, sx: i64, sy: i64) -> (dir: Vec3)
    requires
        basis.wf(),
        -SPREAD_LIMIT <= sx <= SPREAD_LIMIT,
        -SPREAD_LIMIT <= sy <= SPREAD_LIMIT,
    ensures
        dir == spec_shot_direction(*basis, sx, sy),
        dir.is_direction(),
{
    let raw = Vec3 {
        x: offset_part(basis.forward.x, basis.right.x, sx),
        y: offset_part(basis.forward.y, basis.right.y, sx) + sy,
        z: offset_part(basis.forward.z, basis.right.z, sx),
    };
    raw.normalized()
}

/// Lets one pellet go along `dir`.
pub fn fire_pellet(world: &mut World, dir: Vec3, damage: i64, explosive: bool, time: u64)
    requires
        old(world).wf(),
        dir.is_direction(),
        0 <= damage <= 2 * STAT_LIMIT,
    ensures
        pellet_post(old(world)@, final(world)@, dir, damage, explosive, time),
        final(world).wf(),
        final(world)@.player.pos == old(world)@.player.pos,
        final(world)@.player.weapons == old(world)@.player.weapons,
        final(world)@.player.current_weapon == old(world)@.player.current_weapon,
        final(world)@.player.damage_boost == old(world)@.player.damage_boost,
        final(world)@.player.aim_transition == old(world)@.player.aim_transition,
{
    if explosive {
        let ghost pre = world@;
        let rocket = Projectile {
            pos: world.player.pos,
            vel: Vec3 { x: dir.x * MUZZLE_SPEED, y: dir.y * MUZZLE_SPEED, z: dir.z * MUZZLE_SPEED },
            damage,
            explosive: true,
        };
        world.projectiles.push(rocket);
        proof {
            assert(world@.enemies == pre.enemies);
            assert(world@.particles == pre.particles);
            assert(world@.pickups == pre.pickups);
            assert forall|k: int| 0 <= k < world@.projectiles.len() implies (
            #[trigger] world@.projectiles[k]).wf() by {
                if k < pre.projectiles.len() {
                    assert(pre.projectiles[k].wf());
                }
            }
        }
    } else {
        raycast_shot(world, dir, damage, time);
    }
}

/// Pulls the trigger at `time`. Where the weapon may fire, it fires: a
/// round is used up, and each pellet leaves at a place drawn at random from
/// the cone of fire.
pub fn try_shoot(world: &mut World, time: u64, basis: &Basis)
    requires
        old(world).wf(),
        basis.wf(),
    ensures
        try_shoot_post(old(world)@, final(world)@, time, *basis),
        final(world).wf(),
{
    let slot = world.player.current_weapon;
    assert(world@.player.weapons[slot as int].wf());
    if !world.player.weapons[slot].can_fire(time) {
        return;
    }
    let ghost pre = world@;
    world.player.weapons[slot].fire(time);
    world.muzzle_flash = ONE;
    world.screen_shake = 100_000;
    let weapon = world.player.weapons[slot];
    let damage = if world.player.damage_boost > 0 {
        weapon.damage * 2
    } else {
        weapon.damage
    };
    let spread = aimed_spread(weapon.spread, world.player.aim_transition);
    let explosive = weapon.explosive;
    proof {
        assert(world@.player.weapons =~= pre.fired(time).player.weapons);
        assert(world@ == pre.fired(time));
        assert forall|k: int| 0 <= k < 4 implies (#[trigger] world@.player.weapons[k]).wf() by {
            assert(pre.player.weapons[k].wf());
        }
        assert(world@.enemies == pre.enemies);
        assert(world@.projectiles == pre.projectiles);
        assert(world@.particles == pre.particles);
        assert(world@.pickups == pre.pickups);
    }
    let mut i: i32 = 0;
    while i < weapon.pellets
        invariant
            world.wf(),
            basis.wf(),
            0 <= i,
            i == 0 || i <= weapon.pellets,
            0 <= spread <= SPREAD_LIMIT,
            0 <= damage <= 2 * STAT_LIMIT,
            volley(pre.fired(time), world@, *basis, spread, damage, explosive, time, i as nat),
        decreases weapon.pellets - i,
    {
        let ghost mid = world@;
        let sx = random_between(-(spread as i32), spread as i32) as i64;
        let sy = random_between(-(spread as i32), spread as i32) as i64;
        let direction = shot_direction(basis, sx, sy);
        fire_pellet(world, direction, damage, explosive, time);
        proof {
            assert(pellet_post(
                mid,
                world@,
                spec_shot_direction(*basis, sx, sy),
                damage,
                explosive,
                time,
            ));
        }
        i += 1;
    }
}

} // verus!
