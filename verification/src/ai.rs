//! The enemies' turn: each living enemy closes in on the player and strikes
//! when it is near and ready.
use crate::entity::Enemy;
use crate::fixed::{lemma_sq_range, sq, Vec3};
use crate::level::{Level, LevelView};
use crate::motion::{slide, spec_step, step};
use crate::world::{World, WorldView};
use vstd::prelude::*;

verus! {

/// Radius of an enemy against the walls.
pub const ENEMY_RADIUS: i64 = 500_000;

/// An enemy comes no nearer than this.
pub const APPROACH_RANGE: i64 = 1_500_000;

/// An enemy strikes from less than this.
pub const ATTACK_RANGE: i64 = 2_000_000;

/// The shake of the view when the player is struck.
pub const STRIKE_SHAKE: i64 = 250_000;

/// The way on the ground from the enemy to the target.
pub open spec fn spec_way(e: Enemy, target: Vec3) -> Vec3 {
    Vec3 { x: (target.x - e.pos.x) as i64, y: 0, z: (target.z - e.pos.z) as i64 }
}

/// The enemy after `dt` microseconds of closing in on the target: while it
/// is further away than 1.5, it moves straight toward the target, a step
/// along each axis where that is free, and stands on the floor under it.
pub open spec fn spec_approach(e: Enemy, level: LevelView, target: Vec3, dt: u32) -> Enemy {
    if e.pos.spec_flat_dist_sq(target) > sq(APPROACH_RANGE as int) {
        let dir = spec_way(e, target).spec_normalized();
        let at = level.slide(
            e.pos,
            e.pos.x + spec_step(dir.x as int, e.speed as int, dt as int),
            e.pos.z + spec_step(dir.z as int, e.speed as int, dt as int),
            ENEMY_RADIUS as int,
        );
        Enemy {
            pos: Vec3 {
                y: (level.floor_height(at.x as int, at.z as int) + e.etype.spec_size()) as i64,
                ..at
            },
            ..e
        }
    } else {
        e
    }
}

/// The enemy strikes at `time`: the target is nearer than 2.0 and more
/// than the enemy's cooldown has passed since its last attack.
pub open spec fn spec_strikes(e: Enemy, target: Vec3, time: u64) -> bool {
    &&& e.pos.spec_flat_dist_sq(target) < sq(ATTACK_RANGE as int)
    &&& time > e.last_attack
    &&& time - e.last_attack > e.attack_cd
}

/// The world after the enemy with index `i` has had its turn. Whether it
/// strikes is judged from where it stood before it moved.
pub open spec fn enemy_acts(w: WorldView, i: int, dt: u32, time: u64) -> WorldView {
    let e = w.enemies[i];
    if e.dead {
        w
    } else {
        let moved = spec_approach(e, w.level, w.player.pos, dt);
        if spec_strikes(e, w.player.pos, time) {
            WorldView {
                enemies: w.enemies.update(i, Enemy { last_attack: time, ..moved }),
                player: w.player.spec_take_hit(e.damage),
                screen_shake: STRIKE_SHAKE,
                ..w
            }
        } else {
            WorldView { enemies: w.enemies.update(i, moved), ..w }
        }
    }
}

/// The world after the first `n` enemies have had their turn, in order.
pub open spec fn enemies_act(w: WorldView, n: nat, dt: u32, time: u64) -> WorldView
    decreases n,
{
    if n == 0 {
        w
    } else {
        enemy_acts(enemies_act(w, (n - 1) as nat, dt, time), n - 1, dt, time)
    }
}

/// The world after every enemy has had its turn.
pub open spec fn spec_update_enemies(w: WorldView, dt: u32, time: u64) -> WorldView {
    enemies_act(w, w.enemies.len(), dt, time)
}

/// Moves the enemy toward the target.
pub fn approach(e: &Enemy, level: &Level, target: &Vec3, dt: u32) -> (moved: Enemy)
    requires
        e.wf(),
        level.wf(),
        target.wf(),
    ensures
        moved == spec_approach(*e, level@, *target, dt),
        moved.wf(),
{
    proof {
        lemma_sq_range(APPROACH_RANGE as int, APPROACH_RANGE as int);
    }
    if e.pos.flat_dist_sq(target) > (APPROACH_RANGE as i128) * (APPROACH_RANGE as i128) {
        let way = Vec3 { x: target.x - e.pos.x, y: 0, z: target.z - e.pos.z };
        let dir = way.normalized();
        let new_x = e.pos.x + step(dir.x, e.speed, dt);
        let new_z = e.pos.z + step(dir.z, e.speed, dt);
        let at = slide(level, e.pos, new_x, new_z, ENEMY_RADIUS);
        let floor_height = level.get_floor_height(at.x, at.z);
        Enemy { pos: Vec3 { y: floor_height + e.size(), ..at }, ..*e }
    } else {
        *e
    }
}

/// Whether the enemy strikes at `time`.
pub fn strikes(e: &Enemy, target: &Vec3, time: u64) -> (b: bool)
    requires
        e.wf(),
        target.wf(),
    ensures
        b == spec_strikes(*e, *target, time),
{
    proof {
        lemma_sq_range(ATTACK_RANGE as int, ATTACK_RANGE as int);
    }
    e.pos.flat_dist_sq(target) < (ATTACK_RANGE as i128) * (ATTACK_RANGE as i128) && time
        > e.last_attack && time - e.last_attack > e.attack_cd
}

/// Gives the enemy with index `i` its turn.
pub fn enemy_turn(world: &mut World, i: usize, dt: u32, time: u64)
    requires
        old(world).wf(),
        i < old(world)@.enemies.len(),
    ensures
        final(world)@ == enemy_acts(old(world)@, i as int, dt, time),
        final(world).wf(),
        final(world)@.enemies.len() == old(world)@.enemies.len(),
{
    let ghost pre = world@;
    assert(pre.enemies[i as int].wf());
    let e = world.enemies[i];
    if e.dead {
        return;
    }
    let target = world.player.pos;
    let mut moved = approach(&e, &world.level, &target, dt);
    if strikes(&e, &target, time) {
        moved.last_attack = time;
        world.player.take_hit(e.damage);
        world.screen_shake = STRIKE_SHAKE;
    }
    world.enemies[i] = moved;
    proof {
        assert(world@.enemies =~= enemy_acts(pre, i as int, dt, time).enemies);
        assert(world@.projectiles == pre.projectiles);
        assert(world@.particles == pre.particles);
        assert(world@.pickups == pre.pickups);
        assert forall|k: int| 0 <= k < world@.enemies.len() implies (#[trigger] world@.enemies[k]).wf() by {
            assert(pre.enemies[k].wf());
        }
    }
}

/// Gives every enemy its turn, in the order of the list.
pub fn update_enemies(world: &mut World, dt: u32, time: u64)
    requires
        old(world).wf(),
    ensures
        final(world)@ == spec_update_enemies(old(world)@, dt, time),
        final(world).wf(),
{
    let mut i: usize = 0;
    while i < world.enemies.len()
        invariant
            world.wf(),
            i <= world@.enemies.len(),
            world@.enemies.len() == old(world)@.enemies.len(),
            world@ == enemies_act(old(world)@, i as nat, dt, time),
        decreases world@.enemies.len() - i,
    {
        enemy_turn(world, i, dt, time);
        i += 1;
    }
}

} // verus!
