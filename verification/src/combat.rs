//! Instant shots: a ray is marched from the player until it meets a wall or
//! an enemy, and a hit is settled at once.
use crate::entity::{Enemy, EnemyType, Paint};
use crate::fixed::{
    add_capped, clamp, clamp_int, lemma_mul_bound, lemma_sq_range, lemma_trunc_div_bound, sq,
    spec_add_capped, trunc_div, Vec3, ONE,
};
use crate::level::LevelView;
use crate::particles::{emit_all, particles_added, Burst};
use crate::player::Player;
use crate::weapon::STAT_LIMIT;
use crate::world::{World, WorldView};
use vstd::prelude::*;

verus! {

/// Distance between two samples of a ray.
pub const RAY_STEP: i64 = 300_000;

/// Number of samples of a ray: at 0.0, 0.3, and so on, short of 100.0.
pub const RAY_SAMPLES: i64 = 334;

/// Radius of the probe that tests a sample against the walls.
pub const PROBE_RADIUS: i64 = 100_000;

/// How long a streak of kills lasts without a new kill, in microseconds.
pub const COMBO_WINDOW: i64 = 2_000_000;

/// The score that each kill of a streak adds to the next kill.
pub const COMBO_BONUS: i32 = 50;

/// What a ray met.
#[derive(Clone, Copy, Debug, PartialEq, Eq, Structural)]
pub enum RayHit {
    /// Nothing within range.
    Miss,
    /// A wall, at the given sample.
    Wall(Vec3),
    /// The enemy with the given index, at the given sample.
    Enemy(usize, Vec3),
}

/// The radius within which a sample hits an enemy of the given kind: four
/// fifths of its size.
pub open spec fn spec_hit_radius(etype: EnemyType) -> int {
    trunc_div(etype.spec_size() * 8, 10)
}

/// The sample with the given number on the ray from `start` along `dir`.
pub open spec fn spec_sample(start: Vec3, dir: Vec3, k: int) -> Vec3 {
    Vec3 {
        x: (start.x + trunc_div(dir.x * (k * RAY_STEP), ONE as int)) as i64,
        y: (start.y + trunc_div(dir.y * (k * RAY_STEP), ONE as int)) as i64,
        z: (start.z + trunc_div(dir.z * (k * RAY_STEP), ONE as int)) as i64,
    }
}

/// The sample `at` hits the enemy: the enemy is alive and nearer than its
/// hit radius.
pub open spec fn is_target(e: Enemy, at: Vec3) -> bool {
    !e.dead && at.spec_dist_sq(e.pos) < sq(spec_hit_radius(e.etype))
}

/// The first enemy from index `from` on that the sample hits. It is the
/// order of the enemies that decides, not their distance.
pub open spec fn first_target(enemies: Seq<Enemy>, at: Vec3, from: int) -> Option<int>
    decreases enemies.len() - from,
{
    if from < 0 || from >= enemies.len() {
        None
    } else if is_target(enemies[from], at) {
        Some(from)
    } else {
        first_target(enemies, at, from + 1)
    }
}

/// What the ray meets from sample `k` on: at each sample a wall stops it
/// before any enemy is looked at.
pub open spec fn march(level: LevelView, enemies: Seq<Enemy>, start: Vec3, dir: Vec3, k: int) -> RayHit
    decreases RAY_SAMPLES - k,
{
    if k < 0 || k >= RAY_SAMPLES {
        RayHit::Miss
    } else {
        let at = spec_sample(start, dir, k);
        if level.check_collision(at.x as int, at.z as int, PROBE_RADIUS as int) {
            RayHit::Wall(at)
        } else {
            match first_target(enemies, at, 0) {
                Some(i) => RayHit::Enemy(i as usize, at),
                None => march(level, enemies, start, dir, k + 1),
            }
        }
    }
}

/// The score after a kill worth `points` as the `combo`-th kill of a streak:
/// the points and 50 for each kill of the streak, this one counted.
pub open spec fn spec_kill_score(score: i32, points: i32, combo: i32) -> i32 {
    clamp_int(score + points + COMBO_BONUS * combo, i32::MIN as int, i32::MAX as int) as i32
}

/// The health of an enemy after the given damage.
pub open spec fn spec_hurt(health: i64, damage: i64) -> i64 {
    clamp_int(health - damage, -STAT_LIMIT, STAT_LIMIT as int) as i64
}

/// The world after a shot of the given damage has hit the enemy with index
/// `i`: the hit is marked, and if it kills, the streak grows and its window
/// starts anew, the kill is scored with the streak's bonus and counted.
pub open spec fn struck(w: WorldView, i: int, damage: i64, time: u64) -> WorldView {
    let e = w.enemies[i];
    let health = spec_hurt(e.health, damage);
    if health <= 0 {
        let combo = spec_add_capped(w.combo, 1);
        WorldView {
            enemies: w.enemies.update(i, Enemy { health, dead: true, death_time: time, ..e }),
            hit_marker: ONE,
            combo,
            combo_timer: COMBO_WINDOW,
            player: Player {
                score: spec_kill_score(w.player.score, e.etype.spec_points(), combo),
                kills: spec_add_capped(w.player.kills, 1),
                ..w.player
            },
            total_kills: spec_add_capped(w.total_kills, 1),
            ..w
        }
    } else {
        WorldView { enemies: w.enemies.update(i, Enemy { health, ..e }), hit_marker: ONE, ..w }
    }
}

/// What the ray from the player along `dir` meets.
pub open spec fn ray_hit(w: WorldView, dir: Vec3) -> RayHit {
    march(w.level, w.enemies, w.player.pos, dir, 0)
}

/// The world after an instant shot along `dir`, particles aside.
pub open spec fn raycast_world(w: WorldView, dir: Vec3, damage: i64, time: u64) -> WorldView {
    match ray_hit(w, dir) {
        RayHit::Enemy(i, _) => struck(w, i as int, damage, time),
        _ => w,
    }
}

/// The bursts of particles that an instant shot along `dir` throws up: dust
/// off a wall, or a spray off the enemy that is hit and a larger one where
/// it dies.
pub open spec fn raycast_bursts(w: WorldView, dir: Vec3, damage: i64) -> Seq<Burst> {
    match ray_hit(w, dir) {
        RayHit::Miss => Seq::empty(),
        RayHit::Wall(at) => seq![
            Burst::spray(at.confined(), Paint::Debris, 8, 3_000_000, 100_000),
        ],
        RayHit::Enemy(i, at) => {
            let e = w.enemies[i as int];
            let hit = Burst::spray(at.confined(), Paint::Enemy(e.etype), 10, 4_000_000, 150_000);
            if spec_hurt(e.health, damage) <= 0 {
                seq![hit, Burst::spray(e.pos, Paint::Enemy(e.etype), 25, 6_000_000, 200_000)]
            } else {
                seq![hit]
            }
        },
    }
}

/// `post` is what an instant shot along `dir` makes of `pre`.
pub open spec fn raycast_post(pre: WorldView, post: WorldView, dir: Vec3, damage: i64, time: u64) -> bool {
    particles_added(raycast_world(pre, dir, damage, time), post, raycast_bursts(pre, dir, damage))
}

/// The radius within which a sample hits an enemy of the given kind.
pub fn hit_radius(etype: EnemyType) -> (r: i64)
    ensures
        r == spec_hit_radius(etype),
        0 < r <= 1_000_000,
{
    match etype {
        EnemyType::Grunt => 640_000,
        EnemyType::Heavy => 960_000,
        EnemyType::Demon => 720_000,
    }
}

/// The sample with the given number on the ray from `start` along `dir`.
pub fn sample(start: &Vec3, dir: &Vec3, k: i64) -> (at: Vec3)
    requires
        start.wf(),
        dir.is_direction(),
        0 <= k < RAY_SAMPLES,
    ensures
        at == spec_sample(*start, *dir, k as int),
        at.spans(),
{
    let reach: i64 = k * RAY_STEP;
    Vec3 {
        x: start.x + along(dir.x, reach),
        y: start.y + along(dir.y, reach),
        z: start.z + along(dir.z, reach),
    }
}

/// How far a ray of length `reach` gets along an axis on which its unit
/// direction has the component `dir`.
fn along(dir: i64, reach: i64) -> (d: i64)
    requires
        -ONE <= dir <= ONE,
        0 <= reach <= 100_200_000,
    ensures
        d == trunc_div(dir * reach, ONE as int),
        -100_200_000 <= d <= 100_200_000,
{
    proof {
        lemma_mul_bound(dir as int, reach as int, ONE as int, 100_200_000);
        assert(100_200_000 * ONE == ONE * 100_200_000);
        lemma_trunc_div_bound(dir * reach, ONE as int, 100_200_000);
    }
    dir * reach / ONE
}

/// The first enemy, in the order of the list, that the sample `at` hits.
pub fn find_target(enemies: &Vec<Enemy>, at: &Vec3) -> (found: Option<usize>)
    requires
        at.spans(),
        forall|i: int| 0 <= i < enemies@.len() ==> (#[trigger] enemies@[i]).wf(),
    ensures
        match found {
            Some(i) => first_target(enemies@, *at, 0) == Some(i as int) && i < enemies@.len(),
            None => first_target(enemies@, *at, 0).is_none(),
        },
{
    let mut i: usize = 0;
    while i < enemies.len()
        invariant
            i <= enemies@.len(),
            at.spans(),
            forall|k: int| 0 <= k < enemies@.len() ==> (#[trigger] enemies@[k]).wf(),
            first_target(enemies@, *at, 0) == first_target(enemies@, *at, i as int),
        decreases enemies@.len() - i,
    {
        let e = &enemies[i];
        assert(enemies@[i as int].wf());
        if !e.dead {
            let r = hit_radius(e.etype);
            proof {
                lemma_sq_range(r as int, 1_000_000);
            }
            if at.dist_sq(&e.pos) < (r as i128) * (r as i128) {
                return Some(i);
            }
        }
        i += 1;
    }
    None
}

/// Marches a ray from the player along `dir` and reports what it meets.
pub fn cast_ray(world: &World, dir: &Vec3) -> (hit: RayHit)
    requires
        world.wf(),
        dir.is_direction(),
    ensures
        hit == ray_hit(world@, *dir),
        match hit {
            RayHit::Enemy(i, _) => i < world@.enemies.len(),
            _ => true,
        },
{
    let start = world.player.pos;
    let mut k: i64 = 0;
    while k < RAY_SAMPLES
        invariant
            0 <= k <= RAY_SAMPLES,
            world.wf(),
            dir.is_direction(),
            start == world@.player.pos,
            ray_hit(world@, *dir) == march(world@.level, world@.enemies, start, *dir, k as int),
        decreases RAY_SAMPLES - k,
    {
        let at = sample(&start, dir, k);
        if world.level.check_collision(at.x, at.z, PROBE_RADIUS) {
            return RayHit::Wall(at);
        }
        match find_target(&world.enemies, &at) {
            Some(i) => {
                return RayHit::Enemy(i, at);
            },
            None => {},
        }
        k += 1;
    }
    RayHit::Miss
}

/// Settles a hit of the given damage on the enemy with index `idx`.
pub fn strike(world: &mut World, idx: usize, damage: i64, time: u64)
    requires
        old(world).wf(),
        idx < old(world)@.enemies.len(),
        0 <= damage <= 2 * STAT_LIMIT,
    ensures
        final(world)@ == struck(old(world)@, idx as int, damage, time),
        final(world).wf(),
{
    let ghost pre = world@;
    assert(pre.enemies[idx as int].wf());
    let points = world.enemies[idx].points();
    let health = clamp(world.enemies[idx].health - damage, -STAT_LIMIT, STAT_LIMIT);
    world.enemies[idx].health = health;
    world.hit_marker = ONE;
    if health <= 0 {
        world.enemies[idx].dead = true;
        world.enemies[idx].death_time = time;
        world.combo = add_capped(world.combo, 1);
        world.combo_timer = COMBO_WINDOW;
        world.player.score = kill_score(world.player.score, points, world.combo);
        world.player.kills = add_capped(world.player.kills, 1);
        world.total_kills = add_capped(world.total_kills, 1);
    }
    proof {
        assert(world@.enemies =~= struck(pre, idx as int, damage, time).enemies);
        assert(world@.projectiles == pre.projectiles);
        assert(world@.particles == pre.particles);
        assert(world@.pickups == pre.pickups);
        assert forall|k: int| 0 <= k < world@.enemies.len() implies (#[trigger] world@.enemies[k]).wf() by {
            assert(pre.enemies[k].wf());
        }
    }
}

/// The score after a kill worth `points` as the `combo`-th kill of a streak.
pub fn kill_score(score: i32, points: i32, combo: i32) -> (r: i32)
    ensures
        r == spec_kill_score(score, points, combo),
{
    let total: i64 = score as i64 + points as i64 + (COMBO_BONUS as i64) * (combo as i64);
    if total > i32::MAX as i64 {
        i32::MAX
    } else if total < i32::MIN as i64 {
        i32::MIN
    } else {
        total as i32
    }
}

/// Resolves an instant shot of the given damage along `dir`: the ray is
/// marched, a hit is settled, and the particles fly.
pub fn raycast_shot(world: &mut World, dir: Vec3, damage: i64, time: u64)
    requires
        old(world).wf(),
        dir.is_direction(),
        0 <= damage <= 2 * STAT_LIMIT,
    ensures
        raycast_post(old(world)@, final(world)@, dir, damage, time),
        final(world).wf(),
{
    let mut particle_spawns: Vec<Burst> = Vec::new();
    match cast_ray(world, &dir) {
        RayHit::Miss => {},
        RayHit::Wall(at) => {
            particle_spawns.push(Burst::spray(at.confined(), Paint::Debris, 8, 3_000_000, 100_000));
        },
        RayHit::Enemy(idx, at) => {
            assert(world@.enemies[idx as int].wf());
            let color = world.enemies[idx].color();
            let enemy_pos = world.enemies[idx].pos;
            strike(world, idx, damage, time);
            particle_spawns.push(Burst::spray(at.confined(), color, 10, 4_000_000, 150_000));
            if world.enemies[idx].health <= 0 {
                particle_spawns.push(Burst::spray(enemy_pos, color, 25, 6_000_000, 200_000));
            }
        },
    }
    assert(particle_spawns@ =~= raycast_bursts(old(world)@, dir, damage));
    emit_all(world, &particle_spawns);
}

} // verus!
