//! Rockets in flight and the explosions that end them.
use crate::combat::spec_hurt;
use crate::entity::{Enemy, Projectile};
use crate::fixed::{
    add_capped, clamp, clamp_int, isqrt, lemma_mul_bound, lemma_sq_range, lemma_sqrt_floor_below,
    lemma_trunc_div_bound,
    saturate, saturated, spec_add_capped, spec_travel, sq, sqrt_floor, travel, trunc_div, Vec3,
};
use crate::level::LevelView;
use crate::particles::{emit_all, particles_added, Burst};
use crate::player::{Player, MAX_HEALTH};
use crate::weapon::STAT_LIMIT;
use crate::world::{World, WorldView};
use vstd::prelude::*;

verus! {

/// How far an explosion reaches.
pub const BLAST_RADIUS: i64 = 10_000_000;

/// The shake of the view at an explosion.
pub const BLAST_SHAKE: i64 = 800_000;

/// Radius of a projectile against the walls.
pub const PROJECTILE_RADIUS: i64 = 200_000;

/// A projectile goes off when it comes nearer than this to an enemy.
pub const PROXIMITY: i64 = 1_000_000;

/// An explosion waiting to happen.
#[derive(Clone, Copy, Debug, PartialEq, Eq, Structural)]
pub struct Blast {
    pub at: Vec3,
    pub damage: i64,
}

/// What the flight of the projectiles has led to so far.
pub struct Flight {
    /// The projectiles still in flight.
    pub kept: Seq<Projectile>,
    pub enemies: Seq<Enemy>,
    /// The explosions to come, in the order in which they were set off.
    pub blasts: Seq<Blast>,
}

/// The distance between two points, rounded down.
pub open spec fn spec_reach(a: Vec3, b: Vec3) -> int {
    sqrt_floor(a.spec_dist_sq(b))
}

/// The damage that an explosion does at the given distance within its
/// radius: all of it at the centre, falling off evenly to nothing at the rim.
pub open spec fn spec_falloff(damage: int, dist: int) -> int {
    trunc_div(damage * (BLAST_RADIUS - dist), BLAST_RADIUS as int)
}

/// The damage that an explosion does to the player at the given distance:
/// three tenths of what it does to an enemy.
pub open spec fn spec_self_damage(damage: int, dist: int) -> int {
    trunc_div(damage * (BLAST_RADIUS - dist) * 3, BLAST_RADIUS * 10)
}

/// The world after an explosion at `at` has reached the enemy with index
/// `i`. A kill is scored with the enemy's points alone: it is no part of a
/// streak and is not counted among the kills.
pub open spec fn blast_enemy(w: WorldView, i: int, at: Vec3, damage: i64, time: u64) -> WorldView {
    let e = w.enemies[i];
    let dist = spec_reach(at, e.pos);
    if e.dead || dist >= BLAST_RADIUS {
        w
    } else {
        let health = spec_hurt(e.health, spec_falloff(damage as int, dist) as i64);
        if health <= 0 {
            WorldView {
                enemies: w.enemies.update(i, Enemy { health, dead: true, death_time: time, ..e }),
                player: Player {
                    score: spec_add_capped(w.player.score, e.etype.spec_points()),
                    ..w.player
                },
                ..w
            }
        } else {
            WorldView { enemies: w.enemies.update(i, Enemy { health, ..e }), ..w }
        }
    }
}

/// The world after an explosion at `at` has reached the first `n` enemies.
pub open spec fn blast_enemies(w: WorldView, n: nat, at: Vec3, damage: i64, time: u64) -> WorldView
    decreases n,
{
    if n == 0 {
        w
    } else {
        blast_enemy(blast_enemies(w, (n - 1) as nat, at, damage, time), n - 1, at, damage, time)
    }
}

/// The player after an explosion at `at`.
pub open spec fn blast_player(p: Player, at: Vec3, damage: i64) -> Player {
    let dist = spec_reach(at, p.pos);
    if dist < BLAST_RADIUS {
        Player {
            health: clamp_int(
                p.health - spec_self_damage(damage as int, dist),
                0,
                MAX_HEALTH as int,
            ) as i64,
            damage_flash: 300_000,
            ..p
        }
    } else {
        p
    }
}

/// The world after an explosion of the given damage at `at`, particles aside.
pub open spec fn exploded(w: WorldView, at: Vec3, damage: i64, time: u64) -> WorldView {
    let hit = blast_enemies(
        WorldView { screen_shake: BLAST_SHAKE, ..w },
        w.enemies.len(),
        at,
        damage,
        time,
    );
    WorldView { player: blast_player(hit.player, at, damage), ..hit }
}

/// The particles of an explosion: fireballs, smoke, and a white-hot core.
pub open spec fn explosion_bursts(at: Vec3) -> Seq<Burst> {
    seq![Burst::fireballs(at), Burst::smoke(at), Burst::flash(at)]
}

/// `post` is what an explosion at `at` makes of `pre`.
pub open spec fn explode_post(pre: WorldView, post: WorldView, at: Vec3, damage: i64, time: u64) -> bool {
    particles_added(exploded(pre, at, damage, time), post, explosion_bursts(at))
}

/// The distance between two points, rounded down.
pub fn reach(a: &Vec3, b: &Vec3) -> (d: i64)
    requires
        a.spans(),
        b.spans(),
    ensures
        d == spec_reach(*a, *b),
        0 <= d,
{
    let n = a.dist_sq(b);
    let root = isqrt(n as u128);
    proof {
        lemma_sq_range(0x400_0000_0000, 0x400_0000_0000);
        assert(3 * (0x400_0000_0000int * 0x400_0000_0000int) < 0x7fff_ffff_ffff_ffffint
            * 0x7fff_ffff_ffff_ffffint);
        lemma_sqrt_floor_below(n as int, 0x7fff_ffff_ffff_ffff);
    }
    root as i64
}

/// The damage of an explosion at the given distance within its radius.
pub fn falloff(damage: i64, dist: i64) -> (d: i64)
    requires
        0 <= damage <= 2 * STAT_LIMIT,
        0 <= dist < BLAST_RADIUS,
    ensures
        d == spec_falloff(damage as int, dist as int),
        0 <= d <= 2 * STAT_LIMIT,
{
    proof {
        lemma_mul_bound(damage as int, BLAST_RADIUS - dist, 2 * STAT_LIMIT, BLAST_RADIUS as int);
        assert(0 <= damage * (BLAST_RADIUS - dist)) by (nonlinear_arith)
            requires
                0 <= damage,
                0 <= BLAST_RADIUS - dist,
        ;
        lemma_trunc_div_bound(damage * (BLAST_RADIUS - dist), BLAST_RADIUS as int, 2 * STAT_LIMIT);
    }
    (((damage as i128) * ((BLAST_RADIUS - dist) as i128)) / (BLAST_RADIUS as i128)) as i64
}

/// The damage of an explosion to the player at the given distance.
pub fn self_damage(damage: i64, dist: i64) -> (d: i64)
    requires
        0 <= damage <= 2 * STAT_LIMIT,
        0 <= dist < BLAST_RADIUS,
    ensures
        d == spec_self_damage(damage as int, dist as int),
        0 <= d <= 2 * STAT_LIMIT,
{
    proof {
        lemma_mul_bound(damage as int, BLAST_RADIUS - dist, 2 * STAT_LIMIT, BLAST_RADIUS as int);
        assert(0 <= damage * (BLAST_RADIUS - dist)) by (nonlinear_arith)
            requires
                0 <= damage,
                0 <= BLAST_RADIUS - dist,
        ;
        assert((2 * STAT_LIMIT) * (BLAST_RADIUS * 10) == 2 * STAT_LIMIT * BLAST_RADIUS * 10)
            by (nonlinear_arith);
        lemma_trunc_div_bound(
            damage * (BLAST_RADIUS - dist) * 3,
            BLAST_RADIUS * 10,
            2 * STAT_LIMIT,
        );
    }
    (((damage as i128) * ((BLAST_RADIUS - dist) as i128) * 3) / ((BLAST_RADIUS * 10) as i128)) as i64
}

/// Lets an explosion at `at` reach the enemy with index `i`.
pub fn blast_one(world: &mut World, i: usize, at: &Vec3, damage: i64, time: u64)
    requires
        old(world).wf(),
        i < old(world)@.enemies.len(),
        at.wf(),
        0 <= damage <= 2 * STAT_LIMIT,
    ensures
        final(world)@ == blast_enemy(old(world)@, i as int, *at, damage, time),
        final(world).wf(),
        final(world)@.enemies.len() == old(world)@.enemies.len(),
{
    let ghost pre = world@;
    assert(pre.enemies[i as int].wf());
    let e = world.enemies[i];
    if e.dead {
        return;
    }
    let dist = reach(at, &e.pos);
    if dist < BLAST_RADIUS {
        let health = clamp(e.health - falloff(damage, dist), -STAT_LIMIT, STAT_LIMIT);
        world.enemies[i].health = health;
        if health <= 0 {
            world.enemies[i].dead = true;
            world.enemies[i].death_time = time;
            world.player.score = add_capped(world.player.score, e.points());
        }
        proof {
            assert(world@.enemies =~= blast_enemy(pre, i as int, *at, damage, time).enemies);
            assert(world@.projectiles == pre.projectiles);
            assert(world@.particles == pre.particles);
            assert(world@.pickups == pre.pickups);
            assert forall|k: int| 0 <= k < world@.enemies.len() implies (#[trigger] world@.enemies[k]).wf() by {
                assert(pre.enemies[k].wf());
            }
        }
    }
}

/// Sets off an explosion of the given damage at `pos`: every living enemy
/// and the player within its radius are hurt, less the further away they
/// are, and fire, smoke and sparks fly.
pub fn explode(world: &mut World, pos: Vec3, damage: i64, time: u64)
    requires
        old(world).wf(),
        pos.wf(),
        0 <= damage <= 2 * STAT_LIMIT,
    ensures
        explode_post(old(world)@, final(world)@, pos, damage, time),
        final(world).wf(),
{
    let ghost pre = world@;
    world.screen_shake = BLAST_SHAKE;
    let ghost shaken = world@;
    proof {
        assert(shaken == (WorldView { screen_shake: BLAST_SHAKE, ..pre }));
    }
    let mut i: usize = 0;
    while i < world.enemies.len()
        invariant
            world.wf(),
            pos.wf(),
            0 <= damage <= 2 * STAT_LIMIT,
            i <= world@.enemies.len(),
            world@.enemies.len() == pre.enemies.len(),
            world@ == blast_enemies(shaken, i as nat, pos, damage, time),
        decreases world@.enemies.len() - i,
    {
        blast_one(world, i, &pos, damage, time);
        i += 1;
    }
    let ghost hit = world@;
    let player_dist = reach(&pos, &world.player.pos);
    if player_dist < BLAST_RADIUS {
        let hurt = self_damage(damage, player_dist);
        world.player.health = clamp(world.player.health - hurt, 0, MAX_HEALTH);
        world.player.damage_flash = 300_000;
    }
    proof {
        assert(world@.enemies == hit.enemies);
        assert(world@.projectiles == hit.projectiles);
        assert(world@.particles == hit.particles);
        assert(world@.pickups == hit.pickups);
        assert(world@ == exploded(pre, pos, damage, time));
    }
    let mut layers: Vec<Burst> = Vec::new();
    layers.push(Burst::fireballs(pos));
    layers.push(Burst::smoke(pos));
    layers.push(Burst::flash(pos));
    assert(layers@ =~= explosion_bursts(pos));
    emit_all(world, &layers);
}

/// The projectile after `dt` microseconds of flight.
pub open spec fn flown(p: Projectile, dt: u32) -> Projectile {
    Projectile {
        pos: Vec3 {
            x: saturated(p.pos.x + spec_travel(p.vel.x as int, dt as int)) as i64,
            y: saturated(p.pos.y + spec_travel(p.vel.y as int, dt as int)) as i64,
            z: saturated(p.pos.z + spec_travel(p.vel.z as int, dt as int)) as i64,
        },
        ..p
    }
}

/// The enemy is alive and nearer to `at` than 1.0.
pub open spec fn is_near(e: Enemy, at: Vec3) -> bool {
    !e.dead && at.spec_dist_sq(e.pos) < sq(PROXIMITY as int)
}

/// The first enemy from index `from` on that is near `at`.
pub open spec fn first_near(enemies: Seq<Enemy>, at: Vec3, from: int) -> Option<int>
    decreases enemies.len() - from,
{
    if from < 0 || from >= enemies.len() {
        None
    } else if is_near(enemies[from], at) {
        Some(from)
    } else {
        first_near(enemies, at, from + 1)
    }
}

/// What becomes of one projectile after `dt` microseconds: it ends at a
/// wall or near an enemy, where an explosive one goes off and any other
/// hurts the enemy it met; else it flies on.
pub open spec fn fly_one(f: Flight, level: LevelView, p: Projectile, dt: u32) -> Flight {
    let q = flown(p, dt);
    let blast = Blast { at: q.pos, damage: q.damage };
    if level.check_collision(q.pos.x as int, q.pos.z as int, PROJECTILE_RADIUS as int) {
        if q.explosive {
            Flight { blasts: f.blasts.push(blast), ..f }
        } else {
            f
        }
    } else {
        match first_near(f.enemies, q.pos, 0) {
            Some(i) => if q.explosive {
                Flight { blasts: f.blasts.push(blast), ..f }
            } else {
                Flight {
                    enemies: f.enemies.update(
                        i,
                        Enemy { health: spec_hurt(f.enemies[i].health, q.damage), ..f.enemies[i] },
                    ),
                    ..f
                }
            },
            None => Flight { kept: f.kept.push(q), ..f },
        }
    }
}

/// What the flight of the first `n` projectiles leads to.
pub open spec fn fly(
    level: LevelView,
    projectiles: Seq<Projectile>,
    enemies: Seq<Enemy>,
    dt: u32,
    n: nat,
) -> Flight
    decreases n,
{
    if n == 0 {
        Flight { kept: Seq::empty(), enemies, blasts: Seq::empty() }
    } else {
        fly_one(fly(level, projectiles, enemies, dt, (n - 1) as nat), level, projectiles[n - 1], dt)
    }
}

/// `post` is what the first `n` of the explosions make of `pre`, one after
/// the other.
pub open spec fn explode_all(pre: WorldView, post: WorldView, blasts: Seq<Blast>, time: u64, n: nat) -> bool
    decreases n,
{
    if n == 0 {
        post == pre
    } else {
        exists|mid: WorldView|
            {
                &&& explode_all(pre, mid, blasts, time, (n - 1) as nat)
                &&& #[trigger] explode_post(mid, post, blasts[n - 1].at, blasts[n - 1].damage, time)
            }
    }
}

/// The world after `dt` microseconds of flight, before anything explodes.
pub open spec fn spec_flight(w: WorldView, dt: u32) -> WorldView {
    let f = fly(w.level, w.projectiles, w.enemies, dt, w.projectiles.len());
    WorldView { projectiles: f.kept, enemies: f.enemies, ..w }
}

/// The explosions that `dt` microseconds of flight set off.
pub open spec fn spec_blasts(w: WorldView, dt: u32) -> Seq<Blast> {
    fly(w.level, w.projectiles, w.enemies, dt, w.projectiles.len()).blasts
}

/// `post` is what `dt` microseconds of flight make of `pre`: every
/// projectile moves, and then the explosions happen in the order in which
/// they were set off.
pub open spec fn projectiles_post(pre: WorldView, post: WorldView, dt: u32, time: u64) -> bool {
    explode_all(spec_flight(pre, dt), post, spec_blasts(pre, dt), time, spec_blasts(pre, dt).len())
}

/// The first enemy, in the order of the list, that is near `at`.
pub fn find_near(enemies: &Vec<Enemy>, at: &Vec3) -> (found: Option<usize>)
    requires
        at.spans(),
        forall|i: int| 0 <= i < enemies@.len() ==> (#[trigger] enemies@[i]).wf(),
    ensures
        match found {
            Some(i) => first_near(enemies@, *at, 0) == Some(i as int) && i < enemies@.len(),
            None => first_near(enemies@, *at, 0).is_none(),
        },
{
    proof {
        lemma_sq_range(PROXIMITY as int, PROXIMITY as int);
    }
    let mut i: usize = 0;
    while i < enemies.len()
        invariant
            i <= enemies@.len(),
            at.spans(),
            sq(PROXIMITY as int) == PROXIMITY * PROXIMITY,
            forall|k: int| 0 <= k < enemies@.len() ==> (#[trigger] enemies@[k]).wf(),
            first_near(enemies@, *at, 0) == first_near(enemies@, *at, i as int),
        decreases enemies@.len() - i,
    {
        let e = &enemies[i];
        assert(enemies@[i as int].wf());
        if !e.dead && at.dist_sq(&e.pos) < (PROXIMITY as i128) * (PROXIMITY as i128) {
            return Some(i);
        }
        i += 1;
    }
    None
}

/// Moves a projectile by `dt` microseconds of flight.
pub fn fly_on(p: &Projectile, dt: u32) -> (q: Projectile)
    requires
        p.wf(),
    ensures
        q == flown(*p, dt),
        q.wf(),
{
    Projectile {
        pos: Vec3 {
            x: saturate(p.pos.x as i128 + travel(p.vel.x, dt) as i128),
            y: saturate(p.pos.y as i128 + travel(p.vel.y, dt) as i128),
            z: saturate(p.pos.z as i128 + travel(p.vel.z, dt) as i128),
        },
        ..*p
    }
}

/// Moves every projectile, ends those that meet a wall or an enemy, and
/// then sets off the explosions.
pub fn update_projectiles(world: &mut World, dt: u32, time: u64)
    requires
        old(world).wf(),
    ensures
        projectiles_post(old(world)@, final(world)@, dt, time),
        final(world).wf(),
{
    let ghost pre = world@;
    let mut explosions: Vec<Blast> = Vec::new();
    let mut kept: Vec<Projectile> = Vec::new();
    let mut i: usize = 0;
    while i < world.projectiles.len()
        invariant
            world.wf(),
            i <= world@.projectiles.len(),
            world@ == (WorldView { enemies: world@.enemies, ..pre }),
            world@.enemies.len() == pre.enemies.len(),
            (Flight { kept: kept@, enemies: world@.enemies, blasts: explosions@ }) == fly(
                pre.level,
                pre.projectiles,
                pre.enemies,
                dt,
                i as nat,
            ),
            forall|k: int| 0 <= k < kept@.len() ==> (#[trigger] kept@[k]).wf(),
            forall|k: int|
                0 <= k < explosions@.len() ==> (#[trigger] explosions@[k]).at.wf() && 0
                    <= explosions@[k].damage <= 2 * STAT_LIMIT,
        decreases world@.projectiles.len() - i,
    {
        let ghost head = world@;
        assert(world@.projectiles[i as int].wf());
        let q = fly_on(&world.projectiles[i], dt);
        let blast = Blast { at: q.pos, damage: q.damage };
        if world.level.check_collision(q.pos.x, q.pos.z, PROJECTILE_RADIUS) {
            if q.explosive {
                explosions.push(blast);
            }
        } else {
            match find_near(&world.enemies, &q.pos) {
                Some(j) => {
                    if q.explosive {
                        explosions.push(blast);
                    } else {
                        assert(head.enemies[j as int].wf());
                        let health = clamp(
                            world.enemies[j].health - q.damage,
                            -STAT_LIMIT,
                            STAT_LIMIT,
                        );
                        world.enemies[j].health = health;
                        proof {
                            assert(world@.enemies =~= head.enemies.update(
                                j as int,
                                Enemy { health, ..head.enemies[j as int] },
                            ));
                            assert forall|k: int| 0 <= k < world@.enemies.len() implies (
                            #[trigger] world@.enemies[k]).wf() by {
                                assert(head.enemies[k].wf());
                            }
                        }
                    }
                },
                None => {
                    kept.push(q);
                },
            }
        }
        proof {
            assert(world@.projectiles == head.projectiles);
            assert(world@.particles == head.particles);
            assert(world@.pickups == head.pickups);
        }
        i += 1;
    }
    world.projectiles = kept;
    let ghost landed = world@;
    proof {
        assert(landed == spec_flight(pre, dt));
        assert(explosions@ == spec_blasts(pre, dt));
    }
    let mut j: usize = 0;
    while j < explosions.len()
        invariant
            world.wf(),
            j <= explosions@.len(),
            forall|k: int|
                0 <= k < explosions@.len() ==> (#[trigger] explosions@[k]).at.wf() && 0
                    <= explosions@[k].damage <= 2 * STAT_LIMIT,
            explode_all(landed, world@, explosions@, time, j as nat),
        decreases explosions@.len() - j,
    {
        let ghost mid = world@;
        let blast = explosions[j];
        assert(explosions@[j as int].at.wf());
        explode(world, blast.at, blast.damage, time);
        proof {
            let n = (j + 1) as nat;
            assert(explode_all(landed, mid, explosions@, time, (n - 1) as nat));
            assert(explode_post(mid, world@, explosions@[n - 1].at, explosions@[n - 1].damage, time));
        }
        j += 1;
    }
}

} // verus!
