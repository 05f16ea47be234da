//! What holds of the game as a whole, proved from the rules of its parts.
use crate::ai::{enemies_act, spec_approach, spec_update_enemies, spec_way, APPROACH_RANGE, ENEMY_RADIUS};
use crate::blast::{
    blast_enemies, explode_all, explode_post, first_near, flown, fly, is_near, projectiles_post,
    spec_blasts, spec_flight, Blast, BLAST_SHAKE,
};
use crate::combat::{
    first_target, is_target, march, spec_kill_score, spec_sample, struck, RayHit, COMBO_BONUS,
    COMBO_WINDOW, PROBE_RADIUS, RAY_SAMPLES,
};
use crate::entity::{Enemy, Pickup, Projectile};
use crate::fixed::{lemma_abs_below_sqrt, lemma_trunc_div_bound, sq, trunc_div, Vec3, ONE};
use crate::game::{confirms, pauses, play_post, player_post, update_post, wants_fire};
use crate::input::{Basis, GamepadState, Input};
use crate::level::LevelView;
use crate::maps::{level_view, LEVEL_COUNT};
use crate::motion::{lemma_step_bound, spec_move_intent, spec_step, spec_walking_speed, sprints};
use crate::pickups::{pickups_post, pickups_step, timers_run};
use crate::player::{Player, PLAYER_RADIUS};
use crate::shooting::{pellet_post, spec_aimed_spread, spec_shot_direction, volley};
use crate::world::{alive_among, GameState, WorldView};
use vstd::prelude::*;

verus! {

/// The two worlds agree in what a frame's combat cannot change: the state
/// of the game, the level and its number.
pub open spec fn same_stage(a: WorldView, b: WorldView) -> bool {
    a.state == b.state && a.level == b.level && a.current_level == b.current_level
}

/// Wall sliding. Whatever tries to move into a wall along x stays where it
/// is on x, and is still carried along z wherever the step along z is free
/// from there; and a step along z into a wall leaves z as it is, whatever
/// became of the step along x.
pub proof fn lemma_wall_sliding(level: LevelView, pos: Vec3, new_x: i64, new_z: i64, radius: int)
    ensures
        ({
            let after = level.slide(pos, new_x as int, new_z as int, radius);
            &&& level.check_collision(new_x as int, pos.z as int, radius) ==> after.x == pos.x
            &&& !level.check_collision(new_x as int, pos.z as int, radius) ==> after.x == new_x
            &&& level.check_collision(after.x as int, new_z as int, radius) ==> after.z == pos.z
            &&& !level.check_collision(after.x as int, new_z as int, radius) ==> after.z == new_z
            &&& after.y == pos.y
        }),
{
}

/// Wall sliding of the player. A walking player whose step along x would
/// run into a wall keeps the old x, and still moves along z if that step is
/// free.
pub proof fn lemma_player_slides(
    level: LevelView,
    player: Player,
    input: Input,
    pad: GamepadState,
    basis: Basis,
)
    requires
        player.wf(),
        pad.wf(),
        basis.wf(),
        spec_move_intent(input, pad, basis).spec_length() > 0,
    ensures
        ({
            let dir = spec_move_intent(input, pad, basis).spec_normalized();
            let speed = spec_walking_speed(sprints(input, pad), player.speed_boost > 0);
            let new_x = player.pos.x + spec_step(dir.x as int, speed, input.dt as int);
            let new_z = player.pos.z + spec_step(dir.z as int, speed, input.dt as int);
            let after = level.walk(player, input, pad, basis);
            &&& level.check_collision(new_x, player.pos.z as int, PLAYER_RADIUS as int) ==> after.x
                == player.pos.x
            &&& level.check_collision(new_x, player.pos.z as int, PLAYER_RADIUS as int)
                && !level.check_collision(player.pos.x as int, new_z, PLAYER_RADIUS as int)
                ==> after.z == new_z
        }),
{
    let intent = spec_move_intent(input, pad, basis);
    lemma_unit(intent);
    let dir = intent.spec_normalized();
    let speed = spec_walking_speed(sprints(input, pad), player.speed_boost > 0);
    lemma_step_bound(dir.x as int, speed, input.dt as int);
    lemma_step_bound(dir.z as int, speed, input.dt as int);
}

/// Wall sliding of an enemy. An approaching enemy whose step along x would
/// run into a wall keeps the old x, and still moves along z if that step is
/// free.
pub proof fn lemma_enemy_slides(e: Enemy, level: LevelView, target: Vec3, dt: u32)
    requires
        e.wf(),
        target.wf(),
        e.pos.spec_flat_dist_sq(target) > sq(APPROACH_RANGE as int),
    ensures
        ({
            let dir = spec_way(e, target).spec_normalized();
            let new_x = e.pos.x + spec_step(dir.x as int, e.speed as int, dt as int);
            let new_z = e.pos.z + spec_step(dir.z as int, e.speed as int, dt as int);
            let after = spec_approach(e, level, target, dt).pos;
            &&& level.check_collision(new_x, e.pos.z as int, ENEMY_RADIUS as int) ==> after.x
                == e.pos.x
            &&& level.check_collision(new_x, e.pos.z as int, ENEMY_RADIUS as int)
                && !level.check_collision(e.pos.x as int, new_z, ENEMY_RADIUS as int) ==> after.z
                == new_z
        }),
{
    let way = spec_way(e, target);
    lemma_unit(way);
    let dir = way.spec_normalized();
    lemma_step_bound(dir.x as int, e.speed as int, dt as int);
    lemma_step_bound(dir.z as int, e.speed as int, dt as int);
}

/// No component of a vector scaled to unit length is longer than 1.0.
pub proof fn lemma_unit(v: Vec3)
    ensures
        v.spec_normalized().is_direction(),
{
    let len = v.spec_length();
    let n = sq(v.x as int) + sq(v.y as int) + sq(v.z as int);
    assert(0 <= sq(v.x as int) && 0 <= sq(v.y as int) && 0 <= sq(v.z as int)) by (nonlinear_arith);
    if len != 0 {
        lemma_abs_below_sqrt(v.x as int, n);
        lemma_abs_below_sqrt(v.y as int, n);
        lemma_abs_below_sqrt(v.z as int, n);
        lemma_unit_part(v.x as int, len);
        lemma_unit_part(v.y as int, len);
        lemma_unit_part(v.z as int, len);
    }
}

proof fn lemma_unit_part(c: int, len: int)
    requires
        0 < len,
        -len <= c <= len,
    ensures
        -ONE <= trunc_div(c * ONE, len) <= ONE,
{
    assert(-(ONE * len) <= c * ONE <= ONE * len) by (nonlinear_arith)
        requires
            -len <= c <= len,
    ;
    lemma_trunc_div_bound(c * ONE, len, ONE as int);
}

/// The streak. A kill by an instant shot is scored with the enemy's points
/// and 50 for each kill of the streak, the new one counted, and starts the
/// streak's window anew; when the window has run out, the streak is over
/// before the next kill is scored.
pub proof fn lemma_streak(w: WorldView, i: int, damage: i64, time: u64, dt: u32)
    requires
        0 <= i < w.enemies.len(),
        w.enemies[i].health - damage <= 0,
        w.combo < i32::MAX,
    ensures
        struck(w, i, damage, time).combo == w.combo + 1,
        struck(w, i, damage, time).combo_timer == COMBO_WINDOW,
        struck(w, i, damage, time).player.score == spec_kill_score(
            w.player.score,
            w.enemies[i].etype.spec_points(),
            (w.combo + 1) as i32,
        ),
        w.player.score + w.enemies[i].etype.spec_points() + COMBO_BONUS * (w.combo + 1) <= i32::MAX
            && w.player.score + w.enemies[i].etype.spec_points() + COMBO_BONUS * (w.combo + 1)
            >= i32::MIN ==> struck(w, i, damage, time).player.score == w.player.score
            + w.enemies[i].etype.spec_points() + COMBO_BONUS * (w.combo + 1),
        dt >= w.combo_timer ==> w.combo_run(dt).combo == 0,
        dt < w.combo_timer ==> w.combo_run(dt).combo == w.combo,
{
}

/// Nobody leaves the list and nobody comes back to life: the two lists are
/// of one length, and whoever is dead in the first is unchanged in the
/// second.
pub open spec fn persists(a: Seq<Enemy>, b: Seq<Enemy>) -> bool {
    &&& a.len() == b.len()
    &&& forall|i: int| 0 <= i < a.len() && (#[trigger] a[i]).dead ==> b[i] == a[i]
}

/// No pickup leaves the list and none can be had again: the two lists are
/// of one length, and whatever is collected in the first is unchanged in
/// the second.
pub open spec fn stay_collected(a: Seq<Pickup>, b: Seq<Pickup>) -> bool {
    &&& a.len() == b.len()
    &&& forall|i: int| 0 <= i < a.len() && (#[trigger] a[i]).collected ==> b[i] == a[i]
}

/// What combat leaves as it is: the stage and the pickups; and the enemies
/// persist.
pub open spec fn combat_kept(a: WorldView, b: WorldView) -> bool {
    &&& same_stage(a, b)
    &&& persists(a.enemies, b.enemies)
    &&& b.pickups == a.pickups
}

/// The enemy that a sample hits is alive and in the list.
pub proof fn lemma_target_alive(enemies: Seq<Enemy>, at: Vec3, from: int)
    requires
        0 <= from,
    ensures
        match first_target(enemies, at, from) {
            Some(i) => from <= i < enemies.len() && !enemies[i].dead,
            None => true,
        },
    decreases enemies.len() - from,
{
    if from < enemies.len() && !is_target(enemies[from], at) {
        lemma_target_alive(enemies, at, from + 1);
    }
}

/// The enemy that a projectile comes near is alive and in the list.
pub proof fn lemma_near_alive(enemies: Seq<Enemy>, at: Vec3, from: int)
    requires
        0 <= from,
    ensures
        match first_near(enemies, at, from) {
            Some(i) => from <= i < enemies.len() && !enemies[i].dead,
            None => true,
        },
    decreases enemies.len() - from,
{
    if from < enemies.len() && !is_near(enemies[from], at) {
        lemma_near_alive(enemies, at, from + 1);
    }
}

/// The enemy that a ray meets is alive and in the list.
pub proof fn lemma_ray_meets_the_living(
    level: LevelView,
    enemies: Seq<Enemy>,
    start: Vec3,
    dir: Vec3,
    k: int,
)
    requires
        0 <= k,
        enemies.len() <= usize::MAX,
    ensures
        match march(level, enemies, start, dir, k) {
            RayHit::Enemy(i, _) => i < enemies.len() && !enemies[i as int].dead,
            _ => true,
        },
    decreases RAY_SAMPLES - k,
{
    if k < RAY_SAMPLES {
        let at = spec_sample(start, dir, k);
        if !level.check_collision(at.x as int, at.z as int, PROBE_RADIUS as int) {
            lemma_target_alive(enemies, at, 0);
            if first_target(enemies, at, 0).is_none() {
                lemma_ray_meets_the_living(level, enemies, start, dir, k + 1);
            }
        }
    }
}

/// One pellet keeps what combat keeps.
pub proof fn lemma_pellet_kept(
    pre: WorldView,
    post: WorldView,
    dir: Vec3,
    damage: i64,
    explosive: bool,
    time: u64,
)
    requires
        pellet_post(pre, post, dir, damage, explosive, time),
        pre.enemies.len() <= usize::MAX,
    ensures
        combat_kept(pre, post),
{
    if !explosive {
        lemma_ray_meets_the_living(pre.level, pre.enemies, pre.player.pos, dir, 0);
    }
}

/// A volley keeps what combat keeps.
pub proof fn lemma_volley_kept(
    pre: WorldView,
    post: WorldView,
    basis: Basis,
    spread: i64,
    damage: i64,
    explosive: bool,
    time: u64,
    n: nat,
)
    requires
        volley(pre, post, basis, spread, damage, explosive, time, n),
        pre.enemies.len() <= usize::MAX,
    ensures
        combat_kept(pre, post),
    decreases n,
{
    if n > 0 {
        let (mid, sx, sy) = choose|mid: WorldView, sx: i64, sy: i64|
            {
                &&& volley(pre, mid, basis, spread, damage, explosive, time, (n - 1) as nat)
                &&& -spread <= sx <= spread
                &&& -spread <= sy <= spread
                &&& #[trigger] pellet_post(
                    mid,
                    post,
                    spec_shot_direction(basis, sx, sy),
                    damage,
                    explosive,
                    time,
                )
            };
        lemma_volley_kept(pre, mid, basis, spread, damage, explosive, time, (n - 1) as nat);
        lemma_pellet_kept(mid, post, spec_shot_direction(basis, sx, sy), damage, explosive, time);
    }
}

/// The player's frame keeps what combat keeps.
pub proof fn lemma_player_kept(pre: WorldView, post: WorldView, input: Input, pad: GamepadState, basis: Basis)
    requires
        player_post(pre, post, input, pad, basis),
        pre.enemies.len() <= usize::MAX,
    ensures
        combat_kept(pre, post),
{
    let walked = pre.walked(input, pad, basis);
    if wants_fire(input, pad) && walked.weapon().spec_can_fire(input.time) {
        lemma_volley_kept(
            walked.fired(input.time),
            post,
            basis,
            spec_aimed_spread(walked.weapon().spread, walked.player.aim_transition) as i64,
            walked.shot_damage() as i64,
            walked.weapon().explosive,
            input.time,
            if walked.weapon().pellets > 0 {
                walked.weapon().pellets as nat
            } else {
                0
            },
        );
    }
}

/// The enemies' turn keeps what combat keeps.
pub proof fn lemma_enemies_kept(w: WorldView, n: nat, dt: u32, time: u64)
    requires
        n <= w.enemies.len(),
    ensures
        combat_kept(w, enemies_act(w, n, dt, time)),
    decreases n,
{
    if n > 0 {
        lemma_enemies_kept(w, (n - 1) as nat, dt, time);
    }
}

/// What an explosion does to the enemies keeps what combat keeps.
pub proof fn lemma_blast_kept(w: WorldView, n: nat, at: Vec3, damage: i64, time: u64)
    requires
        n <= w.enemies.len(),
    ensures
        combat_kept(w, blast_enemies(w, n, at, damage, time)),
    decreases n,
{
    if n > 0 {
        lemma_blast_kept(w, (n - 1) as nat, at, damage, time);
    }
}

/// Explosions keep what combat keeps.
pub proof fn lemma_explosions_kept(pre: WorldView, post: WorldView, blasts: Seq<Blast>, time: u64, n: nat)
    requires
        explode_all(pre, post, blasts, time, n),
    ensures
        combat_kept(pre, post),
    decreases n,
{
    if n > 0 {
        let mid = choose|mid: WorldView|
            {
                &&& explode_all(pre, mid, blasts, time, (n - 1) as nat)
                &&& #[trigger] explode_post(mid, post, blasts[n - 1].at, blasts[n - 1].damage, time)
            };
        lemma_explosions_kept(pre, mid, blasts, time, (n - 1) as nat);
        lemma_blast_kept(
            WorldView { screen_shake: BLAST_SHAKE, ..mid },
            mid.enemies.len(),
            blasts[n - 1].at,
            blasts[n - 1].damage,
            time,
        );
    }
}

/// The flight of the projectiles lets the enemies persist.
pub proof fn lemma_flight_kept(
    level: LevelView,
    projectiles: Seq<Projectile>,
    enemies: Seq<Enemy>,
    dt: u32,
    n: nat,
)
    ensures
        persists(enemies, fly(level, projectiles, enemies, dt, n).enemies),
    decreases n,
{
    if n > 0 {
        lemma_flight_kept(level, projectiles, enemies, dt, (n - 1) as nat);
        let before = fly(level, projectiles, enemies, dt, (n - 1) as nat);
        lemma_near_alive(before.enemies, flown(projectiles[n - 1], dt).pos, 0);
    }
}

/// Collecting pickups leaves the stage and the enemies as they are, and
/// what is collected stays collected.
pub proof fn lemma_pickups_kept(w: WorldView, n: nat)
    requires
        n <= w.pickups.len(),
    ensures
        same_stage(w, pickups_step(w, n)),
        pickups_step(w, n).enemies == w.enemies,
        stay_collected(w.pickups, pickups_step(w, n).pickups),
    decreases n,
{
    if n > 0 {
        lemma_pickups_kept(w, (n - 1) as nat);
    }
}

/// What a frame of play keeps. From the faded world to the world in which
/// the frame ends, the level stays, the enemies persist, collected pickups
/// stay collected, and the game is still in play when the frame's end is
/// judged.
pub proof fn lemma_play_kept(pre: WorldView, post: WorldView, input: Input, pad: GamepadState, basis: Basis)
    requires
        play_post(pre, post, input, pad, basis),
        pre.enemies.len() <= usize::MAX,
    ensures
        exists|collected: WorldView|
            {
                &&& #[trigger] collected.play_ended(input, pad) == post
                &&& same_stage(pre, collected)
                &&& persists(pre.enemies, collected.enemies)
                &&& stay_collected(pre.pickups, collected.pickups)
            },
{
    let (moved, landed, collected) = choose|moved: WorldView, landed: WorldView, collected: WorldView|
        #![trigger player_post(pre, moved, input, pad, basis), pickups_post(landed.particles_flown(input.dt), collected, input.dt)]
        {
            &&& player_post(pre, moved, input, pad, basis)
            &&& projectiles_post(
                spec_update_enemies(moved, input.dt, input.time),
                landed,
                input.dt,
                input.time,
            )
            &&& pickups_post(landed.particles_flown(input.dt), collected, input.dt)
            &&& post == collected.play_ended(input, pad)
        };
    lemma_player_kept(pre, moved, input, pad, basis);
    lemma_enemies_kept(moved, moved.enemies.len(), input.dt, input.time);
    let met = spec_update_enemies(moved, input.dt, input.time);
    lemma_flight_kept(met.level, met.projectiles, met.enemies, input.dt, met.projectiles.len());
    lemma_explosions_kept(
        spec_flight(met, input.dt),
        landed,
        spec_blasts(met, input.dt),
        input.time,
        spec_blasts(met, input.dt).len(),
    );
    let flown = landed.particles_flown(input.dt);
    lemma_pickups_kept(
        WorldView { player: timers_run(flown.player, input.dt), ..flown },
        flown.pickups.len(),
    );
    assert(collected.play_ended(input, pad) == post);
}

/// Victory takes both. A frame of play ends in victory only where, at its
/// end, no enemy is alive and the player stands at the exit. Killing the
/// last enemy away from the exit does not win the level.
pub proof fn lemma_victory_needs_both(
    pre: WorldView,
    post: WorldView,
    input: Input,
    pad: GamepadState,
    basis: Basis,
)
    requires
        update_post(pre, post, input, pad, basis),
        pre.state == GameState::Playing,
        pre.enemies.len() <= usize::MAX,
        post.state == GameState::Victory,
    ensures
        post.alive_enemies() == 0,
        post.at_exit(),
{
    lemma_play_kept(pre.faded(input.dt), post, input, pad, basis);
}

/// Victory is found. A frame of play at whose end no enemy is alive and the
/// player stands at the exit ends in victory, unless the game is paused in
/// that frame or the player has died.
pub proof fn lemma_victory_is_found(
    pre: WorldView,
    post: WorldView,
    input: Input,
    pad: GamepadState,
    basis: Basis,
)
    requires
        update_post(pre, post, input, pad, basis),
        pre.state == GameState::Playing,
        pre.enemies.len() <= usize::MAX,
        post.alive_enemies() == 0,
        post.at_exit(),
        post.player.health > 0,
        !pauses(input, pad),
    ensures
        post.state == GameState::Victory,
{
    lemma_play_kept(pre.faded(input.dt), post, input, pad, basis);
}

/// The dead stay dead. Through a frame of play no enemy leaves the list,
/// and an enemy that is dead before the frame is untouched by it. The same
/// holds of pickups that are collected.
pub proof fn lemma_the_dead_stay_dead(
    pre: WorldView,
    post: WorldView,
    input: Input,
    pad: GamepadState,
    basis: Basis,
)
    requires
        update_post(pre, post, input, pad, basis),
        pre.state == GameState::Playing,
        pre.enemies.len() <= usize::MAX,
    ensures
        persists(pre.enemies, post.enemies),
        stay_collected(pre.pickups, post.pickups),
        post.level == pre.level,
        post.current_level == pre.current_level,
{
    lemma_play_kept(pre.faded(input.dt), post, input, pad, basis);
}

/// No enemy is alive exactly when every enemy is dead.
pub proof fn lemma_none_alive(enemies: Seq<Enemy>, n: nat)
    requires
        n <= enemies.len(),
    ensures
        alive_among(enemies, n) == 0 <==> (forall|i: int| 0 <= i < n ==> (#[trigger] enemies[i]).dead),
    decreases n,
{
    if n > 0 {
        lemma_none_alive(enemies, (n - 1) as nat);
        if alive_among(enemies, n) == 0 {
            assert forall|i: int| 0 <= i < n implies (#[trigger] enemies[i]).dead by {
                if i < n - 1 {
                }
            }
        } else {
            if forall|i: int| 0 <= i < n ==> (#[trigger] enemies[i]).dead {
                assert(enemies[n - 1].dead);
            }
        }
    }
}

/// The next level. Confirming a victory short of the last level loads the
/// next one: nothing is left in flight, the player stands at the new
/// level's start and looks along the x axis, and the kills of the level
/// start from zero; score, kill total, weapons and their ammunition,
/// health, armor and the running boosts are kept.
pub proof fn lemma_next_level(
    pre: WorldView,
    post: WorldView,
    input: Input,
    pad: GamepadState,
    basis: Basis,
)
    requires
        update_post(pre, post, input, pad, basis),
        pre.state == GameState::Victory,
        confirms(input, pad),
        pre.current_level < LEVEL_COUNT,
    ensures
        post.state == GameState::Playing,
        post.current_level == pre.current_level + 1,
        post.level == level_view(pre.current_level + 1),
        post.enemies == post.level.enemies(),
        post.projectiles.len() == 0,
        post.particles.len() == 0,
        post.player.pos == post.level.start(),
        post.player.yaw == 0,
        post.player.pitch == 0,
        post.player.kills == 0,
        post.player.score == pre.player.score,
        post.total_kills == pre.total_kills,
        post.player.weapons == pre.player.weapons,
        post.player.current_weapon == pre.player.current_weapon,
        post.player.health == pre.player.health,
        post.player.armor == pre.player.armor,
        post.player.speed_boost == pre.player.speed_boost,
        post.player.damage_boost == pre.player.damage_boost,
{
}

} // verus!
