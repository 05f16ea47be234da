//! Pickups and the timers of what they give.
use crate::entity::{Paint, Pickup};
use crate::fixed::{clamp, clamp_int, lemma_sq_range, sq, Vec3};
use crate::particles::{emit_all, particles_added, Burst};
use crate::player::{Player, BOOST_TIME};
use crate::weapon::STAT_LIMIT;
use crate::world::{World, WorldView};
use vstd::prelude::*;

verus! {

/// A pickup is collected from less than this.
pub const PICKUP_RANGE: i64 = 1_500_000;

/// The player is near enough to collect the pickup, and nobody has yet.
pub open spec fn in_reach(p: Pickup, pos: Vec3) -> bool {
    !p.collected && pos.spec_flat_dist_sq(p.pos) < sq(PICKUP_RANGE as int)
}

/// The player after `dt` microseconds have run off the message and the
/// boosts. A boost ends at zero.
pub open spec fn timers_run(p: Player, dt: u32) -> Player {
    Player {
        pickup_msg_time: clamp_int(p.pickup_msg_time - dt, -STAT_LIMIT, STAT_LIMIT as int) as i64,
        speed_boost: clamp_int(p.speed_boost - dt, 0, BOOST_TIME as int) as i64,
        damage_boost: clamp_int(p.damage_boost - dt, 0, BOOST_TIME as int) as i64,
        ..p
    }
}

/// The world after the pickup with index `i` has been looked at: within
/// reach it is collected, which marks it and gives the player its effect.
pub open spec fn pickup_step(w: WorldView, i: int) -> WorldView {
    let p = w.pickups[i];
    if in_reach(p, w.player.pos) {
        WorldView {
            pickups: w.pickups.update(i, Pickup { collected: true, ..p }),
            player: w.player.spec_collect(p.pickup_type),
            ..w
        }
    } else {
        w
    }
}

/// The world after the first `n` pickups have been looked at, in order.
pub open spec fn pickups_step(w: WorldView, n: nat) -> WorldView
    decreases n,
{
    if n == 0 {
        w
    } else {
        pickup_step(pickups_step(w, (n - 1) as nat), n - 1)
    }
}

/// The spray of particles off a collected pickup.
pub open spec fn pickup_burst(p: Pickup) -> Burst {
    Burst::spray(p.pos, Paint::Pickup(p.pickup_type), 15, 5_000_000, 150_000)
}

/// The sprays off those of the first `n` pickups that are within reach.
pub open spec fn pickup_bursts(pickups: Seq<Pickup>, pos: Vec3, n: nat) -> Seq<Burst>
    decreases n,
{
    if n == 0 {
        Seq::empty()
    } else {
        let before = pickup_bursts(pickups, pos, (n - 1) as nat);
        if in_reach(pickups[n - 1], pos) {
            before.push(pickup_burst(pickups[n - 1]))
        } else {
            before
        }
    }
}

/// The world after a frame's pickups, particles aside: the timers run, then
/// every pickup within reach is collected.
pub open spec fn spec_update_pickups(w: WorldView, dt: u32) -> WorldView {
    pickups_step(WorldView { player: timers_run(w.player, dt), ..w }, w.pickups.len())
}

/// `post` is what a frame's pickups make of `pre`.
pub open spec fn pickups_post(pre: WorldView, post: WorldView, dt: u32) -> bool {
    particles_added(
        spec_update_pickups(pre, dt),
        post,
        pickup_bursts(pre.pickups, pre.player.pos, pre.pickups.len()),
    )
}

/// Looking at pickups leaves alone where the player stands, every pickup
/// not yet looked at, and the number of pickups.
pub proof fn lemma_pickups_step_frame(w: WorldView, n: nat)
    requires
        n <= w.pickups.len(),
    ensures
        pickups_step(w, n).player.pos == w.player.pos,
        pickups_step(w, n).pickups.len() == w.pickups.len(),
        forall|k: int| n <= k < w.pickups.len() ==> pickups_step(w, n).pickups[k] == w.pickups[k],
        forall|k: int|
            0 <= k < n ==> (#[trigger] pickups_step(w, n).pickups[k]).pos == w.pickups[k].pos
                && pickups_step(w, n).pickups[k].collected == (w.pickups[k].collected || in_reach(
                w.pickups[k],
                w.player.pos,
            )),
    decreases n,
{
    if n > 0 {
        lemma_pickups_step_frame(w, (n - 1) as nat);
    }
}

/// Where no pickup is within reach, looking at the pickups changes nothing.
pub proof fn lemma_nothing_in_reach(w: WorldView, n: nat)
    requires
        n <= w.pickups.len(),
        forall|k: int| 0 <= k < n ==> !in_reach(#[trigger] w.pickups[k], w.player.pos),
    ensures
        pickups_step(w, n) == w,
    decreases n,
{
    if n > 0 {
        lemma_nothing_in_reach(w, (n - 1) as nat);
        assert(!in_reach(w.pickups[n - 1], w.player.pos));
    }
}

/// A pickup is collected once. After a frame's pickups, a second pass from
/// the same place finds nothing to collect: it runs the timers and leaves
/// health, armor, ammunition, score and the pickups as they are.
pub proof fn lemma_pickup_collected_once(w: WorldView, dt1: u32, dt2: u32)
    ensures
        spec_update_pickups(spec_update_pickups(w, dt1), dt2) == (WorldView {
            player: timers_run(spec_update_pickups(w, dt1).player, dt2),
            ..spec_update_pickups(w, dt1)
        }),
{
    let w0 = WorldView { player: timers_run(w.player, dt1), ..w };
    let w1 = spec_update_pickups(w, dt1);
    lemma_pickups_step_frame(w0, w0.pickups.len());
    let w2 = WorldView { player: timers_run(w1.player, dt2), ..w1 };
    assert forall|k: int| 0 <= k < w2.pickups.len() implies !in_reach(
        #[trigger] w2.pickups[k],
        w2.player.pos,
    ) by {
        assert(w2.pickups[k] == pickups_step(w0, w0.pickups.len()).pickups[k]);
    }
    lemma_nothing_in_reach(w2, w2.pickups.len());
}

/// Whether the player at `pos` collects the pickup.
pub fn reaches(p: &Pickup, pos: &Vec3) -> (b: bool)
    requires
        p.wf(),
        pos.wf(),
    ensures
        b == in_reach(*p, *pos),
{
    proof {
        lemma_sq_range(PICKUP_RANGE as int, PICKUP_RANGE as int);
    }
    !p.collected && pos.flat_dist_sq(&p.pos) < (PICKUP_RANGE as i128) * (PICKUP_RANGE as i128)
}

/// Runs the timers of the message and the boosts, and collects every
/// pickup within the player's reach.
pub fn update_pickups(world: &mut World, dt: u32)
    requires
        old(world).wf(),
    ensures
        pickups_post(old(world)@, final(world)@, dt),
        final(world).wf(),
{
    let ghost pre = world@;
    world.player.pickup_msg_time = clamp(
        world.player.pickup_msg_time - dt as i64,
        -STAT_LIMIT,
        STAT_LIMIT,
    );
    world.player.speed_boost = clamp(world.player.speed_boost - dt as i64, 0, BOOST_TIME);
    world.player.damage_boost = clamp(world.player.damage_boost - dt as i64, 0, BOOST_TIME);
    let ghost run = world@;
    proof {
        assert(run == (WorldView { player: timers_run(pre.player, dt), ..pre }));
        assert forall|k: int| 0 <= k < 4 implies (#[trigger] world@.player.weapons[k]).wf() by {
            assert(pre.player.weapons[k].wf());
        }
    }
    let mut particle_spawns: Vec<Burst> = Vec::new();
    let mut i: usize = 0;
    while i < world.pickups.len()
        invariant
            world.wf(),
            i <= world@.pickups.len(),
            run.pickups == pre.pickups,
            run.player.pos == pre.player.pos,
            world@.pickups.len() == pre.pickups.len(),
            world@ == pickups_step(run, i as nat),
            particle_spawns@ == pickup_bursts(pre.pickups, pre.player.pos, i as nat),
            forall|k: int| 0 <= k < particle_spawns@.len() ==> (#[trigger] particle_spawns@[k]).wf(),
        decreases world@.pickups.len() - i,
    {
        let ghost head = world@;
        proof {
            lemma_pickups_step_frame(run, i as nat);
            assert(head.pickups[i as int] == pre.pickups[i as int]);
            assert(head.pickups[i as int].wf());
        }
        let pickup = world.pickups[i];
        if reaches(&pickup, &world.player.pos) {
            world.pickups[i].collected = true;
            world.player.collect(pickup.pickup_type);
            particle_spawns.push(Burst::spray(pickup.pos, pickup.color(), 15, 5_000_000, 150_000));
            proof {
                assert(world@.pickups =~= pickup_step(head, i as int).pickups);
                assert(world@.enemies == head.enemies);
                assert(world@.projectiles == head.projectiles);
                assert(world@.particles == head.particles);
                assert forall|k: int| 0 <= k < world@.pickups.len() implies (#[trigger] world@.pickups[k]).wf() by {
                    assert(head.pickups[k].wf());
                }
            }
        }
        i += 1;
    }
    emit_all(world, &particle_spawns);
}

} // verus!
