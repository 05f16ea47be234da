//! Particles: short-lived debris that combat and pickups throw up.
//!
//! Nothing in the game depends on a particle. Their flight is chance: a
//! burst fixes the ranges from which each particle's velocity, lifetime and
//! size are drawn.
use crate::entity::{FireTone, Paint, Particle};
use crate::fixed::{saturate, saturated, spec_travel, travel, Vec3};
use crate::random::random_between;
use crate::world::{World, WorldView};
use vstd::prelude::*;

verus! {

/// Downward acceleration of a particle, per second squared.
pub const GRAVITY: i64 = 15;

/// Largest speed of a spray of particles.
pub const SPRAY_LIMIT: i64 = 1_000_000_000;

/// How the particles of a burst are painted.
#[derive(Clone, Copy, Debug, PartialEq, Eq, Structural)]
pub enum Tint {
    /// All alike.
    Plain(Paint),
    /// Each in one of the four tones of fire.
    Fireball,
}

/// A burst of particles from one point: how many, and the ranges that their
/// properties are drawn from.
#[derive(Clone, Copy, Debug, PartialEq, Eq, Structural)]
pub struct Burst {
    pub pos: Vec3,
    pub tint: Tint,
    pub count: i32,
    /// Bound of the two horizontal components of the velocity.
    pub spread: i32,
    pub rise_min: i32,
    pub rise_max: i32,
    pub life_min: i32,
    pub life_max: i32,
    pub max_life: i64,
    pub size_min: i32,
    pub size_max: i32,
}

impl Tint {
    /// A particle of this tint may have the given colour.
    pub open spec fn admits(self, color: Paint) -> bool {
        match self {
            Tint::Plain(paint) => color == paint,
            Tint::Fireball => color is Fire,
        }
    }
}

impl Burst {
    pub open spec fn wf(self) -> bool {
        &&& self.pos.wf()
        &&& 0 <= self.spread
        &&& self.rise_min <= self.rise_max
        &&& self.life_min <= self.life_max
        &&& self.size_min <= self.size_max
    }

    /// The number of particles in the burst.
    pub open spec fn amount(self) -> nat {
        if self.count > 0 {
            self.count as nat
        } else {
            0
        }
    }

    /// `p` may be a particle of this burst.
    pub open spec fn admits(self, p: Particle) -> bool {
        &&& p.pos == self.pos
        &&& self.tint.admits(p.color)
        &&& -self.spread <= p.vel.x <= self.spread
        &&& self.rise_min <= p.vel.y <= self.rise_max
        &&& -self.spread <= p.vel.z <= self.spread
        &&& self.life_min <= p.life <= self.life_max
        &&& p.max_life == self.max_life
        &&& self.size_min <= p.size <= self.size_max
    }

    /// A spray of `count` particles of one colour and size: they leave at up
    /// to `speed` sideways and up to one and a half times `speed` upward, and
    /// live from 0.2 to 0.5 seconds.
    pub open spec fn spec_spray(pos: Vec3, color: Paint, count: i32, speed: i64, size: i64) -> Burst {
        Burst {
            pos,
            tint: Tint::Plain(color),
            count,
            spread: speed as i32,
            rise_min: 0,
            rise_max: (speed * 3 / 2) as i32,
            life_min: 200_000,
            life_max: 500_000,
            max_life: 500_000,
            size_min: size as i32,
            size_max: size as i32,
        }
    }

    /// The fireballs of an explosion at `pos`.
    pub open spec fn spec_fireballs(pos: Vec3) -> Burst {
        Burst {
            pos,
            tint: Tint::Fireball,
            count: 120,
            spread: 15_000_000,
            rise_min: 3_000_000,
            rise_max: 20_000_000,
            life_min: 500_000,
            life_max: 1_800_000,
            max_life: 1_800_000,
            size_min: 300_000,
            size_max: 800_000,
        }
    }

    /// The smoke of an explosion at `pos`: slower and longer-lived.
    pub open spec fn spec_smoke(pos: Vec3) -> Burst {
        Burst {
            pos,
            tint: Tint::Plain(Paint::Smoke),
            count: 40,
            spread: 5_000_000,
            rise_min: 1_000_000,
            rise_max: 8_000_000,
            life_min: 1_000_000,
            life_max: 2_500_000,
            max_life: 2_500_000,
            size_min: 400_000,
            size_max: 1_000_000,
        }
    }

    /// The white-hot core of an explosion at `pos`: fast and brief.
    pub open spec fn spec_flash(pos: Vec3) -> Burst {
        Burst {
            pos,
            tint: Tint::Plain(Paint::Flash),
            count: 20,
            spread: 20_000_000,
            rise_min: 5_000_000,
            rise_max: 25_000_000,
            life_min: 100_000,
            life_max: 400_000,
            max_life: 400_000,
            size_min: 500_000,
            size_max: 1_200_000,
        }
    }

    #[verifier::when_used_as_spec(spec_spray)]
    pub fn spray(pos: Vec3, color: Paint, count: i32, speed: i64, size: i64) -> (b: Burst)
        requires
            0 <= speed <= SPRAY_LIMIT,
            0 <= size <= SPRAY_LIMIT,
        ensures
            b == Self::spec_spray(pos, color, count, speed, size),
            pos.wf() ==> b.wf(),
    {
        Burst {
            pos,
            tint: Tint::Plain(color),
            count,
            spread: speed as i32,
            rise_min: 0,
            rise_max: (speed * 3 / 2) as i32,
            life_min: 200_000,
            life_max: 500_000,
            max_life: 500_000,
            size_min: size as i32,
            size_max: size as i32,
        }
    }

    #[verifier::when_used_as_spec(spec_fireballs)]
    pub fn fireballs(pos: Vec3) -> (b: Burst)
        ensures
            b == Self::spec_fireballs(pos),
    {
        Burst {
            pos,
            tint: Tint::Fireball,
            count: 120,
            spread: 15_000_000,
            rise_min: 3_000_000,
            rise_max: 20_000_000,
            life_min: 500_000,
            life_max: 1_800_000,
            max_life: 1_800_000,
            size_min: 300_000,
            size_max: 800_000,
        }
    }

    #[verifier::when_used_as_spec(spec_smoke)]
    pub fn smoke(pos: Vec3) -> (b: Burst)
        ensures
            b == Self::spec_smoke(pos),
    {
        Burst {
            pos,
            tint: Tint::Plain(Paint::Smoke),
            count: 40,
            spread: 5_000_000,
            rise_min: 1_000_000,
            rise_max: 8_000_000,
            life_min: 1_000_000,
            life_max: 2_500_000,
            max_life: 2_500_000,
            size_min: 400_000,
            size_max: 1_000_000,
        }
    }

    #[verifier::when_used_as_spec(spec_flash)]
    pub fn flash(pos: Vec3) -> (b: Burst)
        ensures
            b == Self::spec_flash(pos),
    {
        Burst {
            pos,
            tint: Tint::Plain(Paint::Flash),
            count: 20,
            spread: 20_000_000,
            rise_min: 5_000_000,
            rise_max: 25_000_000,
            life_min: 100_000,
            life_max: 400_000,
            max_life: 400_000,
            size_min: 500_000,
            size_max: 1_200_000,
        }
    }
}

/// The tone of fire with the given number, counting from 0; the last tone
/// for any number past it.
pub open spec fn spec_fire_tone(n: i32) -> FireTone {
    if n <= 0 {
        FireTone::Orange
    } else if n == 1 {
        FireTone::Yellow
    } else if n == 2 {
        FireTone::Red
    } else {
        FireTone::Amber
    }
}

#[verifier::when_used_as_spec(spec_fire_tone)]
pub fn fire_tone(n: i32) -> (tone: FireTone)
    ensures
        tone == spec_fire_tone(n),
{
    if n <= 0 {
        FireTone::Orange
    } else if n == 1 {
        FireTone::Yellow
    } else if n == 2 {
        FireTone::Red
    } else {
        FireTone::Amber
    }
}

/// `fresh` is one burst after another, each of its own number of particles
/// and each particle admitted by its burst.
pub open spec fn are_bursts(fresh: Seq<Particle>, bursts: Seq<Burst>) -> bool
    decreases bursts.len(),
{
    if bursts.len() == 0 {
        fresh.len() == 0
    } else {
        let last = bursts.last();
        let rest = fresh.len() - last.amount();
        &&& rest >= 0
        &&& forall|k: int| rest <= k < fresh.len() ==> last.admits(#[trigger] fresh[k])
        &&& are_bursts(fresh.subrange(0, rest), bursts.drop_last())
    }
}

/// `post` is `pre` with the particles of the given bursts added, and nothing
/// else changed.
pub open spec fn particles_added(pre: WorldView, post: WorldView, bursts: Seq<Burst>) -> bool {
    &&& post == (WorldView { particles: post.particles, ..pre })
    &&& post.particles.len() >= pre.particles.len()
    &&& post.particles.subrange(0, pre.particles.len() as int) == pre.particles
    &&& are_bursts(
        post.particles.subrange(pre.particles.len() as int, post.particles.len() as int),
        bursts,
    )
}

/// The particle after `dt` microseconds of flight: moved by its velocity,
/// then pulled down, and that much older.
pub open spec fn aged(p: Particle, dt: u32) -> Particle {
    Particle {
        pos: Vec3 {
            x: saturated(p.pos.x + spec_travel(p.vel.x as int, dt as int)) as i64,
            y: saturated(p.pos.y + spec_travel(p.vel.y as int, dt as int)) as i64,
            z: saturated(p.pos.z + spec_travel(p.vel.z as int, dt as int)) as i64,
        },
        vel: Vec3 { y: saturated(p.vel.y - GRAVITY * dt) as i64, ..p.vel },
        life: (p.life - dt) as i64,
        ..p
    }
}

/// Of the first `n` particles, those that are still alive after `dt`
/// microseconds, aged and in their old order.
pub open spec fn survivors(particles: Seq<Particle>, dt: u32, n: nat) -> Seq<Particle>
    decreases n,
{
    if n == 0 {
        Seq::empty()
    } else {
        let before = survivors(particles, dt, (n - 1) as nat);
        let p = aged(particles[n - 1], dt);
        if p.life > 0 {
            before.push(p)
        } else {
            before
        }
    }
}

/// Adding one more burst to a run of bursts.
pub proof fn lemma_bursts_extend(fresh: Seq<Particle>, bursts: Seq<Burst>, more: Seq<Particle>, b: Burst)
    requires
        are_bursts(fresh, bursts),
        more.len() == b.amount(),
        forall|k: int| 0 <= k < more.len() ==> b.admits(#[trigger] more[k]),
    ensures
        are_bursts(fresh + more, bursts.push(b)),
{
    let all = fresh + more;
    let grown = bursts.push(b);
    assert(grown.last() == b);
    assert(grown.drop_last() =~= bursts);
    assert(all.subrange(0, all.len() - b.amount()) =~= fresh);
    assert forall|k: int| all.len() - b.amount() <= k < all.len() implies b.admits(#[trigger] all[k]) by {
        assert(all[k] == more[k - fresh.len()]);
    }
}

/// A run of one burst is as many particles as the burst has, each admitted
/// by it.
pub proof fn lemma_single_burst(fresh: Seq<Particle>, b: Burst)
    ensures
        are_bursts(fresh, seq![b]) <==> (fresh.len() == b.amount() && forall|k: int|
            0 <= k < fresh.len() ==> b.admits(#[trigger] fresh[k])),
{
    reveal_with_fuel(are_bursts, 2);
    let bursts = seq![b];
    assert(bursts.last() == b);
    assert(bursts.drop_last() =~= Seq::<Burst>::empty());
    let rest = fresh.len() - b.amount();
    if rest >= 0 {
        assert(fresh.subrange(0, rest).len() == rest);
    }
}

/// Adding one more burst to what has been added makes a longer run of
/// bursts.
pub proof fn lemma_added_again(pre: WorldView, mid: WorldView, post: WorldView, bursts: Seq<Burst>, b: Burst)
    requires
        particles_added(pre, mid, bursts),
        particles_added(mid, post, seq![b]),
    ensures
        particles_added(pre, post, bursts.push(b)),
{
    let n0 = pre.particles.len() as int;
    let n1 = mid.particles.len() as int;
    let n2 = post.particles.len() as int;
    let fresh = mid.particles.subrange(n0, n1);
    let more = post.particles.subrange(n1, n2);
    lemma_single_burst(more, b);
    lemma_bursts_extend(fresh, bursts, more, b);
    assert forall|k: int| 0 <= k < n1 implies post.particles[k] == mid.particles[k] by {
        assert(post.particles.subrange(0, n1)[k] == mid.particles[k]);
    }
    assert forall|k: int| 0 <= k < n0 implies mid.particles[k] == pre.particles[k] by {
        assert(mid.particles.subrange(0, n0)[k] == pre.particles[k]);
    }
    assert(post.particles.subrange(n0, n2) =~= fresh + more);
    assert(post.particles.subrange(0, n0) =~= pre.particles);
}

/// Draws one particle of the burst.
fn draw(burst: &Burst) -> (p: Particle)
    requires
        burst.wf(),
    ensures
        burst.admits(p),
        p.wf(),
{
    let vx = random_between(-burst.spread, burst.spread);
    let vy = random_between(burst.rise_min, burst.rise_max);
    let vz = random_between(-burst.spread, burst.spread);
    let color = match burst.tint {
        Tint::Plain(paint) => paint,
        Tint::Fireball => Paint::Fire(fire_tone(random_between(0, 4))),
    };
    let life = random_between(burst.life_min, burst.life_max);
    let size = random_between(burst.size_min, burst.size_max);
    Particle {
        pos: burst.pos,
        vel: Vec3 { x: vx as i64, y: vy as i64, z: vz as i64 },
        color,
        life: life as i64,
        max_life: burst.max_life,
        size: size as i64,
    }
}

/// Adds the particles of one burst to the world.
pub fn emit(world: &mut World, burst: &Burst)
    requires
        old(world).wf(),
        burst.wf(),
    ensures
        particles_added(old(world)@, final(world)@, seq![*burst]),
        final(world).wf(),
{
    let ghost pre = world@;
    let mut i: i32 = 0;
    while i < burst.count
        invariant
            burst.wf(),
            world.wf(),
            0 <= i,
            i == 0 || i <= burst.count,
            world@ == (WorldView { particles: world@.particles, ..pre }),
            world@.particles.len() == pre.particles.len() + i,
            world@.particles.subrange(0, pre.particles.len() as int) == pre.particles,
            forall|k: int|
                pre.particles.len() <= k < world@.particles.len() ==> burst.admits(
                    #[trigger] world@.particles[k],
                ),
        decreases burst.count - i,
    {
        let p = draw(burst);
        let ghost head = world@;
        let ghost before = world@.particles;
        world.particles.push(p);
        assert(world@.particles.subrange(0, pre.particles.len() as int) =~= before.subrange(
            0,
            pre.particles.len() as int,
        ));
        assert forall|k: int| 0 <= k < world@.particles.len() implies (#[trigger] world@.particles[k]).wf() by {
            if k < before.len() {
                assert(before[k].wf());
            }
        }
        assert(world@.enemies == head.enemies);
        assert(world@.projectiles == head.projectiles);
        assert(world@.pickups == head.pickups);
        i += 1;
    }
    proof {
        let fresh = world@.particles.subrange(
            pre.particles.len() as int,
            world@.particles.len() as int,
        );
        assert forall|k: int| 0 <= k < fresh.len() implies burst.admits(#[trigger] fresh[k]) by {
            assert(fresh[k] == world@.particles[k + pre.particles.len()]);
        }
        lemma_single_burst(fresh, *burst);
    }
}

/// Adds the particles of each burst in turn.
pub fn emit_all(world: &mut World, bursts: &Vec<Burst>)
    requires
        old(world).wf(),
        forall|i: int| 0 <= i < bursts@.len() ==> (#[trigger] bursts@[i]).wf(),
    ensures
        particles_added(old(world)@, final(world)@, bursts@),
        final(world).wf(),
{
    let ghost pre = world@;
    let mut i: usize = 0;
    assert(bursts@.subrange(0, 0) =~= Seq::<Burst>::empty());
    assert(world@.particles.subrange(pre.particles.len() as int, pre.particles.len() as int)
        =~= Seq::<Particle>::empty());
    assert(world@.particles.subrange(0, pre.particles.len() as int) =~= pre.particles);
    while i < bursts.len()
        invariant
            i <= bursts@.len(),
            world.wf(),
            forall|k: int| 0 <= k < bursts@.len() ==> (#[trigger] bursts@[k]).wf(),
            particles_added(pre, world@, bursts@.subrange(0, i as int)),
        decreases bursts@.len() - i,
    {
        let ghost mid = world@;
        emit(world, &bursts[i]);
        proof {
            lemma_added_again(pre, mid, world@, bursts@.subrange(0, i as int), bursts@[i as int]);
            assert(bursts@.subrange(0, i as int).push(bursts@[i as int]) =~= bursts@.subrange(
                0,
                i + 1,
            ));
        }
        i += 1;
    }
    assert(bursts@.subrange(0, bursts@.len() as int) =~= bursts@);
}

/// Sprays `count` particles of one colour and size from `pos`.
pub fn spawn_particles(world: &mut World, pos: Vec3, color: Paint, count: i32, speed: i64, size: i64)
    requires
        old(world).wf(),
        pos.wf(),
        0 <= speed <= SPRAY_LIMIT,
        0 <= size <= SPRAY_LIMIT,
    ensures
        particles_added(
            old(world)@,
            final(world)@,
            seq![Burst::spray(pos, color, count, speed, size)],
        ),
        final(world).wf(),
{
    let burst = Burst::spray(pos, color, count, speed, size);
    emit(world, &burst);
}

/// Moves every particle along, pulls it down, ages it, and drops those whose
/// time is up.
pub fn update_particles(world: &mut World, dt: u32)
    requires
        old(world).wf(),
    ensures
        final(world)@ == (WorldView {
            particles: survivors(old(world)@.particles, dt, old(world)@.particles.len()),
            ..old(world)@
        }),
        final(world).wf(),
{
    let mut kept: Vec<Particle> = Vec::new();
    let mut i: usize = 0;
    while i < world.particles.len()
        invariant
            i <= world.particles@.len(),
            world.wf(),
            world@ == old(world)@,
            kept@ == survivors(world@.particles, dt, i as nat),
            forall|k: int| 0 <= k < kept@.len() ==> (#[trigger] kept@[k]).wf(),
        decreases world.particles@.len() - i,
    {
        let p = world.particles[i];
        assert(world@.particles[i as int].wf());
        let moved = Particle {
            pos: Vec3 {
                x: saturate(p.pos.x as i128 + travel(p.vel.x, dt) as i128),
                y: saturate(p.pos.y as i128 + travel(p.vel.y, dt) as i128),
                z: saturate(p.pos.z as i128 + travel(p.vel.z, dt) as i128),
            },
            vel: Vec3 { y: saturate(p.vel.y as i128 - (GRAVITY as i128) * (dt as i128)), ..p.vel },
            life: p.life - dt as i64,
            ..p
        };
        if moved.life > 0 {
            kept.push(moved);
        }
        i += 1;
    }
    world.particles = kept;
}

} // verus!
