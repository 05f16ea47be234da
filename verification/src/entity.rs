//! Enemies, projectiles, particles and pickups.
use crate::fixed::Vec3;
use crate::random::random_between;
use crate::weapon::STAT_LIMIT;
use vstd::prelude::*;

verus! {

/// A full turn, in millionths of a radian.
pub const TWO_PI: i64 = 6_283_185;

/// Height at which a pickup hovers.
pub const PICKUP_HEIGHT: i64 = 500_000;

#[derive(Clone, Copy, Debug, PartialEq, Eq, Structural)]
pub enum EnemyType {
    Grunt,
    Heavy,
    Demon,
}

#[derive(Clone, Copy, Debug, PartialEq, Eq, Structural)]
pub enum PickupType {
    Health,
    Ammo,
    SpeedBoost,
    DamageBoost,
    Armor,
}

/// The four tones of a fireball.
#[derive(Clone, Copy, Debug, PartialEq, Eq, Structural)]
pub enum FireTone {
    Orange,
    Yellow,
    Red,
    Amber,
}

/// What a particle is painted with. The renderer owns the actual colours.
#[derive(Clone, Copy, Debug, PartialEq, Eq, Structural)]
pub enum Paint {
    /// The colour of an enemy of the given kind.
    Enemy(EnemyType),
    /// The colour of a pickup of the given kind.
    Pickup(PickupType),
    /// Grey dust off a wall.
    Debris,
    Fire(FireTone),
    Smoke,
    /// The white-hot core of an explosion.
    Flash,
}

#[derive(Clone, Copy, Debug, PartialEq, Eq, Structural)]
pub struct Enemy {
    pub pos: Vec3,
    pub health: i64,
    pub max_health: i64,
    pub etype: EnemyType,
    /// Speed of approach, per second.
    pub speed: i64,
    /// Damage of one attack.
    pub damage: i64,
    /// Least time between two attacks, in microseconds.
    pub attack_cd: u64,
    pub last_attack: u64,
    pub dead: bool,
    pub death_time: u64,
}

#[derive(Clone, Copy, Debug, PartialEq, Eq, Structural)]
pub struct Projectile {
    pub pos: Vec3,
    /// Velocity, per second.
    pub vel: Vec3,
    pub damage: i64,
    pub explosive: bool,
}

#[derive(Clone, Copy, Debug, PartialEq, Eq, Structural)]
pub struct Particle {
    pub pos: Vec3,
    pub vel: Vec3,
    pub color: Paint,
    /// Time left to live, in microseconds.
    pub life: i64,
    pub max_life: i64,
    pub size: i64,
}

#[derive(Clone, Copy, Debug, PartialEq, Eq, Structural)]
pub struct Pickup {
    pub pos: Vec3,
    pub pickup_type: PickupType,
    /// Phase of the hovering motion, in radians.
    pub bob_offset: i64,
    pub collected: bool,
}

impl EnemyType {
    /// The radius of the enemy's body.
    pub open spec fn spec_size(self) -> i64 {
        match self {
            EnemyType::Grunt => 800_000,
            EnemyType::Heavy => 1_200_000,
            EnemyType::Demon => 900_000,
        }
    }

    /// The score for killing such an enemy.
    pub open spec fn spec_points(self) -> i32 {
        match self {
            EnemyType::Grunt => 100,
            EnemyType::Heavy => 300,
            EnemyType::Demon => 200,
        }
    }
}

impl PickupType {
    /// The name of the kind, as the player reads it.
    pub open spec fn label(self) -> Seq<char> {
        match self {
            PickupType::Health => "HEALTH"@,
            PickupType::Ammo => "AMMO"@,
            PickupType::SpeedBoost => "SPEED BOOST"@,
            PickupType::DamageBoost => "DAMAGE BOOST"@,
            PickupType::Armor => "ARMOR"@,
        }
    }
}

impl Enemy {
    pub open spec fn wf(self) -> bool {
        &&& self.pos.wf()
        &&& -STAT_LIMIT <= self.health <= STAT_LIMIT
        &&& 0 <= self.speed <= STAT_LIMIT
        &&& 0 <= self.damage <= STAT_LIMIT
    }

    pub fn is_valid(&self) -> (b: bool)
        ensures
            b == self.wf(),
    {
        self.pos.is_valid() && -STAT_LIMIT <= self.health && self.health <= STAT_LIMIT && 0
            <= self.speed && self.speed <= STAT_LIMIT && 0 <= self.damage && self.damage
            <= STAT_LIMIT
    }

    /// A grunt at (x, z): weak, of middling speed.
    pub open spec fn spec_grunt(x: i64, z: i64) -> Enemy {
        Enemy {
            pos: Vec3 { x, y: 1_000_000, z },
            health: 50_000_000,
            max_health: 50_000_000,
            etype: EnemyType::Grunt,
            speed: 3_500_000,
            damage: 10_000_000,
            attack_cd: 1_000_000,
            last_attack: 0,
            dead: false,
            death_time: 0,
        }
    }

    /// A heavy at (x, z): slow and tough, and it hits hard.
    pub open spec fn spec_heavy(x: i64, z: i64) -> Enemy {
        Enemy {
            pos: Vec3 { x, y: 1_500_000, z },
            health: 150_000_000,
            max_health: 150_000_000,
            etype: EnemyType::Heavy,
            speed: 1_800_000,
            damage: 25_000_000,
            attack_cd: 1_500_000,
            last_attack: 0,
            dead: false,
            death_time: 0,
        }
    }

    /// A demon at (x, z): fast, and quick to strike again.
    pub open spec fn spec_demon(x: i64, z: i64) -> Enemy {
        Enemy {
            pos: Vec3 { x, y: 1_200_000, z },
            health: 70_000_000,
            max_health: 70_000_000,
            etype: EnemyType::Demon,
            speed: 6_000_000,
            damage: 15_000_000,
            attack_cd: 600_000,
            last_attack: 0,
            dead: false,
            death_time: 0,
        }
    }

    #[verifier::when_used_as_spec(spec_grunt)]
    pub fn grunt(x: i64, z: i64) -> (e: Enemy)
        ensures
            e == Self::spec_grunt(x, z),
    {
        Enemy {
            pos: Vec3 { x, y: 1_000_000, z },
            health: 50_000_000,
            max_health: 50_000_000,
            etype: EnemyType::Grunt,
            speed: 3_500_000,
            damage: 10_000_000,
            attack_cd: 1_000_000,
            last_attack: 0,
            dead: false,
            death_time: 0,
        }
    }

    #[verifier::when_used_as_spec(spec_heavy)]
    pub fn heavy(x: i64, z: i64) -> (e: Enemy)
        ensures
            e == Self::spec_heavy(x, z),
    {
        Enemy {
            pos: Vec3 { x, y: 1_500_000, z },
            health: 150_000_000,
            max_health: 150_000_000,
            etype: EnemyType::Heavy,
            speed: 1_800_000,
            damage: 25_000_000,
            attack_cd: 1_500_000,
            last_attack: 0,
            dead: false,
            death_time: 0,
        }
    }

    #[verifier::when_used_as_spec(spec_demon)]
    pub fn demon(x: i64, z: i64) -> (e: Enemy)
        ensures
            e == Self::spec_demon(x, z),
    {
        Enemy {
            pos: Vec3 { x, y: 1_200_000, z },
            health: 70_000_000,
            max_health: 70_000_000,
            etype: EnemyType::Demon,
            speed: 6_000_000,
            damage: 15_000_000,
            attack_cd: 600_000,
            last_attack: 0,
            dead: false,
            death_time: 0,
        }
    }

    /// What the enemy and the particles off it are painted with.
    pub fn color(&self) -> (c: Paint)
        ensures
            c == Paint::Enemy(self.etype),
    {
        Paint::Enemy(self.etype)
    }

    /// The radius of the enemy's body.
    pub fn size(&self) -> (s: i64)
        ensures
            s == self.etype.spec_size(),
    {
        match self.etype {
            EnemyType::Grunt => 800_000,
            EnemyType::Heavy => 1_200_000,
            EnemyType::Demon => 900_000,
        }
    }

    /// The score for killing the enemy.
    pub fn points(&self) -> (p: i32)
        ensures
            p == self.etype.spec_points(),
    {
        match self.etype {
            EnemyType::Grunt => 100,
            EnemyType::Heavy => 300,
            EnemyType::Demon => 200,
        }
    }
}

impl Projectile {
    pub open spec fn wf(self) -> bool {
        &&& self.pos.wf()
        &&& self.vel.wf()
        &&& 0 <= self.damage <= 2 * STAT_LIMIT
    }

    pub fn is_valid(&self) -> (b: bool)
        ensures
            b == self.wf(),
    {
        self.pos.is_valid() && self.vel.is_valid() && 0 <= self.damage && self.damage <= 2
            * STAT_LIMIT
    }
}

impl Particle {
    pub open spec fn wf(self) -> bool {
        &&& self.pos.wf()
        &&& self.vel.wf()
        &&& -STAT_LIMIT <= self.life <= STAT_LIMIT
    }

    pub fn is_valid(&self) -> (b: bool)
        ensures
            b == self.wf(),
    {
        self.pos.is_valid() && self.vel.is_valid() && -STAT_LIMIT <= self.life && self.life
            <= STAT_LIMIT
    }
}

impl Pickup {
    pub open spec fn wf(self) -> bool {
        self.pos.wf()
    }

    pub fn is_valid(&self) -> (b: bool)
        ensures
            b == self.wf(),
    {
        self.pos.is_valid()
    }

    /// An uncollected pickup of the given kind above the point (x, z), at
    /// the given phase of its hovering.
    pub open spec fn spec_with_phase(x: i64, z: i64, pickup_type: PickupType, bob_offset: i64) -> Pickup {
        Pickup { pos: Vec3 { x, y: PICKUP_HEIGHT, z }, pickup_type, bob_offset, collected: false }
    }

    #[verifier::when_used_as_spec(spec_with_phase)]
    pub fn with_phase(x: i64, z: i64, pickup_type: PickupType, bob_offset: i64) -> (p: Pickup)
        ensures
            p == Self::spec_with_phase(x, z, pickup_type, bob_offset),
    {
        Pickup { pos: Vec3 { x, y: PICKUP_HEIGHT, z }, pickup_type, bob_offset, collected: false }
    }

    /// An uncollected pickup of the given kind above the point (x, z). The
    /// phase of its hovering is drawn at random from a full turn.
    pub fn new(x: i64, z: i64, pickup_type: PickupType) -> (p: Pickup)
        ensures
            p == Self::spec_with_phase(x, z, pickup_type, p.bob_offset),
            0 <= p.bob_offset <= TWO_PI,
    {
        let phase = random_between(0, 6_283_185);
        Self::with_phase(x, z, pickup_type, phase as i64)
    }

    /// What the pickup and the particles off it are painted with.
    pub fn color(&self) -> (c: Paint)
        ensures
            c == Paint::Pickup(self.pickup_type),
    {
        Paint::Pickup(self.pickup_type)
    }

    /// The name of the pickup's kind.
    pub fn name(&self) -> (s: &'static str)
        ensures
            s@ == self.pickup_type.label(),
    {
        match self.pickup_type {
            PickupType::Health => "HEALTH",
            PickupType::Ammo => "AMMO",
            PickupType::SpeedBoost => "SPEED BOOST",
            PickupType::DamageBoost => "DAMAGE BOOST",
            PickupType::Armor => "ARMOR",
        }
    }
}

} // verus!
