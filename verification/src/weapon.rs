//! The four weapons and their fire-rate and ammunition rules.
use crate::fixed::{lemma_mul_bound, ONE, SECOND};
use vstd::prelude::*;

verus! {

/// Largest damage, health, speed or timer value: 2^40 millionths.
pub const STAT_LIMIT: i64 = 0x100_0000_0000;

/// Largest spread of a weapon: one radian.
pub const SPREAD_LIMIT: i64 = 1_000_000;

#[derive(Clone, Copy, Debug, PartialEq, Eq, Structural)]
pub enum WeaponType {
    Pistol,
    Shotgun,
    MachineGun,
    Rocket,
}

#[derive(Clone, Copy, Debug, PartialEq, Eq, Structural)]
pub struct Weapon {
    pub wtype: WeaponType,
    /// Damage of one pellet.
    pub damage: i64,
    /// Shots per second.
    pub fire_rate: i64,
    /// Half-width of the cone of fire, in radians.
    pub spread: i64,
    /// Rounds left; negative for an unlimited supply.
    pub ammo: i32,
    pub max_ammo: i32,
    /// Pellets per shot.
    pub pellets: i32,
    pub explosive: bool,
    /// Time of the last shot, in microseconds.
    pub last_shot: u64,
}

impl WeaponType {
    /// The name of the kind, as the player reads it.
    pub open spec fn label(self) -> Seq<char> {
        match self {
            WeaponType::Pistol => "PISTOL"@,
            WeaponType::Shotgun => "SHOTGUN"@,
            WeaponType::MachineGun => "MACHINE GUN"@,
            WeaponType::Rocket => "ROCKET"@,
        }
    }
}

impl Weapon {
    pub open spec fn wf(self) -> bool {
        &&& 0 <= self.damage <= STAT_LIMIT
        &&& 0 < self.fire_rate <= STAT_LIMIT
        &&& 0 <= self.spread <= SPREAD_LIMIT
    }

    /// Whether damage, fire rate and spread are within their limits.
    pub fn is_valid(&self) -> (b: bool)
        ensures
            b == self.wf(),
    {
        0 <= self.damage && self.damage <= STAT_LIMIT && 0 < self.fire_rate && self.fire_rate
            <= STAT_LIMIT && 0 <= self.spread && self.spread <= SPREAD_LIMIT
    }

    /// The pistol: an unlimited supply, three shots a second.
    pub open spec fn spec_pistol() -> Weapon {
        Weapon {
            wtype: WeaponType::Pistol,
            damage: 25_000_000,
            fire_rate: 3_000_000,
            spread: 20_000,
            ammo: -1i32,
            max_ammo: -1i32,
            pellets: 1,
            explosive: false,
            last_shot: 0,
        }
    }

    /// The shotgun: eight pellets in a wide cone.
    pub open spec fn spec_shotgun() -> Weapon {
        Weapon {
            wtype: WeaponType::Shotgun,
            damage: 12_000_000,
            fire_rate: 1_200_000,
            spread: 120_000,
            ammo: 24,
            max_ammo: 24,
            pellets: 8,
            explosive: false,
            last_shot: 0,
        }
    }

    /// The machine gun: twelve shots a second.
    pub open spec fn spec_machinegun() -> Weapon {
        Weapon {
            wtype: WeaponType::MachineGun,
            damage: 10_000_000,
            fire_rate: 12_000_000,
            spread: 60_000,
            ammo: 200,
            max_ammo: 200,
            pellets: 1,
            explosive: false,
            last_shot: 0,
        }
    }

    /// The rocket launcher: one explosive rocket every two seconds.
    pub open spec fn spec_rocket() -> Weapon {
        Weapon {
            wtype: WeaponType::Rocket,
            damage: 250_000_000,
            fire_rate: 500_000,
            spread: 0,
            ammo: 20,
            max_ammo: 20,
            pellets: 1,
            explosive: true,
            last_shot: 0,
        }
    }

    #[verifier::when_used_as_spec(spec_pistol)]
    pub fn pistol() -> (w: Weapon)
        ensures
            w == Self::spec_pistol(),
    {
        Weapon {
            wtype: WeaponType::Pistol,
            damage: 25_000_000,
            fire_rate: 3_000_000,
            spread: 20_000,
            ammo: -1i32,
            max_ammo: -1i32,
            pellets: 1,
            explosive: false,
            last_shot: 0,
        }
    }

    #[verifier::when_used_as_spec(spec_shotgun)]
    pub fn shotgun() -> (w: Weapon)
        ensures
            w == Self::spec_shotgun(),
    {
        Weapon {
            wtype: WeaponType::Shotgun,
            damage: 12_000_000,
            fire_rate: 1_200_000,
            spread: 120_000,
            ammo: 24,
            max_ammo: 24,
            pellets: 8,
            explosive: false,
            last_shot: 0,
        }
    }

    #[verifier::when_used_as_spec(spec_machinegun)]
    pub fn machinegun() -> (w: Weapon)
        ensures
            w == Self::spec_machinegun(),
    {
        Weapon {
            wtype: WeaponType::MachineGun,
            damage: 10_000_000,
            fire_rate: 12_000_000,
            spread: 60_000,
            ammo: 200,
            max_ammo: 200,
            pellets: 1,
            explosive: false,
            last_shot: 0,
        }
    }

    #[verifier::when_used_as_spec(spec_rocket)]
    pub fn rocket() -> (w: Weapon)
        ensures
            w == Self::spec_rocket(),
    {
        Weapon {
            wtype: WeaponType::Rocket,
            damage: 250_000_000,
            fire_rate: 500_000,
            spread: 0,
            ammo: 20,
            max_ammo: 20,
            pellets: 1,
            explosive: true,
            last_shot: 0,
        }
    }

    /// The weapon may fire at `time` when the interval `1 / fire_rate` has
    /// passed since the last shot and a round is left. A negative count is an
    /// unlimited supply; a count of zero blocks.
    pub open spec fn spec_can_fire(&self, time: u64) -> bool {
        &&& time >= self.last_shot
        &&& (time - self.last_shot) * self.fire_rate >= SECOND * ONE
        &&& self.ammo != 0
    }

    /// The weapon after a shot at `time`: the time is recorded and a limited
    /// supply loses one round.
    pub open spec fn spec_fire(self, time: u64) -> Weapon {
        Weapon {
            last_shot: time,
            ammo: if self.ammo > 0 {
                (self.ammo - 1) as i32
            } else {
                self.ammo
            },
            ..self
        }
    }

    /// The weapon after an ammunition pickup: a limited supply gains half
    /// its capacity, up to the capacity.
    pub open spec fn spec_refill(self) -> Weapon {
        if self.max_ammo > 0 {
            Weapon {
                ammo: if self.ammo + self.max_ammo / 2 < self.max_ammo {
                    (self.ammo + self.max_ammo / 2) as i32
                } else {
                    self.max_ammo
                },
                ..self
            }
        } else {
            self
        }
    }

    #[verifier::when_used_as_spec(spec_can_fire)]
    pub fn can_fire(&self, time: u64) -> (b: bool)
        ensures
            b == self.spec_can_fire(time),
    {
        if time < self.last_shot || self.ammo == 0 {
            return false;
        }
        let elapsed: u64 = time - self.last_shot;
        proof {
            lemma_mul_bound(
                elapsed as int,
                self.fire_rate as int,
                0xffff_ffff_ffff_ffff,
                0x8000_0000_0000_0000,
            );
            assert(0xffff_ffff_ffff_ffffint * 0x8000_0000_0000_0000int < i128::MAX);
            assert(SECOND * ONE == 1_000_000_000_000int);
        }
        (elapsed as i128) * (self.fire_rate as i128) >= 1_000_000_000_000
    }

    /// Fires at `time`, whether or not the weapon may: the caller asks
    /// `can_fire` first.
    pub fn fire(&mut self, time: u64)
        ensures
            *final(self) == old(self).spec_fire(time),
    {
        self.last_shot = time;
        if self.ammo > 0 {
            self.ammo -= 1;
        }
    }

    /// Takes in an ammunition pickup.
    pub fn refill(&mut self)
        ensures
            *final(self) == old(self).spec_refill(),
    {
        if self.max_ammo > 0 {
            let gain: i32 = self.max_ammo / 2;
            if self.ammo < self.max_ammo - gain {
                self.ammo = self.ammo + gain;
            } else {
                self.ammo = self.max_ammo;
            }
        }
    }

    /// The name of the weapon.
    pub fn name(&self) -> (s: &'static str)
        ensures
            s@ == self.wtype.label(),
    {
        match self.wtype {
            WeaponType::Pistol => "PISTOL",
            WeaponType::Shotgun => "SHOTGUN",
            WeaponType::MachineGun => "MACHINE GUN",
            WeaponType::Rocket => "ROCKET",
        }
    }
}

/// After a shot at `t1`, the weapon fires again at `t2` only if at least
/// `1 / fire_rate` seconds lie between the two; any earlier call is refused.
pub proof fn lemma_fire_rate_spacing(w: Weapon, t1: u64, t2: u64)
    requires
        w.wf(),
    ensures
        w.spec_fire(t1).spec_can_fire(t2) ==> t2 >= t1 && (t2 - t1) * w.fire_rate >= SECOND * ONE,
        t2 >= t1 && (t2 - t1) * w.fire_rate < SECOND * ONE ==> !w.spec_fire(t1).spec_can_fire(t2),
        t2 < t1 ==> !w.spec_fire(t1).spec_can_fire(t2),
{
}

} // verus!
