//! The player and the rules that touch the player alone: damage and armor,
//! pickups, turning the head, choosing a weapon.
use crate::entity::PickupType;
use crate::fixed::{
    add_capped, clamp, clamp_int, lemma_mul_bound, lemma_trunc_div_bound, spec_add_capped,
    trunc_div, Vec3, ONE, SECOND,
};
use crate::input::{apply_deadzone, spec_apply_deadzone, GamepadState, Input, TRIGGER_THRESHOLD};
use crate::weapon::{Weapon, STAT_LIMIT};
use vstd::prelude::*;

verus! {

/// Walking speed, per second.
pub const PLAYER_SPEED: i64 = 8_000_000;

/// Height of the player's eyes above the floor.
pub const PLAYER_HEIGHT: i64 = 1_700_000;

pub const PLAYER_RADIUS: i64 = 300_000;

pub const MAX_HEALTH: i64 = 100_000_000;

pub const MAX_ARMOR: i64 = 100_000_000;

/// How far the player can look up or down: a tenth of a radian short of
/// straight up.
pub const PITCH_LIMIT: i64 = 1_470_796;

/// Largest magnitude of the yaw: 2^40 millionths of a radian.
pub const YAW_LIMIT: i64 = 0x100_0000_0000;

/// How long a speed or damage boost lasts, in microseconds.
pub const BOOST_TIME: i64 = 10_000_000;

/// How long the message of a pickup is shown, in microseconds.
pub const MESSAGE_TIME: i64 = 2_000_000;

/// What a health pickup restores.
pub const HEALTH_GAIN: i64 = 25_000_000;

/// What an armor pickup adds.
pub const ARMOR_GAIN: i64 = 50_000_000;

/// The score for collecting a pickup.
pub const PICKUP_SCORE: i32 = 50;

/// How fast the weapon is raised to the eye or lowered: the whole way in a
/// sixth of a second.
pub const AIM_RATE: i64 = 6;

#[derive(Clone, Copy, Debug)]
pub struct Player {
    pub pos: Vec3,
    pub yaw: i64,
    pub pitch: i64,
    pub health: i64,
    pub armor: i64,
    pub weapons: [Weapon; 4],
    pub current_weapon: usize,
    pub score: i32,
    pub damage_flash: i64,
    /// Time left of the speed boost, in microseconds.
    pub speed_boost: i64,
    /// Time left of the damage boost, in microseconds.
    pub damage_boost: i64,
    /// Kills in the current level.
    pub kills: i32,
    pub pickup_msg: &'static str,
    pub pickup_msg_time: i64,
    /// Aiming down the sights.
    pub is_aiming: bool,
    /// 0.0 at the hip, 1.0 at the eye.
    pub aim_transition: i64,
}

impl PickupType {
    /// The message shown when such a pickup is collected.
    pub open spec fn spec_message(self) -> &'static str {
        match self {
            PickupType::Health => "+HEALTH",
            PickupType::Ammo => "+AMMO",
            PickupType::SpeedBoost => "+SPEED BOOST",
            PickupType::DamageBoost => "+DAMAGE BOOST",
            PickupType::Armor => "+ARMOR",
        }
    }

    #[verifier::when_used_as_spec(spec_message)]
    pub fn message(self) -> (s: &'static str)
        ensures
            s == self.spec_message(),
            s@ == seq!['+'] + self.label(),
    {
        proof {
            reveal_strlit("+HEALTH");
            reveal_strlit("+AMMO");
            reveal_strlit("+SPEED BOOST");
            reveal_strlit("+DAMAGE BOOST");
            reveal_strlit("+ARMOR");
            reveal_strlit("HEALTH");
            reveal_strlit("AMMO");
            reveal_strlit("SPEED BOOST");
            reveal_strlit("DAMAGE BOOST");
            reveal_strlit("ARMOR");
            assert(self.spec_message()@ =~= seq!['+'] + self.label());
        }
        match self {
            PickupType::Health => "+HEALTH",
            PickupType::Ammo => "+AMMO",
            PickupType::SpeedBoost => "+SPEED BOOST",
            PickupType::DamageBoost => "+DAMAGE BOOST",
            PickupType::Armor => "+ARMOR",
        }
    }
}

/// The part of a hit that reaches the health of a player with the given
/// armor: the armor takes up as much of the damage as it has left, and 70
/// percent of what it takes up is kept from the health.
pub open spec fn spec_damage_through(damage: int, armor: int) -> int {
    damage - trunc_div(spec_absorbed(damage, armor) * 7, 10)
}

/// What the armor takes up of a hit.
pub open spec fn spec_absorbed(damage: int, armor: int) -> int {
    if damage < armor {
        damage
    } else {
        armor
    }
}

/// How much a stick held at `stick` turns the view in `dt` microseconds:
/// 1.8 radians per second at full deflection, scaled by `sens`.
pub open spec fn spec_stick_turn(stick: int, sens: int, dt: int) -> int {
    trunc_div(stick * sens * dt * 18, 10 * ONE * SECOND)
}

/// How much a pointer movement of `delta` turns the view.
pub open spec fn spec_pointer_turn(delta: int, sens: int) -> int {
    trunc_div(delta * sens, ONE as int)
}

/// The weapon slot after one frame's selection input. Later sources win:
/// number keys, then the wheel, then the bumpers, then the directional pad.
pub open spec fn spec_select_weapon(current: int, input: Input, pad: GamepadState) -> int {
    let by_key = if input.keys.key4_pressed {
        3
    } else if input.keys.key3_pressed {
        2
    } else if input.keys.key2_pressed {
        1
    } else if input.keys.key1_pressed {
        0
    } else {
        current
    };
    let wheel_up = if input.mouse.wheel > 0 {
        (by_key + 1) % 4
    } else {
        by_key
    };
    let wheel_down = if input.mouse.wheel < 0 {
        (wheel_up + 3) % 4
    } else {
        wheel_up
    };
    let next = if pad.rb_just_pressed {
        (wheel_down + 1) % 4
    } else {
        wheel_down
    };
    let prev = if pad.lb_just_pressed {
        (next + 3) % 4
    } else {
        next
    };
    if pad.dpad_left_just {
        3
    } else if pad.dpad_down_just {
        2
    } else if pad.dpad_right_just {
        1
    } else if pad.dpad_up_just {
        0
    } else {
        prev
    }
}

impl Player {
    pub open spec fn wf(self) -> bool {
        &&& self.pos.wf()
        &&& -YAW_LIMIT <= self.yaw <= YAW_LIMIT
        &&& -PITCH_LIMIT <= self.pitch <= PITCH_LIMIT
        &&& 0 <= self.health <= MAX_HEALTH
        &&& 0 <= self.armor <= MAX_ARMOR
        &&& forall|i: int| 0 <= i < 4 ==> (#[trigger] self.weapons[i]).wf()
        &&& self.current_weapon < 4
        &&& 0 <= self.damage_flash <= ONE
        &&& 0 <= self.speed_boost <= BOOST_TIME
        &&& 0 <= self.damage_boost <= BOOST_TIME
        &&& -STAT_LIMIT <= self.pickup_msg_time <= STAT_LIMIT
        &&& 0 <= self.aim_transition <= ONE
    }

    /// Whether position, view, health, armor, weapons and timers are
    /// within their limits.
    pub fn is_valid(&self) -> (b: bool)
        ensures
            b == self.wf(),
    {
        let mut weapons_valid = true;
        let mut i: usize = 0;
        while i < 4
            invariant
                i <= 4,
                weapons_valid == (forall|k: int| 0 <= k < i ==> (#[trigger] self.weapons[k]).wf()),
            decreases 4 - i,
        {
            if !self.weapons[i].is_valid() {
                weapons_valid = false;
            }
            i += 1;
        }
        weapons_valid && self.pos.is_valid() && -YAW_LIMIT <= self.yaw && self.yaw <= YAW_LIMIT
            && -PITCH_LIMIT <= self.pitch && self.pitch <= PITCH_LIMIT && 0 <= self.health
            && self.health <= MAX_HEALTH && 0 <= self.armor && self.armor <= MAX_ARMOR
            && self.current_weapon < 4 && 0 <= self.damage_flash && self.damage_flash <= ONE && 0
            <= self.speed_boost && self.speed_boost <= BOOST_TIME && 0 <= self.damage_boost
            && self.damage_boost <= BOOST_TIME && -STAT_LIMIT <= self.pickup_msg_time
            && self.pickup_msg_time <= STAT_LIMIT && 0 <= self.aim_transition
            && self.aim_transition <= ONE
    }

    /// The four weapons as a run starts with them.
    pub open spec fn arsenal() -> [Weapon; 4] {
        [Weapon::pistol(), Weapon::shotgun(), Weapon::machinegun(), Weapon::rocket()]
    }

    /// A fresh player standing at (x, z).
    pub open spec fn spec_new(x: i64, z: i64) -> Player {
        Player {
            pos: Vec3 { x, y: PLAYER_HEIGHT, z },
            yaw: 0,
            pitch: 0,
            health: MAX_HEALTH,
            armor: 0,
            weapons: Self::arsenal(),
            current_weapon: 0,
            score: 0,
            damage_flash: 0,
            speed_boost: 0,
            damage_boost: 0,
            kills: 0,
            pickup_msg: "",
            pickup_msg_time: 0,
            is_aiming: false,
            aim_transition: 0,
        }
    }

    /// The player after an enemy's attack of the given damage.
    pub open spec fn spec_take_hit(self, damage: i64) -> Player {
        Player {
            armor: (self.armor - spec_absorbed(damage as int, self.armor as int)) as i64,
            health: clamp_int(
                self.health - spec_damage_through(damage as int, self.armor as int),
                0,
                MAX_HEALTH as int,
            ) as i64,
            damage_flash: 500_000,
            ..self
        }
    }

    /// The player after collecting a pickup of the given kind.
    pub open spec fn spec_collect(self, kind: PickupType) -> Player {
        let gained = match kind {
            PickupType::Health => Player {
                health: clamp_int(self.health + HEALTH_GAIN, 0, MAX_HEALTH as int) as i64,
                ..self
            },
            PickupType::Ammo => Player {
                weapons: [
                    self.weapons[0].spec_refill(),
                    self.weapons[1].spec_refill(),
                    self.weapons[2].spec_refill(),
                    self.weapons[3].spec_refill(),
                ],
                ..self
            },
            PickupType::SpeedBoost => Player { speed_boost: BOOST_TIME, ..self },
            PickupType::DamageBoost => Player { damage_boost: BOOST_TIME, ..self },
            PickupType::Armor => Player {
                armor: clamp_int(self.armor + ARMOR_GAIN, 0, MAX_ARMOR as int) as i64,
                ..self
            },
        };
        Player {
            pickup_msg: kind.spec_message(),
            pickup_msg_time: MESSAGE_TIME,
            score: spec_add_capped(self.score, PICKUP_SCORE),
            ..gained
        }
    }

    /// Whether the player aims down the sights in this frame.
    pub open spec fn aims(input: Input, pad: GamepadState) -> bool {
        input.mouse.right_down || pad.left_trigger > TRIGGER_THRESHOLD || pad.lt_button
    }

    /// The aim transition after this frame.
    pub open spec fn spec_aim_transition(self, input: Input, pad: GamepadState) -> int {
        if Self::aims(input, pad) {
            clamp_int(self.aim_transition + AIM_RATE * input.dt, 0, ONE as int)
        } else {
            clamp_int(self.aim_transition - AIM_RATE * input.dt, 0, ONE as int)
        }
    }

    /// The player after this frame's aiming and looking. Aiming comes first:
    /// the further the weapon is raised, the slower the view turns, down to
    /// four fifths of the full rate. The yaw stops at `YAW_LIMIT`, the pitch
    /// at `PITCH_LIMIT`.
    pub open spec fn spec_turn(self, input: Input, pad: GamepadState) -> Player {
        let aim = self.spec_aim_transition(input, pad);
        let sens = ONE - trunc_div(aim, 5);
        let look_x = spec_apply_deadzone(pad.right_stick_x);
        let look_y = spec_apply_deadzone(pad.right_stick_y);
        Player {
            is_aiming: Self::aims(input, pad),
            aim_transition: aim as i64,
            yaw: clamp_int(
                self.yaw - spec_pointer_turn(input.mouse.delta_x as int, sens) + spec_stick_turn(
                    look_x as int,
                    sens,
                    input.dt as int,
                ),
                -YAW_LIMIT,
                YAW_LIMIT as int,
            ) as i64,
            pitch: clamp_int(
                self.pitch + spec_pointer_turn(input.mouse.delta_y as int, sens) + spec_stick_turn(
                    look_y as int,
                    sens,
                    input.dt as int,
                ),
                -PITCH_LIMIT,
                PITCH_LIMIT as int,
            ) as i64,
            ..self
        }
    }

    #[verifier::when_used_as_spec(spec_new)]
    pub fn new(x: i64, z: i64) -> (p: Player)
        ensures
            p == Self::spec_new(x, z),
    {
        let p = Player {
            pos: Vec3 { x, y: PLAYER_HEIGHT, z },
            yaw: 0,
            pitch: 0,
            health: MAX_HEALTH,
            armor: 0,
            weapons: [Weapon::pistol(), Weapon::shotgun(), Weapon::machinegun(), Weapon::rocket()],
            current_weapon: 0,
            score: 0,
            damage_flash: 0,
            speed_boost: 0,
            damage_boost: 0,
            kills: 0,
            pickup_msg: "",
            pickup_msg_time: 0,
            is_aiming: false,
            aim_transition: 0,
        };
        assert(p.weapons =~= Self::arsenal());
        p
    }

    /// Takes an enemy's attack: the armor absorbs what it can, and the rest,
    /// with three tenths of what the armor absorbed, comes off the health.
    pub fn take_hit(&mut self, damage: i64)
        requires
            old(self).wf(),
            0 <= damage <= STAT_LIMIT,
        ensures
            *final(self) == old(self).spec_take_hit(damage),
            final(self).wf(),
    {
        let absorbed = if damage < self.armor {
            damage
        } else {
            self.armor
        };
        let through = damage - absorbed * 7 / 10;
        let health = clamp(self.health - through, 0, MAX_HEALTH);
        *self = Player { armor: self.armor - absorbed, health, damage_flash: 500_000, ..*self };
    }

    /// Applies the effect of a pickup of the given kind, shows its message
    /// and scores it.
    pub fn collect(&mut self, kind: PickupType)
        requires
            old(self).wf(),
        ensures
            *final(self) == old(self).spec_collect(kind),
            final(self).wf(),
    {
        match kind {
            PickupType::Health => {
                self.health = clamp(self.health + HEALTH_GAIN, 0, MAX_HEALTH);
            },
            PickupType::Ammo => {
                let mut i: usize = 0;
                while i < 4
                    invariant
                        i <= 4,
                        forall|k: int| 0 <= k < i ==> self.weapons[k] == old(self).weapons[k].spec_refill(),
                        forall|k: int| i <= k < 4 ==> self.weapons[k] == old(self).weapons[k],
                        *self == (Player { weapons: self.weapons, ..*old(self) }),
                    decreases 4 - i,
                {
                    self.weapons[i].refill();
                    i += 1;
                }
                assert(self.weapons =~= old(self).spec_collect(kind).weapons);
            },
            PickupType::SpeedBoost => {
                self.speed_boost = BOOST_TIME;
            },
            PickupType::DamageBoost => {
                self.damage_boost = BOOST_TIME;
            },
            PickupType::Armor => {
                self.armor = clamp(self.armor + ARMOR_GAIN, 0, MAX_ARMOR);
            },
        }
        self.pickup_msg = kind.message();
        self.pickup_msg_time = MESSAGE_TIME;
        self.score = add_capped(self.score, PICKUP_SCORE);
    }

    /// Raises or lowers the weapon and turns the view by this frame's pointer
    /// movement and right stick.
    pub fn turn(&mut self, input: &Input, pad: &GamepadState)
        requires
            old(self).wf(),
            pad.wf(),
        ensures
            *final(self) == old(self).spec_turn(*input, *pad),
            final(self).wf(),
    {
        let aiming = input.mouse.right_down || pad.left_trigger > TRIGGER_THRESHOLD || pad.lt_button;
        let change: i64 = AIM_RATE * (input.dt as i64);
        let aim = if aiming {
            clamp(self.aim_transition + change, 0, ONE)
        } else {
            clamp(self.aim_transition - change, 0, ONE)
        };
        let sens = ONE - aim / 5;
        let look_x = apply_deadzone(pad.right_stick_x);
        let look_y = apply_deadzone(pad.right_stick_y);
        let yaw = self.yaw - pointer_turn(input.mouse.delta_x, sens) + stick_turn(look_x, sens, input.dt);
        let pitch = self.pitch + pointer_turn(input.mouse.delta_y, sens) + stick_turn(
            look_y,
            sens,
            input.dt,
        );
        *self = Player {
            is_aiming: aiming,
            aim_transition: aim,
            yaw: clamp(yaw, -YAW_LIMIT, YAW_LIMIT),
            pitch: clamp(pitch, -PITCH_LIMIT, PITCH_LIMIT),
            ..*self
        };
    }

    /// Changes the weapon slot as this frame's selection input asks.
    pub fn select_weapon(&mut self, input: &Input, pad: &GamepadState)
        requires
            old(self).wf(),
        ensures
            *final(self) == (Player {
                current_weapon: spec_select_weapon(old(self).current_weapon as int, *input, *pad) as usize,
                ..*old(self)
            }),
            final(self).wf(),
    {
        let mut slot = self.current_weapon;
        if input.keys.key1_pressed {
            slot = 0;
        }
        if input.keys.key2_pressed {
            slot = 1;
        }
        if input.keys.key3_pressed {
            slot = 2;
        }
        if input.keys.key4_pressed {
            slot = 3;
        }
        if input.mouse.wheel > 0 {
            slot = (slot + 1) % 4;
        }
        if input.mouse.wheel < 0 {
            slot = (slot + 3) % 4;
        }
        if pad.rb_just_pressed {
            slot = (slot + 1) % 4;
        }
        if pad.lb_just_pressed {
            slot = (slot + 3) % 4;
        }
        if pad.dpad_up_just {
            slot = 0;
        }
        if pad.dpad_right_just {
            slot = 1;
        }
        if pad.dpad_down_just {
            slot = 2;
        }
        if pad.dpad_left_just {
            slot = 3;
        }
        self.current_weapon = slot;
    }
}

fn pointer_turn(delta: i32, sens: i64) -> (r: i64)
    requires
        0 <= sens <= ONE,
    ensures
        r == spec_pointer_turn(delta as int, sens as int),
        -0x8000_0000 <= r <= 0x8000_0000,
{
    proof {
        lemma_mul_bound(delta as int, sens as int, 0x8000_0000, ONE as int);
        lemma_trunc_div_bound(delta * sens, ONE as int, 0x8000_0000);
    }
    (((delta as i128) * (sens as i128)) / (ONE as i128)) as i64
}

fn stick_turn(stick: i64, sens: i64, dt: u32) -> (r: i64)
    requires
        -ONE <= stick <= ONE,
        0 <= sens <= ONE,
    ensures
        r == spec_stick_turn(stick as int, sens as int, dt as int),
        -8_000_000_000 <= r <= 8_000_000_000,
{
    proof {
        lemma_mul_bound(stick as int, sens as int, ONE as int, ONE as int);
        lemma_mul_bound(stick * sens, dt as int, ONE * ONE, 0x1_0000_0000);
        assert(ONE * ONE * 0x1_0000_0000 == 4_294_967_296_000_000_000_000int);
        assert(10 * ONE * SECOND == 10_000_000_000_000int);
        lemma_trunc_div_bound(stick * sens * dt * 18, 10_000_000_000_000, 8_000_000_000);
    }
    let product: i128 = (stick as i128) * (sens as i128) * (dt as i128) * 18;
    (product / 10_000_000_000_000) as i64
}

} // verus!
