use rust_blaster::blast::{explode, falloff, reach, self_damage, update_projectiles};
use rust_blaster::combat::{
    cast_ray, find_target, hit_radius, kill_score, raycast_shot, sample, strike, RayHit,
};
use rust_blaster::entity::{Enemy, EnemyType, Paint, Projectile};
use rust_blaster::fixed::{Vec3, ONE};
use rust_blaster::input::Basis;
use rust_blaster::level::Level;
use rust_blaster::player::Player;
use rust_blaster::shooting::{aimed_spread, fire_pellet, shot_direction, try_shoot};
use rust_blaster::world::{GameState, World};

/// A square room of ten by ten floor cells inside walls: the floor spans
/// 4.0 to 44.0 both ways. The player stands at (10, 22).
fn arena() -> World {
    let mut rows: Vec<Vec<char>> = Vec::new();
    rows.push("############".chars().collect());
    for _ in 0..10 {
        rows.push("#..........#".chars().collect());
    }
    rows.push("############".chars().collect());
    World {
        player: Player::new(10 * ONE, 22 * ONE),
        enemies: Vec::new(),
        projectiles: Vec::new(),
        particles: Vec::new(),
        pickups: Vec::new(),
        level: Level {
            width: 12,
            height: 12,
            grid: rows,
            floor_heights: vec![vec![0; 12]; 12],
            name: String::from("ARENA"),
        },
        current_level: 1,
        state: GameState::Playing,
        screen_shake: 0,
        muzzle_flash: 0,
        hit_marker: 0,
        combo: 0,
        combo_timer: 0,
        total_kills: 0,
    }
}

/// An enemy at the height of the player's eye.
fn at_eye_level(mut e: Enemy) -> Enemy {
    e.pos.y = 1_700_000;
    e
}

fn east() -> Vec3 {
    Vec3 { x: ONE, y: 0, z: 0 }
}

fn looking_east() -> Basis {
    Basis { forward: east(), right: Vec3 { x: 0, y: 0, z: ONE } }
}

#[test]
fn enemies_have_their_figures() {
    let grunt = Enemy::grunt(ONE, 2 * ONE);
    assert_eq!((grunt.pos.x, grunt.pos.y, grunt.pos.z), (ONE, 1_000_000, 2 * ONE));
    assert_eq!((grunt.health, grunt.max_health), (50 * ONE, 50 * ONE));
    assert_eq!((grunt.speed, grunt.damage, grunt.attack_cd), (3_500_000, 10 * ONE, 1_000_000));
    assert_eq!((grunt.size(), grunt.points()), (800_000, 100));
    assert_eq!(grunt.color(), Paint::Enemy(EnemyType::Grunt));
    assert!(!grunt.dead);

    let heavy = Enemy::heavy(ONE, 2 * ONE);
    assert_eq!(heavy.pos.y, 1_500_000);
    assert_eq!((heavy.health, heavy.max_health), (150 * ONE, 150 * ONE));
    assert_eq!((heavy.speed, heavy.damage, heavy.attack_cd), (1_800_000, 25 * ONE, 1_500_000));
    assert_eq!((heavy.size(), heavy.points()), (1_200_000, 300));

    let demon = Enemy::demon(ONE, 2 * ONE);
    assert_eq!(demon.pos.y, 1_200_000);
    assert_eq!((demon.health, demon.max_health), (70 * ONE, 70 * ONE));
    assert_eq!((demon.speed, demon.damage, demon.attack_cd), (6_000_000, 15 * ONE, 600_000));
    assert_eq!((demon.size(), demon.points()), (900_000, 200));
    assert_eq!((demon.last_attack, demon.death_time), (0, 0));
}

#[test]
fn the_hit_radius_is_four_fifths_of_the_size() {
    assert_eq!(hit_radius(EnemyType::Grunt), 640_000);
    assert_eq!(hit_radius(EnemyType::Heavy), 960_000);
    assert_eq!(hit_radius(EnemyType::Demon), 720_000);
}

#[test]
fn samples_lie_0_3_apart() {
    let start = Vec3 { x: 10 * ONE, y: 1_700_000, z: 22 * ONE };
    assert_eq!(sample(&start, &east(), 0), start);
    assert_eq!(sample(&start, &east(), 1), Vec3 { x: 10_300_000, ..start });
    assert_eq!(sample(&start, &east(), 333), Vec3 { x: 109_900_000, ..start });
    let down = Vec3 { x: 0, y: -ONE, z: 0 };
    assert_eq!(sample(&start, &down, 2), Vec3 { y: 1_100_000, ..start });
    let slanted = Vec3 { x: 600_000, y: 0, z: -800_000 };
    assert_eq!(
        sample(&start, &slanted, 10),
        Vec3 { x: 11_800_000, y: 1_700_000, z: 19_600_000 }
    );
}

#[test]
fn a_ray_stops_at_the_wall() {
    let world = arena();
    // the wall to the east begins at 44.0; the probe of radius 0.1 meets it
    // at the first sample beyond 43.9, which is 10 + 113 * 0.3 = 43.9 itself
    // only if nearer than 0.1: it is not, so the next one, 44.2, is the hit
    match cast_ray(&world, &east()) {
        RayHit::Wall(at) => assert_eq!(at, Vec3 { x: 44_200_000, y: 1_700_000, z: 22 * ONE }),
        other => panic!("{:?}", other),
    }
}

#[test]
fn a_ray_hits_the_enemy_in_its_way() {
    let mut world = arena();
    world.enemies.push(at_eye_level(Enemy::grunt(16 * ONE, 22 * ONE)));
    // the first sample nearer than 0.64 to x = 16 is 15.4
    match cast_ray(&world, &east()) {
        RayHit::Enemy(i, at) => {
            assert_eq!(i, 0);
            assert_eq!(at, Vec3 { x: 15_400_000, y: 1_700_000, z: 22 * ONE });
        },
        other => panic!("{:?}", other),
    }
}

#[test]
fn a_level_shot_passes_over_a_grunt() {
    let mut world = arena();
    // a grunt's middle is 0.7 below the eye, its hit radius 0.64
    world.enemies.push(Enemy::grunt(16 * ONE, 22 * ONE));
    assert!(matches!(cast_ray(&world, &east()), RayHit::Wall(_)));
    // a heavy's middle is 0.2 below the eye, its hit radius 0.96
    world.enemies[0] = Enemy::heavy(16 * ONE, 22 * ONE);
    assert!(matches!(cast_ray(&world, &east()), RayHit::Enemy(0, _)));
}

#[test]
fn a_ray_misses_what_is_out_of_range() {
    let mut world = arena();
    // a corridor longer than the range of 100: 30 cells of floor
    let mut rows: Vec<Vec<char>> = Vec::new();
    rows.push("################################".chars().collect());
    rows.push("#..............................#".chars().collect());
    rows.push("################################".chars().collect());
    world.level = Level {
        width: 32,
        height: 3,
        grid: rows,
        floor_heights: vec![vec![0; 32]; 3],
        name: String::from("CORRIDOR"),
    };
    world.player.pos = Vec3 { x: 5 * ONE, y: 1_700_000, z: 6 * ONE };
    assert_eq!(cast_ray(&world, &east()), RayHit::Miss);
    // the last sample is at 5 + 99.9; an enemy beyond it is not met
    world.enemies.push(at_eye_level(Enemy::grunt(106 * ONE, 6 * ONE)));
    assert_eq!(cast_ray(&world, &east()), RayHit::Miss);
    world.enemies[0].pos.x = 105 * ONE;
    assert!(matches!(cast_ray(&world, &east()), RayHit::Enemy(0, _)));
}

#[test]
fn a_wall_shields_the_enemy_behind_it() {
    let mut world = arena();
    world.level.grid[5][4] = '#';
    // the pillar spans 16 to 20 east and 20 to 24 south; the enemy stands behind it
    world.enemies.push(at_eye_level(Enemy::grunt(30 * ONE, 22 * ONE)));
    match cast_ray(&world, &east()) {
        RayHit::Wall(at) => assert_eq!(at.x, 16_000_000),
        other => panic!("{:?}", other),
    }
    raycast_shot(&mut world, east(), 25 * ONE, 0);
    assert_eq!(world.enemies[0].health, 50 * ONE);
    assert_eq!(world.hit_marker, 0);
    assert_eq!(world.particles.len(), 8);
    for p in &world.particles {
        assert_eq!(p.color, Paint::Debris);
        assert_eq!(p.pos, Vec3 { x: 16_000_000, y: 1_700_000, z: 22 * ONE });
        assert_eq!(p.size, 100_000);
        assert_eq!(p.max_life, 500_000);
        assert!(200_000 <= p.life && p.life <= 500_000);
        assert!(-3_000_000 <= p.vel.x && p.vel.x <= 3_000_000);
        assert!(0 <= p.vel.y && p.vel.y <= 4_500_000);
        assert!(-3_000_000 <= p.vel.z && p.vel.z <= 3_000_000);
    }
}

#[test]
fn the_order_of_the_list_decides_between_two_enemies() {
    let mut world = arena();
    // both within reach of the sample at 15.4: the first in the list is hit,
    // though the second stands nearer to the player
    world.enemies.push(at_eye_level(Enemy::heavy(16 * ONE, 22 * ONE)));
    world.enemies.push(at_eye_level(Enemy::grunt(15_500_000, 22 * ONE)));
    let at = Vec3 { x: 15_400_000, y: 1_700_000, z: 22 * ONE };
    assert_eq!(find_target(&world.enemies, &at), Some(0));
    world.enemies[0].dead = true;
    assert_eq!(find_target(&world.enemies, &at), Some(1));
    world.enemies[1].dead = true;
    assert_eq!(find_target(&world.enemies, &at), None);
}

#[test]
fn a_hit_hurts_and_a_second_one_kills() {
    let mut world = arena();
    world.enemies.push(at_eye_level(Enemy::grunt(16 * ONE, 22 * ONE)));
    raycast_shot(&mut world, east(), 25 * ONE, 5_000_000);
    assert_eq!(world.enemies[0].health, 25 * ONE);
    assert!(!world.enemies[0].dead);
    assert_eq!(world.hit_marker, ONE);
    assert_eq!((world.player.score, world.player.kills, world.total_kills), (0, 0, 0));
    assert_eq!(world.combo, 0);
    assert_eq!(world.particles.len(), 10);
    assert!(world.particles.iter().all(|p| p.color == Paint::Enemy(EnemyType::Grunt)));
    assert!(world.particles.iter().all(|p| p.pos.x == 15_400_000 && p.size == 150_000));

    world.hit_marker = 0;
    raycast_shot(&mut world, east(), 25 * ONE, 6_000_000);
    assert_eq!(world.enemies[0].health, 0);
    assert!(world.enemies[0].dead);
    assert_eq!(world.enemies[0].death_time, 6_000_000);
    assert_eq!(world.hit_marker, ONE);
    assert_eq!(world.player.score, 150);
    assert_eq!((world.player.kills, world.total_kills), (1, 1));
    assert_eq!(world.combo, 1);
    assert_eq!(world.combo_timer, 2_000_000);
    // ten more off the hit and 25 where the enemy died
    assert_eq!(world.particles.len(), 45);
    assert!(world.particles[20..].iter().all(|p| p.pos == world.enemies[0].pos && p.size == 200_000));

    // the dead are passed through
    raycast_shot(&mut world, east(), 25 * ONE, 7_000_000);
    assert_eq!(world.player.score, 150);
    assert_eq!(world.particles.len(), 53);
}

#[test]
fn each_kill_of_a_streak_is_worth_50_more() {
    // three kills of 100 points score 100 + 50, 100 + 100 and 100 + 150
    let mut world = arena();
    for _ in 0..3 {
        world.enemies.push(Enemy::grunt(20 * ONE, 20 * ONE));
    }
    strike(&mut world, 0, 50 * ONE, 1_000_000);
    assert_eq!((world.combo, world.player.score), (1, 150));
    strike(&mut world, 1, 50 * ONE, 1_500_000);
    assert_eq!((world.combo, world.player.score), (2, 350));
    strike(&mut world, 2, 50 * ONE, 2_000_000);
    assert_eq!((world.combo, world.player.score), (3, 600));
    assert_eq!((world.player.kills, world.total_kills), (3, 3));
    assert_eq!(world.combo_timer, 2_000_000);
    assert!(world.enemies.iter().all(|e| e.dead && e.health == 0));
    assert_eq!(world.enemies[1].death_time, 1_500_000);
}

#[test]
fn kill_scores_are_exact() {
    assert_eq!(kill_score(0, 100, 1), 150);
    assert_eq!(kill_score(150, 300, 2), 550);
    assert_eq!(kill_score(1000, 200, 10), 1700);
    assert_eq!(kill_score(i32::MAX, 100, 1), i32::MAX);
    assert_eq!(kill_score(0, 100, i32::MAX), i32::MAX);
}

#[test]
fn a_hit_that_does_not_kill_leaves_the_streak_alone() {
    let mut world = arena();
    world.enemies.push(Enemy::heavy(20 * ONE, 20 * ONE));
    world.combo = 4;
    world.combo_timer = 700_000;
    strike(&mut world, 0, 149 * ONE, 1_000_000);
    assert_eq!(world.enemies[0].health, ONE);
    assert!(!world.enemies[0].dead);
    assert_eq!((world.combo, world.combo_timer), (4, 700_000));
    assert_eq!(world.player.score, 0);
    strike(&mut world, 0, 2 * ONE, 1_000_000);
    assert_eq!(world.enemies[0].health, -ONE);
    assert!(world.enemies[0].dead);
    assert_eq!((world.combo, world.combo_timer), (5, 2_000_000));
    assert_eq!(world.player.score, 300 + 250);
}

#[test]
fn the_cone_of_fire_narrows_with_the_aim() {
    assert_eq!(aimed_spread(120_000, 0), 120_000);
    assert_eq!(aimed_spread(120_000, ONE), 60_000);
    assert_eq!(aimed_spread(120_000, 500_000), 90_000);
    assert_eq!(aimed_spread(20_000, 250_000), 17_500);
    assert_eq!(aimed_spread(0, 0), 0);
}

#[test]
fn a_pellet_leaves_along_the_line_of_sight_and_its_offsets() {
    let basis = looking_east();
    assert_eq!(shot_direction(&basis, 0, 0), east());
    // 0.1 to the right and 0.1 up of a unit vector: length 1.00995
    let dir = shot_direction(&basis, 100_000, 100_000);
    assert_eq!(dir, Vec3 { x: 990_148, y: 99_014, z: 99_014 });
    let left = shot_direction(&basis, -100_000, 0);
    assert_eq!(left, Vec3 { x: 995_037, y: 0, z: -99_503 });
}

#[test]
fn an_instant_pellet_is_settled_at_once() {
    let mut world = arena();
    world.enemies.push(at_eye_level(Enemy::grunt(16 * ONE, 22 * ONE)));
    fire_pellet(&mut world, east(), 50 * ONE, false, 9);
    assert!(world.enemies[0].dead);
    assert!(world.projectiles.is_empty());
}

#[test]
fn an_explosive_pellet_flies() {
    let mut world = arena();
    world.enemies.push(at_eye_level(Enemy::grunt(16 * ONE, 22 * ONE)));
    let dir = Vec3 { x: 600_000, y: 0, z: 800_000 };
    fire_pellet(&mut world, dir, 250 * ONE, true, 9);
    assert_eq!(world.enemies[0].health, 50 * ONE);
    assert_eq!(
        world.projectiles,
        vec![Projectile {
            pos: world.player.pos,
            vel: Vec3 { x: 15 * ONE, y: 0, z: 20 * ONE },
            damage: 250 * ONE,
            explosive: true,
        }]
    );
}

#[test]
fn the_trigger_fires_the_weapon_in_hand() {
    let mut world = arena();
    world.enemies.push(at_eye_level(Enemy::heavy(16 * ONE, 22 * ONE)));
    // too early for the pistol, which waits a third of a second from zero
    try_shoot(&mut world, 100_000, &looking_east());
    assert_eq!(world.muzzle_flash, 0);
    assert_eq!(world.enemies[0].health, 150 * ONE);
    assert_eq!(world.player.weapons[0].last_shot, 0);
    // in time
    try_shoot(&mut world, 1_000_000, &looking_east());
    assert_eq!(world.muzzle_flash, ONE);
    assert_eq!(world.screen_shake, 100_000);
    assert_eq!(world.player.weapons[0].last_shot, 1_000_000);
    assert_eq!(world.player.weapons[0].ammo, -1);
    // the spread of 0.02 cannot carry the pellet past a heavy six units away
    assert_eq!(world.enemies[0].health, 125 * ONE);
    // and again too early
    try_shoot(&mut world, 1_200_000, &looking_east());
    assert_eq!(world.enemies[0].health, 125 * ONE);
}

#[test]
fn a_damage_boost_doubles_the_damage() {
    let mut world = arena();
    world.enemies.push(at_eye_level(Enemy::heavy(16 * ONE, 22 * ONE)));
    world.player.damage_boost = 1;
    try_shoot(&mut world, 1_000_000, &looking_east());
    assert_eq!(world.enemies[0].health, 100 * ONE);
}

#[test]
fn the_shotgun_fires_eight_pellets_for_one_round() {
    let mut world = arena();
    world.player.current_weapon = 1;
    // a heavy right in front: every pellet of the cone of 0.12 hits
    world.enemies.push(at_eye_level(Enemy::heavy(12 * ONE, 22 * ONE)));
    try_shoot(&mut world, 1_000_000, &looking_east());
    assert_eq!(world.player.weapons[1].ammo, 23);
    assert_eq!(world.enemies[0].health, (150 - 8 * 12) * ONE);
    assert_eq!(world.particles.len(), 80);
}

#[test]
fn the_rocket_launcher_lets_a_rocket_fly() {
    let mut world = arena();
    world.player.current_weapon = 3;
    try_shoot(&mut world, 2_000_000, &looking_east());
    assert_eq!(world.player.weapons[3].ammo, 19);
    assert_eq!(world.projectiles.len(), 1);
    let rocket = world.projectiles[0];
    assert_eq!(rocket.pos, world.player.pos);
    assert_eq!(rocket.vel, Vec3 { x: 25 * ONE, y: 0, z: 0 });
    assert_eq!(rocket.damage, 250 * ONE);
    assert!(rocket.explosive);
    // half a shot a second
    try_shoot(&mut world, 3_999_999, &looking_east());
    assert_eq!(world.projectiles.len(), 1);
    try_shoot(&mut world, 4_000_000, &looking_east());
    assert_eq!(world.projectiles.len(), 2);
}

#[test]
fn an_empty_weapon_stays_silent() {
    let mut world = arena();
    world.player.current_weapon = 3;
    world.player.weapons[3].ammo = 0;
    try_shoot(&mut world, 10_000_000, &looking_east());
    assert!(world.projectiles.is_empty());
    assert_eq!(world.muzzle_flash, 0);
    assert_eq!(world.player.weapons[3].last_shot, 0);
}

#[test]
fn distances_round_down() {
    let a = Vec3 { x: 0, y: 0, z: 0 };
    assert_eq!(reach(&a, &Vec3 { x: 3 * ONE, y: 4 * ONE, z: 0 }), 5 * ONE);
    assert_eq!(reach(&a, &Vec3 { x: 1, y: 1, z: 0 }), 1);
    assert_eq!(reach(&a, &a), 0);
}

#[test]
fn the_damage_of_an_explosion_falls_off_evenly() {
    // damage 250, radius 10, distance 5: 250 * (1 - 5 / 10) = 125
    assert_eq!(falloff(250 * ONE, 5 * ONE), 125 * ONE);
    assert_eq!(falloff(250 * ONE, 0), 250 * ONE);
    assert_eq!(falloff(250 * ONE, 9_999_999), 25);
    assert_eq!(falloff(250 * ONE, 2_500_000), 187_500_000);
    assert_eq!(falloff(0, 5 * ONE), 0);
    // the player takes three tenths
    assert_eq!(self_damage(250 * ONE, 5 * ONE), 37_500_000);
    assert_eq!(self_damage(250 * ONE, 0), 75 * ONE);
    assert_eq!(self_damage(250 * ONE, 6 * ONE), 30 * ONE);
}

#[test]
fn an_explosion_hurts_by_distance() {
    let mut world = arena();
    let at = Vec3 { x: 20 * ONE, y: 1_500_000, z: 20 * ONE };
    world.player.pos = Vec3 { x: 20 * ONE, y: 1_500_000, z: 26 * ONE };
    let mut near = Enemy::heavy(25 * ONE, 20 * ONE);
    near.pos.y = 1_500_000;
    let mut rim = Enemy::heavy(30 * ONE, 20 * ONE);
    rim.pos.y = 1_500_000;
    let mut centre = Enemy::heavy(20 * ONE, 20 * ONE);
    centre.pos.y = 1_500_000;
    world.enemies = vec![near, rim, centre];
    explode(&mut world, at, 250 * ONE, 77);
    // at distance 5: 125 damage
    assert_eq!(world.enemies[0].health, 25 * ONE);
    assert!(!world.enemies[0].dead);
    // at distance 10, the rim: nothing
    assert_eq!(world.enemies[1].health, 150 * ONE);
    // at the centre: all of it
    assert_eq!(world.enemies[2].health, -100 * ONE);
    assert!(world.enemies[2].dead);
    assert_eq!(world.enemies[2].death_time, 77);
    // the player at distance 6: 250 * 0.4 * 0.3 = 30
    assert_eq!(world.player.health, 70 * ONE);
    assert_eq!(world.player.damage_flash, 300_000);
    assert_eq!(world.screen_shake, 800_000);
    // a splash kill scores the points alone and is no part of a streak
    assert_eq!(world.player.score, 300);
    assert_eq!((world.player.kills, world.total_kills, world.combo), (0, 0, 0));
    assert_eq!(world.particles.len(), 180);
}

#[test]
fn the_particles_of_an_explosion_come_in_three_layers() {
    let mut world = arena();
    let at = Vec3 { x: 20 * ONE, y: 1_500_000, z: 20 * ONE };
    world.player.pos = Vec3 { x: 40 * ONE, y: 1_700_000, z: 40 * ONE };
    explode(&mut world, at, 250 * ONE, 0);
    assert_eq!(world.player.health, 100 * ONE);
    assert_eq!(world.player.damage_flash, 0);
    assert_eq!(world.particles.len(), 180);
    for p in &world.particles[..120] {
        assert!(matches!(p.color, Paint::Fire(_)));
        assert_eq!(p.max_life, 1_800_000);
        assert!(500_000 <= p.life && p.life <= 1_800_000);
        assert!(3_000_000 <= p.vel.y && p.vel.y <= 20_000_000);
        assert!(p.vel.x.abs() <= 15_000_000 && p.vel.z.abs() <= 15_000_000);
        assert!(300_000 <= p.size && p.size <= 800_000);
    }
    for p in &world.particles[120..160] {
        assert_eq!(p.color, Paint::Smoke);
        assert_eq!(p.max_life, 2_500_000);
        assert!(1_000_000 <= p.life && p.life <= 2_500_000);
        assert!(1_000_000 <= p.vel.y && p.vel.y <= 8_000_000);
        assert!(p.vel.x.abs() <= 5_000_000 && p.vel.z.abs() <= 5_000_000);
    }
    for p in &world.particles[160..] {
        assert_eq!(p.color, Paint::Flash);
        assert_eq!(p.max_life, 400_000);
        assert!(100_000 <= p.life && p.life <= 400_000);
        assert!(5_000_000 <= p.vel.y && p.vel.y <= 25_000_000);
        assert!(500_000 <= p.size && p.size <= 1_200_000);
    }
    assert!(world.particles.iter().all(|p| p.pos == at));
    // all four tones of fire turn up among 120 draws
    for tone in [
        rust_blaster::entity::FireTone::Orange,
        rust_blaster::entity::FireTone::Yellow,
        rust_blaster::entity::FireTone::Red,
        rust_blaster::entity::FireTone::Amber,
    ] {
        assert!(world.particles.iter().any(|p| p.color == Paint::Fire(tone)));
    }
}

#[test]
fn an_explosion_passes_over_the_dead() {
    let mut world = arena();
    world.player.pos = Vec3 { x: 40 * ONE, y: 1_700_000, z: 40 * ONE };
    let mut corpse = Enemy::grunt(20 * ONE, 20 * ONE);
    corpse.dead = true;
    corpse.health = 0;
    world.enemies.push(corpse);
    explode(&mut world, Vec3 { x: 20 * ONE, y: ONE, z: 20 * ONE }, 250 * ONE, 5);
    assert_eq!(world.enemies[0].health, 0);
    assert_eq!(world.enemies[0].death_time, 0);
    assert_eq!(world.player.score, 0);
}

#[test]
fn a_rocket_flies_until_it_meets_a_wall() {
    let mut world = arena();
    world.player.pos = Vec3 { x: 10 * ONE, y: 1_700_000, z: 10 * ONE };
    world.projectiles.push(Projectile {
        pos: Vec3 { x: 40 * ONE, y: 1_700_000, z: 22 * ONE },
        vel: Vec3 { x: 25 * ONE, y: 0, z: 0 },
        damage: 250 * ONE,
        explosive: true,
    });
    // a tenth of a second: 2.5 on, to 42.5
    update_projectiles(&mut world, 100_000, 0);
    assert_eq!(world.projectiles.len(), 1);
    assert_eq!(world.projectiles[0].pos, Vec3 { x: 42_500_000, y: 1_700_000, z: 22 * ONE });
    assert!(world.particles.is_empty());
    // 1.4 more, to 43.9: within 0.2 of the wall at 44
    update_projectiles(&mut world, 56_000, 0);
    assert!(world.projectiles.is_empty());
    assert_eq!(world.particles.len(), 180);
    assert_eq!(world.particles[0].pos, Vec3 { x: 43_900_000, y: 1_700_000, z: 22 * ONE });
    assert_eq!(world.screen_shake, 800_000);
    // the player is 36 away
    assert_eq!(world.player.health, 100 * ONE);
}

#[test]
fn a_rocket_goes_off_near_an_enemy() {
    let mut world = arena();
    world.player.pos = Vec3 { x: 10 * ONE, y: 1_700_000, z: 40 * ONE };
    world.enemies.push(at_eye_level(Enemy::grunt(30 * ONE, 22 * ONE)));
    world.enemies.push(at_eye_level(Enemy::heavy(33 * ONE, 22 * ONE)));
    world.projectiles.push(Projectile {
        pos: Vec3 { x: 28 * ONE, y: 1_700_000, z: 22 * ONE },
        vel: Vec3 { x: 25 * ONE, y: 0, z: 0 },
        damage: 250 * ONE,
        explosive: true,
    });
    // 1.25 on, to 29.25: nearer than 1.0 to the grunt at 30
    update_projectiles(&mut world, 50_000, 123);
    assert!(world.projectiles.is_empty());
    // the grunt at distance 0.75: 250 * 0.925 = 231.25
    assert_eq!(world.enemies[0].health, 50 * ONE - 231_250_000);
    assert!(world.enemies[0].dead);
    assert_eq!(world.enemies[0].death_time, 123);
    // the heavy at distance 3.75: 250 * 0.625 = 156.25
    assert_eq!(world.enemies[1].health, 150 * ONE - 156_250_000);
    assert!(world.enemies[1].dead);
    assert_eq!(world.player.score, 400);
    assert_eq!(world.combo, 0);
}

#[test]
fn a_plain_projectile_hurts_the_enemy_it_meets_and_no_more() {
    let mut world = arena();
    world.enemies.push(at_eye_level(Enemy::grunt(30 * ONE, 22 * ONE)));
    world.projectiles.push(Projectile {
        pos: Vec3 { x: 29 * ONE, y: 1_700_000, z: 22 * ONE },
        vel: Vec3 { x: ONE, y: 0, z: 0 },
        damage: 60 * ONE,
        explosive: false,
    });
    update_projectiles(&mut world, 100_000, 5);
    assert!(world.projectiles.is_empty());
    // hurt below zero, and yet not marked dead nor scored
    assert_eq!(world.enemies[0].health, -10 * ONE);
    assert!(!world.enemies[0].dead);
    assert_eq!(world.player.score, 0);
    assert!(world.particles.is_empty());
}

#[test]
fn a_plain_projectile_ends_at_a_wall_without_a_trace() {
    let mut world = arena();
    world.projectiles.push(Projectile {
        pos: Vec3 { x: 43 * ONE, y: 1_700_000, z: 22 * ONE },
        vel: Vec3 { x: 10 * ONE, y: 0, z: 0 },
        damage: 60 * ONE,
        explosive: false,
    });
    update_projectiles(&mut world, 100_000, 5);
    assert!(world.projectiles.is_empty());
    assert!(world.particles.is_empty());
    assert_eq!(world.screen_shake, 0);
}

#[test]
fn projectiles_keep_their_order() {
    let mut world = arena();
    for k in 0..4i64 {
        world.projectiles.push(Projectile {
            pos: Vec3 { x: (10 + 10 * k) * ONE, y: ONE, z: 22 * ONE },
            vel: Vec3 { x: 0, y: 0, z: (k - 1) * 200 * ONE },
            damage: ONE,
            explosive: false,
        });
    }
    // the first flies into the wall to the north, the last two south
    update_projectiles(&mut world, 100_000, 0);
    assert_eq!(world.projectiles.len(), 2);
    assert_eq!(world.projectiles[0].pos, Vec3 { x: 20 * ONE, y: ONE, z: 22 * ONE });
    assert_eq!(world.projectiles[1].pos, Vec3 { x: 30 * ONE, y: ONE, z: 42 * ONE });
}
