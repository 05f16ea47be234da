use rust_blaster::combat::strike;
use rust_blaster::entity::{Enemy, Particle, Pickup, PickupType, Projectile, Paint};
use rust_blaster::fixed::{Vec3, ONE};
use rust_blaster::game::{check_victory, fade, pointer_for, update, update_aim, Pointer};
use rust_blaster::input::{Basis, GamepadState, Input, Keys, Mouse};
use rust_blaster::level::Level;
use rust_blaster::player::Player;
use rust_blaster::weapon::Weapon;
use rust_blaster::world::{GameState, World};

/// A room of ten by ten floor cells with the exit in cell (8, 5), whose
/// middle is (34, 22). The player stands at (10, 22).
fn arena() -> World {
    let mut rows: Vec<Vec<char>> = Vec::new();
    rows.push("############".chars().collect());
    for _ in 0..10 {
        rows.push("#..........#".chars().collect());
    }
    rows.push("############".chars().collect());
    rows[5][8] = 'X';
    World {
        player: Player::new(10 * ONE, 22 * ONE),
        enemies: Vec::new(),
        projectiles: Vec::new(),
        particles: Vec::new(),
        pickups: Vec::new(),
        level: Level {
            width: 12,
            height: 12,
            grid: rows,
            floor_heights: vec![vec![0; 12]; 12],
            name: String::from("ARENA"),
        },
        current_level: 1,
        state: GameState::Playing,
        screen_shake: 0,
        muzzle_flash: 0,
        hit_marker: 0,
        combo: 0,
        combo_timer: 0,
        total_kills: 0,
    }
}

fn idle(dt: u32) -> Input {
    Input {
        dt,
        time: 0,
        keys: Keys {
            enter_pressed: false,
            space_pressed: false,
            escape_pressed: false,
            w_down: false,
            a_down: false,
            s_down: false,
            d_down: false,
            left_shift_down: false,
            key1_pressed: false,
            key2_pressed: false,
            key3_pressed: false,
            key4_pressed: false,
        },
        mouse: Mouse { left_down: false, right_down: false, delta_x: 0, delta_y: 0, wheel: 0 },
    }
}

fn enter(dt: u32) -> Input {
    let mut input = idle(dt);
    input.keys.enter_pressed = true;
    input
}

fn escape(dt: u32) -> Input {
    let mut input = idle(dt);
    input.keys.escape_pressed = true;
    input
}

fn looking_east() -> Basis {
    Basis { forward: Vec3 { x: ONE, y: 0, z: 0 }, right: Vec3 { x: 0, y: 0, z: ONE } }
}

fn frame(world: &mut World, input: &Input, pad: &GamepadState) -> Pointer {
    update_aim(world, input, pad);
    update(world, input, pad, &looking_east())
}

#[test]
fn the_program_starts_in_the_menu_of_the_first_level() {
    let world = World::new();
    assert_eq!(world.state, GameState::Menu);
    assert_eq!(world.current_level, 1);
    assert_eq!(world.level.name, "THE BEGINNING");
    assert_eq!(world.player.pos, Vec3 { x: 6 * ONE, y: 1_700_000, z: 74 * ONE });
    assert_eq!(world.player.health, 100 * ONE);
    assert_eq!(world.enemies.len(), 7);
    assert_eq!(world.pickups.len(), 6);
    assert!(world.projectiles.is_empty() && world.particles.is_empty());
    assert_eq!((world.combo, world.combo_timer, world.total_kills), (0, 0, 0));
    assert_eq!((world.screen_shake, world.muzzle_flash, world.hit_marker), (0, 0, 0));
    assert_eq!(world.alive_enemies(), 7);
}

#[test]
fn alive_enemies_counts_the_living() {
    let mut world = arena();
    assert_eq!(world.alive_enemies(), 0);
    for _ in 0..5 {
        world.enemies.push(Enemy::grunt(20 * ONE, 20 * ONE));
    }
    assert_eq!(world.alive_enemies(), 5);
    world.enemies[1].dead = true;
    world.enemies[4].dead = true;
    assert_eq!(world.alive_enemies(), 3);
    // health does not count, the mark does
    world.enemies[0].health = -5;
    assert_eq!(world.alive_enemies(), 3);
}

#[test]
fn the_pointer_follows_the_game_into_play_and_out_of_it() {
    let (menu, playing, paused) = (GameState::Menu, GameState::Playing, GameState::Paused);
    let (dead, victory) = (GameState::Dead, GameState::Victory);
    assert_eq!(pointer_for(menu, playing), Pointer::Grab);
    assert_eq!(pointer_for(paused, playing), Pointer::Grab);
    assert_eq!(pointer_for(victory, playing), Pointer::Grab);
    assert_eq!(pointer_for(playing, paused), Pointer::Release);
    assert_eq!(pointer_for(playing, dead), Pointer::Release);
    assert_eq!(pointer_for(playing, victory), Pointer::Release);
    assert_eq!(pointer_for(playing, playing), Pointer::Keep);
    assert_eq!(pointer_for(menu, menu), Pointer::Keep);
    assert_eq!(pointer_for(dead, menu), Pointer::Keep);
    assert_eq!(pointer_for(victory, menu), Pointer::Keep);
    assert_eq!(pointer_for(paused, paused), Pointer::Keep);
}

#[test]
fn the_menu_waits_for_confirm() {
    let mut world = World::new();
    let pad = GamepadState::new();
    assert_eq!(frame(&mut world, &idle(16_000), &pad), Pointer::Keep);
    assert_eq!(world.state, GameState::Menu);
    assert_eq!(frame(&mut world, &escape(16_000), &pad), Pointer::Keep);
    assert_eq!(world.state, GameState::Menu);
    assert_eq!(frame(&mut world, &enter(16_000), &pad), Pointer::Grab);
    assert_eq!(world.state, GameState::Playing);
}

#[test]
fn space_and_the_gamepad_confirm_too() {
    let rest = GamepadState::new();
    let mut space = idle(16_000);
    space.keys.space_pressed = true;
    let mut world = World::new();
    assert_eq!(frame(&mut world, &space, &rest), Pointer::Grab);
    let mut world = World::new();
    let pad = GamepadState { a_just_pressed: true, ..rest };
    assert_eq!(frame(&mut world, &idle(16_000), &pad), Pointer::Grab);
    let mut world = World::new();
    let pad = GamepadState { start_just_pressed: true, ..rest };
    assert_eq!(frame(&mut world, &idle(16_000), &pad), Pointer::Grab);
    // a button that is merely held does not
    let mut world = World::new();
    let pad = GamepadState { a_pressed: true, start_pressed: true, b_just_pressed: true, ..rest };
    assert_eq!(frame(&mut world, &idle(16_000), &pad), Pointer::Keep);
    assert_eq!(world.state, GameState::Menu);
}

#[test]
fn a_run_starts_afresh() {
    let mut world = World::new();
    world.player.health = 10 * ONE;
    world.player.armor = 70 * ONE;
    world.player.score = 999;
    world.player.kills = 9;
    world.player.speed_boost = 5_000_000;
    world.player.damage_boost = 5_000_000;
    world.player.weapons[1].ammo = 0;
    world.player.weapons[0].last_shot = 12345;
    world.player.current_weapon = 2;
    world.player.yaw = 777;
    world.player.pitch = -777;
    world.combo = 3;
    world.combo_timer = 500_000;
    world.total_kills = 30;
    world.load_level(4);
    world.enemies[0].dead = true;
    world.pickups[0].collected = true;
    world.projectiles.push(Projectile {
        pos: world.player.pos,
        vel: Vec3 { x: 0, y: 0, z: 0 },
        damage: 0,
        explosive: true,
    });
    world.state = GameState::Menu;
    let pad = GamepadState::new();
    assert_eq!(frame(&mut world, &enter(16_000), &pad), Pointer::Grab);
    assert_eq!(world.state, GameState::Playing);
    assert_eq!(world.current_level, 1);
    assert_eq!(world.level.name, "THE BEGINNING");
    assert_eq!(world.player.pos, Vec3 { x: 6 * ONE, y: 1_700_000, z: 74 * ONE });
    assert_eq!((world.player.yaw, world.player.pitch), (0, 0));
    assert_eq!((world.player.health, world.player.armor), (100 * ONE, 0));
    assert_eq!((world.player.score, world.player.kills, world.total_kills), (0, 0, 0));
    assert_eq!((world.player.speed_boost, world.player.damage_boost), (0, 0));
    assert_eq!(
        world.player.weapons,
        [Weapon::pistol(), Weapon::shotgun(), Weapon::machinegun(), Weapon::rocket()]
    );
    assert_eq!(world.player.current_weapon, 0);
    assert_eq!((world.combo, world.combo_timer), (0, 0));
    assert_eq!(world.enemies.len(), 7);
    assert_eq!(world.alive_enemies(), 7);
    assert_eq!(world.pickups.len(), 6);
    assert!(world.pickups.iter().all(|p| !p.collected));
    assert!(world.projectiles.is_empty() && world.particles.is_empty());
}

#[test]
fn escape_pauses_and_resumes() {
    let mut world = arena();
    world.enemies.push(Enemy::grunt(30 * ONE, 22 * ONE));
    let pad = GamepadState::new();
    assert_eq!(frame(&mut world, &escape(100_000), &pad), Pointer::Release);
    assert_eq!(world.state, GameState::Paused);
    // the frame in which the game is paused is still played
    assert_eq!(world.enemies[0].pos.x, 29_650_000);
    // while paused nothing moves
    let mut attempt = idle(100_000);
    attempt.keys.w_down = true;
    attempt.mouse.delta_x = 5000;
    assert_eq!(frame(&mut world, &attempt, &pad), Pointer::Keep);
    assert_eq!(world.state, GameState::Paused);
    assert_eq!(world.enemies[0].pos.x, 29_650_000);
    assert_eq!(world.player.pos, Vec3 { x: 10 * ONE, y: 1_700_000, z: 22 * ONE });
    assert_eq!(world.player.yaw, 0);
    // enter does not resume
    assert_eq!(frame(&mut world, &enter(100_000), &pad), Pointer::Keep);
    assert_eq!(world.state, GameState::Paused);
    assert_eq!(frame(&mut world, &escape(100_000), &pad), Pointer::Grab);
    assert_eq!(world.state, GameState::Playing);
    // the frame in which the game resumes is not played
    assert_eq!(world.enemies[0].pos.x, 29_650_000);
}

#[test]
fn the_gamepad_pauses_and_resumes() {
    let rest = GamepadState::new();
    let start = GamepadState { start_just_pressed: true, ..rest };
    let east = GamepadState { b_just_pressed: true, ..rest };
    let mut world = arena();
    assert_eq!(frame(&mut world, &idle(1_000), &start), Pointer::Release);
    assert_eq!(world.state, GameState::Paused);
    assert_eq!(frame(&mut world, &idle(1_000), &east), Pointer::Grab);
    assert_eq!(world.state, GameState::Playing);
    // the east button does not pause
    assert_eq!(frame(&mut world, &idle(1_000), &east), Pointer::Keep);
    assert_eq!(world.state, GameState::Playing);
    assert_eq!(frame(&mut world, &idle(1_000), &start), Pointer::Release);
    assert_eq!(frame(&mut world, &idle(1_000), &start), Pointer::Grab);
    assert_eq!(world.state, GameState::Playing);
}

#[test]
fn a_player_without_health_is_dead() {
    let mut world = arena();
    world.player.health = 5 * ONE;
    world.enemies.push(Enemy::grunt(11 * ONE, 22 * ONE));
    let pad = GamepadState::new();
    let mut input = idle(16_000);
    input.time = 2_000_000;
    assert_eq!(frame(&mut world, &input, &pad), Pointer::Release);
    assert_eq!(world.player.health, 0);
    assert_eq!(world.state, GameState::Dead);
    // dead is dead: nothing moves, and only confirm leads on
    assert_eq!(frame(&mut world, &escape(16_000), &pad), Pointer::Keep);
    assert_eq!(world.state, GameState::Dead);
    assert_eq!(frame(&mut world, &enter(16_000), &pad), Pointer::Keep);
    assert_eq!(world.state, GameState::Menu);
    // the menu shows what is left of the run until a new one starts
    assert_eq!(world.player.health, 0);
    assert_eq!(world.enemies.len(), 1);
}

#[test]
fn death_outranks_pause_and_victory() {
    let mut world = arena();
    world.player.health = 0;
    world.player.pos = Vec3 { x: 34 * ONE, y: 1_700_000, z: 22 * ONE };
    let pad = GamepadState::new();
    assert_eq!(frame(&mut world, &escape(16_000), &pad), Pointer::Release);
    assert_eq!(world.state, GameState::Dead);
}

#[test]
fn pause_outranks_victory() {
    let mut world = arena();
    world.player.pos = Vec3 { x: 34 * ONE, y: 1_700_000, z: 22 * ONE };
    let pad = GamepadState::new();
    assert_eq!(frame(&mut world, &escape(16_000), &pad), Pointer::Release);
    assert_eq!(world.state, GameState::Paused);
    // resumed, the victory is found again
    assert_eq!(frame(&mut world, &escape(16_000), &pad), Pointer::Grab);
    assert_eq!(frame(&mut world, &idle(16_000), &pad), Pointer::Release);
    assert_eq!(world.state, GameState::Victory);
}

#[test]
fn victory_takes_dead_enemies_and_the_exit() {
    let mut world = arena();
    world.enemies.push(Enemy::grunt(30 * ONE, 10 * ONE));
    // at the exit, but an enemy lives
    world.player.pos = Vec3 { x: 34 * ONE, y: 1_700_000, z: 22 * ONE };
    check_victory(&mut world);
    assert_eq!(world.state, GameState::Playing);
    // the last enemy killed, but five units from the exit
    world.player.pos = Vec3 { x: 29 * ONE, y: 1_700_000, z: 22 * ONE };
    strike(&mut world, 0, 50 * ONE, 0);
    assert_eq!(world.alive_enemies(), 0);
    check_victory(&mut world);
    assert_eq!(world.state, GameState::Playing);
    // two units away is not yet near enough
    world.player.pos.x = 32 * ONE;
    check_victory(&mut world);
    assert_eq!(world.state, GameState::Playing);
    world.player.pos.x = 32_000_001;
    check_victory(&mut world);
    assert_eq!(world.state, GameState::Victory);
}

#[test]
fn the_exit_is_reached_on_the_ground_plane() {
    let mut world = arena();
    world.player.pos = Vec3 { x: 35_200_000, y: 90 * ONE, z: 23_600_000 };
    // 1.2 and 1.6 make 2.0
    check_victory(&mut world);
    assert_eq!(world.state, GameState::Playing);
    world.player.pos.z = 23_599_999;
    check_victory(&mut world);
    assert_eq!(world.state, GameState::Victory);
}

#[test]
fn a_frame_of_play_finds_the_victory() {
    let mut world = arena();
    world.enemies.push(Enemy::grunt(30 * ONE, 10 * ONE));
    world.enemies[0].dead = true;
    world.player.pos = Vec3 { x: 29 * ONE, y: 1_700_000, z: 22 * ONE };
    let pad = GamepadState::new();
    let mut input = idle(100_000);
    assert_eq!(frame(&mut world, &input, &pad), Pointer::Keep);
    assert_eq!(world.state, GameState::Playing);
    // walking east at 8 per second: 3.2 in four frames, past 32
    input.keys.w_down = true;
    for _ in 0..3 {
        assert_eq!(frame(&mut world, &input, &pad), Pointer::Keep);
        assert_eq!(world.state, GameState::Playing);
    }
    assert_eq!(world.player.pos.x, 31_400_000);
    assert_eq!(frame(&mut world, &input, &pad), Pointer::Release);
    assert_eq!(world.player.pos.x, 32_200_000);
    assert_eq!(world.state, GameState::Victory);
}

#[test]
fn a_level_without_an_exit_has_it_at_8_8() {
    let mut world = arena();
    world.level.grid[5][8] = '.';
    world.player.pos = Vec3 { x: 34 * ONE, y: 1_700_000, z: 22 * ONE };
    check_victory(&mut world);
    assert_eq!(world.state, GameState::Playing);
    world.player.pos = Vec3 { x: 8 * ONE, y: 1_700_000, z: 9 * ONE };
    check_victory(&mut world);
    assert_eq!(world.state, GameState::Victory);
}

#[test]
fn confirming_a_victory_loads_the_next_level() {
    let mut world = World::new();
    let pad = GamepadState::new();
    frame(&mut world, &enter(16_000), &pad);
    // a run in full swing
    world.player.score = 1234;
    world.player.kills = 7;
    world.total_kills = 7;
    world.player.health = 55 * ONE;
    world.player.armor = 20 * ONE;
    world.player.speed_boost = 4_000_000;
    world.player.damage_boost = 3_000_000;
    world.player.weapons[1].ammo = 5;
    world.player.weapons[3].ammo = 0;
    world.player.weapons[2].last_shot = 99;
    world.player.current_weapon = 2;
    world.player.yaw = 1_000_000;
    world.player.pitch = -200_000;
    world.player.pos = Vec3 { x: 42 * ONE, y: 1_700_000, z: 70 * ONE };
    world.combo = 2;
    world.combo_timer = 1_000_000;
    world.projectiles.push(Projectile {
        pos: world.player.pos,
        vel: Vec3 { x: ONE, y: 0, z: 0 },
        damage: ONE,
        explosive: true,
    });
    world.particles.push(Particle {
        pos: world.player.pos,
        vel: Vec3 { x: 0, y: 0, z: 0 },
        color: Paint::Smoke,
        life: ONE,
        max_life: ONE,
        size: 1,
    });
    world.state = GameState::Victory;
    // victory waits for confirm
    assert_eq!(frame(&mut world, &idle(16_000), &pad), Pointer::Keep);
    assert_eq!(world.state, GameState::Victory);
    assert_eq!(world.current_level, 1);
    assert_eq!(frame(&mut world, &enter(16_000), &pad), Pointer::Grab);
    assert_eq!(world.state, GameState::Playing);
    assert_eq!(world.current_level, 2);
    assert_eq!(world.level.name, "DEMON'S LAIR");
    assert_eq!((world.level.width, world.level.height), (26, 20));
    // nothing is left in flight
    assert!(world.projectiles.is_empty());
    assert!(world.particles.is_empty());
    // the player stands at the new start and looks along x
    assert_eq!(world.player.pos, Vec3 { x: 6 * ONE, y: 1_700_000, z: 74 * ONE });
    assert_eq!((world.player.yaw, world.player.pitch), (0, 0));
    // the kills of the level start from zero
    assert_eq!(world.player.kills, 0);
    // what the player carries and has scored is kept
    assert_eq!(world.player.score, 1234);
    assert_eq!(world.total_kills, 7);
    assert_eq!((world.player.health, world.player.armor), (55 * ONE, 20 * ONE));
    assert_eq!((world.player.speed_boost, world.player.damage_boost), (4_000_000, 3_000_000));
    assert_eq!(world.player.weapons[1].ammo, 5);
    assert_eq!(world.player.weapons[3].ammo, 0);
    assert_eq!(world.player.weapons[2].last_shot, 99);
    assert_eq!(world.player.current_weapon, 2);
    assert_eq!((world.combo, world.combo_timer), (2, 1_000_000));
    // the enemies and pickups are those of the new level
    assert_eq!(world.enemies.len(), 7 + 5 + 7);
    assert_eq!(world.alive_enemies(), 19);
    assert_eq!(world.pickups.len(), 11);
}

#[test]
fn each_level_leads_to_the_next() {
    let mut world = World::new();
    let pad = GamepadState::new();
    frame(&mut world, &enter(16_000), &pad);
    let names = ["DEMON'S LAIR", "THE GAUNTLET", "THE MAZE OF CLARKSON", "CLARKSON'S FINAL STAND"];
    for (k, name) in names.iter().enumerate() {
        world.state = GameState::Victory;
        assert_eq!(frame(&mut world, &enter(16_000), &pad), Pointer::Grab);
        assert_eq!(world.current_level, k + 2);
        assert_eq!(world.level.name, *name);
        assert_eq!(world.state, GameState::Playing);
    }
}

#[test]
fn the_last_victory_ends_the_run() {
    let mut world = World::new();
    world.load_level(5);
    world.player.score = 4321;
    world.state = GameState::Victory;
    let pad = GamepadState::new();
    assert_eq!(frame(&mut world, &enter(16_000), &pad), Pointer::Keep);
    assert_eq!(world.state, GameState::Menu);
    assert_eq!(world.current_level, 5);
    assert_eq!(world.level.name, "CLARKSON'S FINAL STAND");
    assert_eq!(world.player.score, 4321);
}

#[test]
fn load_level_keeps_what_the_player_carries() {
    let mut world = World::new();
    world.player.score = 10;
    world.player.kills = 3;
    world.player.health = ONE;
    world.player.weapons[2].ammo = 1;
    world.load_level(3);
    assert_eq!(world.current_level, 3);
    assert_eq!(world.level.name, "THE GAUNTLET");
    assert_eq!(world.player.pos, Vec3 { x: 6 * ONE, y: 1_700_000, z: 78 * ONE });
    assert_eq!((world.player.score, world.player.kills, world.player.health), (10, 3, ONE));
    assert_eq!(world.player.weapons[2].ammo, 1);
    assert_eq!(world.state, GameState::Menu);
    // a number outside 1 to 5 loads the first level under that number
    world.load_level(9);
    assert_eq!(world.current_level, 9);
    assert_eq!(world.level.name, "THE BEGINNING");
}

#[test]
fn spawning_again_replaces_what_was_there() {
    let mut world = World::new();
    world.enemies[0].dead = true;
    world.enemies.push(Enemy::heavy(0, 0));
    world.pickups[0].collected = true;
    world.pickups.push(Pickup::with_phase(0, 0, PickupType::Armor, 0));
    world.spawn_enemies();
    world.spawn_pickups();
    assert_eq!(world.enemies.len(), 7);
    assert_eq!(world.alive_enemies(), 7);
    assert_eq!(world.pickups.len(), 6);
    assert!(world.pickups.iter().all(|p| !p.collected));
}

#[test]
fn the_feedback_signals_fade() {
    assert_eq!(fade(ONE, 5, 100_000), 500_000);
    assert_eq!(fade(ONE, 10, 100_000), 0);
    assert_eq!(fade(ONE, 2, 100_000), 800_000);
    assert_eq!(fade(100_000, 5, 100_000), 0);
    assert_eq!(fade(ONE, 5, u32::MAX), 0);
    assert_eq!(fade(ONE, 5, 0), ONE);
    let pad = GamepadState::new();
    for state in [GameState::Menu, GameState::Playing, GameState::Paused, GameState::Dead, GameState::Victory] {
        let mut world = arena();
        world.player.pos = Vec3 { x: 20 * ONE, y: 1_700_000, z: 22 * ONE };
        world.enemies.push(Enemy::grunt(40 * ONE, 40 * ONE));
        world.state = state;
        world.screen_shake = 800_000;
        world.muzzle_flash = ONE;
        world.hit_marker = ONE;
        world.player.damage_flash = 500_000;
        frame(&mut world, &idle(50_000), &pad);
        assert_eq!(world.screen_shake, 550_000);
        assert_eq!(world.muzzle_flash, 500_000);
        assert_eq!(world.hit_marker, 750_000);
        assert_eq!(world.player.damage_flash, 400_000);
    }
}

#[test]
fn a_streak_ends_when_its_window_has_run_out() {
    let mut world = arena();
    for _ in 0..4 {
        world.enemies.push(Enemy::grunt(40 * ONE, 40 * ONE));
    }
    world.enemies.push(Enemy::heavy(40 * ONE, 8 * ONE));
    let pad = GamepadState::new();
    strike(&mut world, 0, 50 * ONE, 0);
    assert_eq!((world.combo, world.player.score), (1, 150));
    // 1.9 seconds later the streak still runs
    frame(&mut world, &idle(1_900_000), &pad);
    assert_eq!((world.combo, world.combo_timer), (1, 100_000));
    strike(&mut world, 1, 50 * ONE, 0);
    assert_eq!((world.combo, world.player.score), (2, 350));
    // two seconds without a kill end it
    frame(&mut world, &idle(1_000_000), &pad);
    assert_eq!((world.combo, world.combo_timer), (2, 1_000_000));
    frame(&mut world, &idle(1_000_000), &pad);
    assert_eq!((world.combo, world.combo_timer), (0, 0));
    // and the next kill is the first of a new one
    strike(&mut world, 2, 50 * ONE, 0);
    assert_eq!((world.combo, world.player.score), (1, 500));
    // the window keeps running out
    frame(&mut world, &idle(3_000_000), &pad);
    assert_eq!((world.combo, world.combo_timer), (0, -1_000_000));
}

#[test]
fn the_view_turns_only_in_play() {
    let pad = GamepadState::new();
    let mut input = idle(16_000);
    input.mouse.delta_x = 1000;
    input.mouse.right_down = true;
    for state in [GameState::Menu, GameState::Paused, GameState::Dead, GameState::Victory] {
        let mut world = arena();
        world.state = state;
        update_aim(&mut world, &input, &pad);
        assert_eq!(world.player.yaw, 0);
        assert!(!world.player.is_aiming);
    }
    let mut world = arena();
    update_aim(&mut world, &input, &pad);
    assert!(world.player.is_aiming);
    assert_eq!(world.player.aim_transition, 96_000);
    // sensitivity 1 - 0.096 * 0.2 = 0.9808
    assert_eq!(world.player.yaw, -980);
}

#[test]
fn a_frame_of_play_moves_everything() {
    let mut world = arena();
    world.enemies.push(Enemy::grunt(30 * ONE, 22 * ONE));
    world.pickups.push(Pickup::with_phase(10_500_000, 22 * ONE, PickupType::Armor, 0));
    world.projectiles.push(Projectile {
        pos: Vec3 { x: 20 * ONE, y: ONE, z: 30 * ONE },
        vel: Vec3 { x: 0, y: 0, z: 25 * ONE },
        damage: 250 * ONE,
        explosive: true,
    });
    world.particles.push(Particle {
        pos: Vec3 { x: 20 * ONE, y: ONE, z: 10 * ONE },
        vel: Vec3 { x: ONE, y: 0, z: 0 },
        color: Paint::Smoke,
        life: 50_000,
        max_life: ONE,
        size: 1,
    });
    let pad = GamepadState::new();
    let mut input = idle(100_000);
    input.keys.w_down = true;
    input.time = 7_000_000;
    assert_eq!(frame(&mut world, &input, &pad), Pointer::Keep);
    assert_eq!(world.state, GameState::Playing);
    assert_eq!(world.player.pos.x, 10_800_000);
    assert_eq!(world.enemies[0].pos.x, 29_650_000);
    assert_eq!(world.projectiles[0].pos.z, 32_500_000);
    // the old particle has died; the pickup has thrown up 15 new ones
    assert!(world.pickups[0].collected);
    assert_eq!(world.player.armor, 50 * ONE);
    assert_eq!(world.particles.len(), 15);
    assert_eq!(world.player.score, 50);
    assert_eq!(world.combo_timer, -100_000);
}

#[test]
fn a_world_made_by_the_library_is_valid() {
    let mut world = World::new();
    assert!(world.is_valid());
    for num in 1..=5 {
        world.load_level(num);
        assert!(world.is_valid());
    }
    let pad = GamepadState::new();
    frame(&mut world, &enter(16_000), &pad);
    let mut input = idle(16_000);
    input.keys.w_down = true;
    input.mouse.left_down = true;
    for k in 0..200u64 {
        input.time = 1_000_000 + k * 16_000;
        frame(&mut world, &input, &pad);
        assert!(world.is_valid());
    }
    assert!(arena().is_valid());
}

#[test]
fn a_world_out_of_its_limits_is_not_valid() {
    let mut world = arena();
    world.player.health = 101 * ONE;
    assert!(!world.is_valid());
    let mut world = arena();
    world.player.current_weapon = 4;
    assert!(!world.is_valid());
    let mut world = arena();
    world.player.weapons[2].fire_rate = 0;
    assert!(!world.is_valid());
    let mut world = arena();
    world.player.pitch = 1_470_797;
    assert!(!world.is_valid());
    let mut world = arena();
    world.level.grid[3].pop();
    assert!(!world.is_valid());
    let mut world = arena();
    world.level.floor_heights.pop();
    assert!(!world.is_valid());
    let mut world = arena();
    world.level.floor_heights[2][2] = i64::MAX;
    assert!(!world.is_valid());
    let mut world = arena();
    world.level.width = 11;
    assert!(!world.is_valid());
    let mut world = arena();
    world.enemies.push(Enemy::grunt(i64::MAX, 0));
    assert!(!world.is_valid());
    let mut world = arena();
    world.pickups.push(Pickup::with_phase(0, i64::MIN, PickupType::Ammo, 0));
    assert!(!world.is_valid());
    let mut world = arena();
    world.projectiles.push(Projectile {
        pos: world.player.pos,
        vel: world.player.pos,
        damage: -1,
        explosive: false,
    });
    assert!(!world.is_valid());
    let mut world = arena();
    world.particles.push(Particle {
        pos: world.player.pos,
        vel: world.player.pos,
        color: Paint::Smoke,
        life: i64::MAX,
        max_life: 0,
        size: 0,
    });
    assert!(!world.is_valid());
    let mut world = arena();
    world.screen_shake = ONE + 1;
    assert!(!world.is_valid());
    let mut world = arena();
    world.combo_timer = i64::MIN;
    assert!(!world.is_valid());
}

#[test]
fn a_basis_is_valid_within_the_unit_box() {
    assert!(looking_east().is_valid());
    let mut basis = looking_east();
    basis.forward.y = ONE + 1;
    assert!(!basis.is_valid());
    let mut basis = looking_east();
    basis.right.x = -ONE - 1;
    assert!(!basis.is_valid());
    let zero = Vec3 { x: 0, y: 0, z: 0 };
    assert!(Basis { forward: zero, right: zero }.is_valid());
}
