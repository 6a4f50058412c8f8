//! Movement, spawning, respawn gating, input mapping, firing, and the
//! explosion lifecycle, on concrete values.

use invaders::components::{
    Entity, Movable, PlayerState, SpriteSize, Tags, Velocity, WinSize,
};
use invaders::explosion::{explosion_animation_system, explosion_to_spawn_system};
use invaders::fire::{enemy_fire_system, player_fire_system};
use invaders::input::{
    gamepad_input_system, normalize_heading, player_keyboard_event_system, quadrant_heading,
    KeyState, HEADING_DOWN,
};
use invaders::movement::{despawn_system, movement_system};
use invaders::spawn::{enemy_spawn_system, player_spawn_system, Cadence};
use invaders::tick::{tick, InputState, Spawners};
use invaders::world::World;

fn blank_world() -> World {
    World {
        entities: Vec::new(),
        enemy_count: 0,
        player: PlayerState { on: false, last_shot: -1, score: 0 },
        pending: Vec::new(),
    }
}

fn idle_keys() -> KeyState {
    KeyState {
        move_left: false,
        move_right: false,
        move_up: false,
        move_down: false,
        aim_up: false,
        aim_down: false,
        aim_left: false,
        aim_right: false,
    }
}

fn window() -> WinSize {
    WinSize { w: 1_080_000, h: 720_000 }
}

fn mover(x: i64, y: i64, vx: i64, vy: i64) -> Entity {
    Entity {
        alive: true,
        x,
        y,
        vel: Velocity { x: vx, y: vy },
        movable: Some(Movable { auto_despawn: true }),
        ..Entity::blank()
    }
}

#[test]
fn one_step_advances_a_twelfth_of_a_unit_short_of_exact() {
    // velocity (1, 0), base speed 500 units/s, tick 1/60 s: one step
    // covers 8.333 units (8.333... exactly, truncated at the milli)
    let mut w = blank_world();
    w.entities.push(mover(0, 0, 1000, 0));
    movement_system(&mut w, &window(), 500, 16_667);
    assert_eq!(w.entities[0].x, 8_333);
    assert_eq!(w.entities[0].y, 0);
    assert!(w.entities[0].alive);
}

#[test]
fn negative_velocity_truncates_toward_zero() {
    let mut w = blank_world();
    w.entities.push(mover(0, 0, -1000, 0));
    movement_system(&mut w, &window(), 500, 16_667);
    assert_eq!(w.entities[0].x, -8_333);
}

#[test]
fn auto_despawn_uses_the_new_position() {
    // the margin is 200 units past the half-height of 360: an entity
    // stepping beyond 560 units is destroyed, one stopping short is not
    let mut w = blank_world();
    w.entities.push(mover(0, 559_000, 0, 1500));
    w.entities.push(mover(0, 548_000, 0, 1500));
    movement_system(&mut w, &window(), 500, 16_667);
    // 1.5 * 500 / 60 = 12.5 units per tick
    assert_eq!(w.entities[0].y, 571_500);
    assert!(!w.entities[0].alive, "left the margin this step");
    assert_eq!(w.entities[1].y, 560_500);
    assert!(!w.entities[1].alive, "the check runs on the new position");
    let mut w2 = blank_world();
    w2.entities.push(mover(0, 547_000, 0, 1500));
    movement_system(&mut w2, &window(), 500, 16_667);
    assert_eq!(w2.entities[0].y, 559_500);
    assert!(w2.entities[0].alive, "still inside the margin");
}

#[test]
fn cull_removes_offscreen_enemy_and_counts_it() {
    let mut w = blank_world();
    w.entities.push(Entity {
        alive: true,
        tags: Tags { enemy: true, ..Entity::blank().tags },
        x: 900_000,
        y: 0,
        ..Entity::blank()
    });
    w.enemy_count = 1;
    despawn_system(&mut w, &window());
    assert!(!w.entities[0].alive);
    assert_eq!(w.enemy_count, 0);
}

#[test]
fn cull_never_touches_the_player() {
    let mut w = blank_world();
    w.entities.push(Entity {
        alive: true,
        tags: Tags { player: true, ..Entity::blank().tags },
        x: 900_000,
        y: 0,
        movable: Some(Movable { auto_despawn: false }),
        ..Entity::blank()
    });
    w.player.on = true;
    despawn_system(&mut w, &window());
    assert!(w.entities[0].alive);
}

#[test]
fn enemy_spawner_respects_the_cap() {
    let mut w = blank_world();
    enemy_spawn_system(&mut w, 0, 0, 2);
    enemy_spawn_system(&mut w, 10_000, 0, 2);
    enemy_spawn_system(&mut w, 20_000, 0, 2);
    assert_eq!(w.enemy_count, 2);
    assert_eq!(w.entities.len(), 2);
    assert!(w.entities[0].tags.enemy);
    assert_eq!(w.entities[0].scale, 500);
    assert_eq!(w.entities[0].size, SpriteSize { w: 93_000, h: 84_000 });
}

#[test]
fn respawn_waits_out_the_full_cooldown() {
    let t0: i64 = 1_000_000;
    // inside (t0, t0 + 2 s] the spawner must not fire
    for now in [t0 + 1, t0 + 1_000_000, t0 + 2_000_000] {
        let mut w = blank_world();
        w.player.last_shot = t0;
        player_spawn_system(&mut w, &window(), now);
        assert!(!w.player.on, "no respawn at {}", now);
        assert_eq!(w.entities.len(), 0);
    }
    // the first eligible instant past the delay fires
    let mut w = blank_world();
    w.player.last_shot = t0;
    w.player.score = 9;
    player_spawn_system(&mut w, &window(), t0 + 2_000_001);
    assert!(w.player.on);
    assert_eq!(w.player.last_shot, -1);
    assert_eq!(w.player.score, 0, "respawn resets the score");
    assert_eq!(w.entities.len(), 1);
    assert!(w.entities[0].tags.player);
    // bottom of a 720-unit window, lifted by the scaled half-height
    // plus the pad: -360 + 23.75 units
    assert_eq!(w.entities[0].y, -336_250);
    assert_eq!(w.entities[0].x, 0);
}

#[test]
fn never_shot_player_spawns_at_once() {
    let mut w = blank_world();
    player_spawn_system(&mut w, &window(), 0);
    assert!(w.player.on);
    assert_eq!(w.entities.len(), 1);
}

#[test]
fn live_player_blocks_the_spawner() {
    let mut w = blank_world();
    player_spawn_system(&mut w, &window(), 0);
    player_spawn_system(&mut w, &window(), 10_000_000);
    assert_eq!(w.entities.len(), 1, "never a second player");
}

#[test]
fn keyboard_maps_held_keys_onto_the_player() {
    let mut w = blank_world();
    player_spawn_system(&mut w, &window(), 0);
    let keys = KeyState { move_left: true, move_up: true, aim_down: true, ..idle_keys() };
    player_keyboard_event_system(&mut w, keys);
    assert_eq!(w.entities[0].vel, Velocity { x: -1000, y: 1000 });
    assert_eq!(w.entities[0].orientation.theta, HEADING_DOWN);
    // released keys zero the velocity and keep the heading
    player_keyboard_event_system(&mut w, idle_keys());
    assert_eq!(w.entities[0].vel, Velocity { x: 0, y: 0 });
    assert_eq!(w.entities[0].orientation.theta, HEADING_DOWN);
}

#[test]
fn gamepad_trigger_thrusts_along_the_heading() {
    let mut w = blank_world();
    player_spawn_system(&mut w, &window(), 0);
    gamepad_input_system(&mut w, 500, -250, false, 0, 1000, None);
    assert_eq!(w.entities[0].thrust_x, 5_000_000);
    assert_eq!(w.entities[0].thrust_y, -2_500_000);
    gamepad_input_system(&mut w, 500, -250, true, 0, 1000, None);
    assert_eq!(w.entities[0].thrust_x, 0);
    assert_eq!(w.entities[0].thrust_y, 100_000_000);
}

#[test]
fn gamepad_aim_offsets_and_normalizes() {
    let mut w = blank_world();
    player_spawn_system(&mut w, &window(), 0);
    // an aim of zero sits a quarter turn behind the sprite's rest
    gamepad_input_system(&mut w, 0, 0, false, 0, 0, Some(0));
    assert_eq!(w.entities[0].orientation.theta, 4_712);
    assert_eq!(w.entities[0].rotation, 4_712);
}

#[test]
fn quadrant_resolution_covers_all_four_quadrants() {
    // an acute angle of 0.5 rad, swung through the four sign pairs
    assert_eq!(quadrant_heading(500, false, false), 500);
    assert_eq!(quadrant_heading(500, true, false), 2_642);
    assert_eq!(quadrant_heading(500, true, true), 3_642);
    assert_eq!(quadrant_heading(500, false, true), 5_783);
    // the axes themselves
    assert_eq!(quadrant_heading(0, false, false), 0);
    assert_eq!(quadrant_heading(1_571, false, false), 1_571);
}

#[test]
fn multi_interval_step_advances_several_frames() {
    let mut w = blank_world();
    w.pending.push(invaders::components::ExplosionToSpawn { x: 0, y: 0 });
    explosion_to_spawn_system(&mut w);
    // one step spanning two and a half timer periods completes two
    // intervals and carries the remainder
    explosion_animation_system(&mut w, 125_000);
    assert_eq!(w.entities[0].frame, 2);
    assert_eq!(w.entities[0].timer.elapsed_us, 25_000);
    assert!(w.entities[0].alive);
    // one huge step runs the animation out entirely
    explosion_animation_system(&mut w, 10_000_000);
    assert_eq!(w.entities[0].frame, 16);
    assert!(!w.entities[0].alive);
}

#[test]
fn heading_normalization_wraps_into_one_turn() {
    assert_eq!(normalize_heading(0), 0);
    assert_eq!(normalize_heading(6_283), 0);
    assert_eq!(normalize_heading(7_000), 717);
    assert_eq!(normalize_heading(-1_571), 4_712);
    assert_eq!(normalize_heading(-6_283), 0);
}

#[test]
fn player_fire_spawns_one_laser_above_the_ship() {
    let mut w = blank_world();
    player_spawn_system(&mut w, &window(), 0);
    player_fire_system(&mut w, true, 0, 1000);
    assert_eq!(w.entities.len(), 2);
    let laser = &w.entities[1];
    assert!(laser.tags.laser && laser.tags.from_player);
    assert_eq!(laser.x, 0);
    assert_eq!(laser.y, -336_250 + 50_000);
    assert_eq!(laser.vel, Velocity { x: 0, y: 2000 });
    assert_eq!(laser.movable, Some(Movable { auto_despawn: true }));
    // without the edge signal nothing fires
    player_fire_system(&mut w, false, 0, 1000);
    assert_eq!(w.entities.len(), 2);
}

#[test]
fn enemy_fires_inside_its_band_only() {
    let mut w = blank_world();
    player_spawn_system(&mut w, &window(), 0);
    let px = w.entities[0].x;
    let py = w.entities[0].y;
    w.entities.push(Entity {
        alive: true,
        tags: Tags { enemy: true, ..Entity::blank().tags },
        x: px - 4_999,
        y: py + 300_000,
        ..Entity::blank()
    });
    w.entities.push(Entity {
        alive: true,
        tags: Tags { enemy: true, ..Entity::blank().tags },
        x: px - 5_000,
        y: py + 300_000,
        ..Entity::blank()
    });
    w.enemy_count = 2;
    enemy_fire_system(&mut w, true);
    // only the enemy whose half-open band holds the player's x fires:
    // the upper edge of the band is excluded
    assert_eq!(w.entities.len(), 4);
    let laser = &w.entities[3];
    assert!(laser.tags.laser && laser.tags.from_enemy);
    assert_eq!(laser.x, px - 4_999);
    assert_eq!(laser.y, py + 300_000 - 15_000);
    assert_eq!(laser.vel, Velocity { x: 0, y: -1500 });
    // the roll gates the whole pass
    enemy_fire_system(&mut w, false);
    assert_eq!(w.entities.len(), 4);
}

#[test]
fn explosion_event_becomes_entity_and_queue_drains() {
    let mut w = blank_world();
    w.pending.push(invaders::components::ExplosionToSpawn { x: 7_000, y: -3_000 });
    explosion_to_spawn_system(&mut w);
    assert_eq!(w.pending.len(), 0, "no event survives its tick");
    assert_eq!(w.entities.len(), 1);
    let e = &w.entities[0];
    assert!(e.alive && e.tags.explosion);
    assert_eq!((e.x, e.y), (7_000, -3_000));
    assert_eq!(e.frame, 0);
    assert_eq!(e.timer.elapsed_us, 0);
}

#[test]
fn explosion_expires_on_the_sixteenth_completion_never_earlier() {
    let mut w = blank_world();
    w.pending.push(invaders::components::ExplosionToSpawn { x: 0, y: 0 });
    explosion_to_spawn_system(&mut w);
    // 10 ms steps: a frame advance every fifth step, death at 0.8 s
    for step in 1..=79 {
        explosion_animation_system(&mut w, 10_000);
        assert!(w.entities[0].alive, "alive after {} steps", step);
        assert_eq!(w.entities[0].frame as i64, step * 10_000 / 50_000);
    }
    explosion_animation_system(&mut w, 10_000);
    assert!(!w.entities[0].alive, "destroyed by the sixteenth completion");
    assert_eq!(w.entities[0].frame, 16);
}

#[test]
fn cadence_reports_each_period_crossing() {
    let mut c = Cadence::new(1_000_000);
    let mut fired = 0;
    for _ in 0..120 {
        if c.advance(16_667) {
            fired += 1;
        }
    }
    // 120 ticks of 1/60 s cover just over two seconds
    assert_eq!(fired, 2);
}

#[test]
fn tick_preserves_the_population_invariants() {
    let mut w = blank_world();
    let mut sp = Spawners::new();
    let input = InputState {
        keys: idle_keys(),
        fire: false,
        fire_dir_x: 0,
        fire_dir_y: 1000,
        enemy_fire_roll: false,
        enemy_spawn_x: 0,
        enemy_spawn_y: 100_000,
    };
    let mut now: i64 = 0;
    for _ in 0..180 {
        now += 16_667;
        tick(&mut w, &mut sp, &window(), input, now, 16_667, 3);
        let live_enemies =
            w.entities.iter().filter(|e| e.alive && e.tags.enemy).count() as u32;
        assert_eq!(w.enemy_count, live_enemies, "counter matches census");
        let live_players =
            w.entities.iter().filter(|e| e.alive && e.tags.player).count();
        assert!(live_players <= 1, "at most one player");
        assert_eq!(w.pending.len(), 0);
    }
    // three seconds at one spawn per second, capped at three
    assert_eq!(w.enemy_count, 3);
    assert!(w.player.on);
}
