//! Collision-resolver scenarios: overlapping and disjoint pairs, score
//! and explosion-event accounting, and the player-hit passes.

use invaders::collision::{
    enemy_laser_hit_player_system, enemy_player_collision_system, player_laser_hit_enemy_system,
};
use invaders::components::{Entity, Movable, PlayerState, SpriteSize, Tags};
use invaders::world::World;

fn blank_world() -> World {
    World {
        entities: Vec::new(),
        enemy_count: 0,
        player: PlayerState { on: false, last_shot: -1, score: 0 },
        pending: Vec::new(),
    }
}

fn enemy_at(x: i64, y: i64) -> Entity {
    Entity {
        alive: true,
        tags: Tags { enemy: true, ..Entity::blank().tags },
        x,
        y,
        scale: 1000,
        size: SpriteSize { w: 93_000, h: 84_000 },
        ..Entity::blank()
    }
}

fn player_laser_at(x: i64, y: i64) -> Entity {
    Entity {
        alive: true,
        tags: Tags { laser: true, from_player: true, ..Entity::blank().tags },
        x,
        y,
        scale: 1000,
        size: SpriteSize { w: 9_000, h: 54_000 },
        movable: Some(Movable { auto_despawn: true }),
        ..Entity::blank()
    }
}

fn enemy_laser_at(x: i64, y: i64) -> Entity {
    Entity {
        alive: true,
        tags: Tags { laser: true, from_enemy: true, ..Entity::blank().tags },
        x,
        y,
        scale: 1000,
        size: SpriteSize { w: 17_000, h: 55_000 },
        movable: Some(Movable { auto_despawn: true }),
        ..Entity::blank()
    }
}

fn player_at(x: i64, y: i64) -> Entity {
    Entity {
        alive: true,
        tags: Tags { player: true, ..Entity::blank().tags },
        x,
        y,
        scale: 1000,
        size: SpriteSize { w: 98_000, h: 75_000 },
        movable: Some(Movable { auto_despawn: false }),
        ..Entity::blank()
    }
}

#[test]
fn overlapping_projectile_destroys_enemy() {
    // projectile at (10, 50) sized 9 by 54, enemy at (10, 52) sized
    // 93 by 84: the boxes overlap on both axes
    let mut w = blank_world();
    w.entities.push(player_laser_at(10_000, 50_000));
    w.entities.push(enemy_at(10_000, 52_000));
    w.enemy_count = 1;
    player_laser_hit_enemy_system(&mut w);
    assert!(!w.entities[0].alive, "projectile destroyed");
    assert!(!w.entities[1].alive, "enemy destroyed");
    assert_eq!(w.enemy_count, 0);
    assert_eq!(w.player.score, 1, "exactly one point");
    assert_eq!(w.pending.len(), 1, "exactly one explosion event");
    assert_eq!(w.pending[0].x, 10_000);
    assert_eq!(w.pending[0].y, 52_000);
}

#[test]
fn disjoint_pair_resolves_to_no_change() {
    let mut w = blank_world();
    // 200 units apart horizontally: no overlap
    w.entities.push(player_laser_at(-100_000, 0));
    w.entities.push(enemy_at(100_000, 0));
    w.enemy_count = 1;
    let before_entities = w.entities.clone();
    player_laser_hit_enemy_system(&mut w);
    assert_eq!(w.entities, before_entities);
    assert_eq!(w.enemy_count, 1);
    assert_eq!(w.player.score, 0);
    assert_eq!(w.pending.len(), 0);
}

#[test]
fn touching_edges_do_not_overlap() {
    // the overlap test is strict: centres exactly a half-extent sum
    // apart do not collide ((9 + 93) / 2 = 51 units)
    let mut w = blank_world();
    w.entities.push(player_laser_at(0, 0));
    w.entities.push(enemy_at(51_000, 0));
    w.enemy_count = 1;
    player_laser_hit_enemy_system(&mut w);
    assert_eq!(w.player.score, 0);
    assert!(w.entities[0].alive && w.entities[1].alive);
    // one milli-unit closer and they collide
    let mut w2 = blank_world();
    w2.entities.push(player_laser_at(0, 0));
    w2.entities.push(enemy_at(50_999, 0));
    w2.enemy_count = 1;
    player_laser_hit_enemy_system(&mut w2);
    assert_eq!(w2.player.score, 1);
}

#[test]
fn each_projectile_fells_one_enemy() {
    let mut w = blank_world();
    w.entities.push(player_laser_at(0, 0));
    w.entities.push(enemy_at(0, 0));
    w.entities.push(enemy_at(10_000, 0));
    w.enemy_count = 2;
    player_laser_hit_enemy_system(&mut w);
    // one projectile can only fell one enemy
    assert_eq!(w.enemy_count, 1);
    assert_eq!(w.player.score, 1);
    assert_eq!(w.pending.len(), 1);
    assert!(!w.entities[0].alive);
    assert!(w.entities[1].alive ^ w.entities[2].alive);
}

#[test]
fn enemy_projectile_fells_player() {
    let mut w = blank_world();
    w.entities.push(player_at(0, 0));
    w.entities.push(enemy_laser_at(0, 10_000));
    w.player.on = true;
    enemy_laser_hit_player_system(&mut w, 7_000_000);
    assert!(!w.entities[0].alive, "player destroyed");
    assert!(!w.entities[1].alive, "projectile destroyed");
    assert!(!w.player.on);
    assert_eq!(w.player.last_shot, 7_000_000);
    assert_eq!(w.pending.len(), 1);
    assert_eq!(w.pending[0].x, 0);
    assert_eq!(w.pending[0].y, 0);
}

#[test]
fn first_enemy_projectile_hit_wins() {
    let mut w = blank_world();
    w.entities.push(player_at(0, 0));
    w.entities.push(enemy_laser_at(0, 0));
    w.entities.push(enemy_laser_at(5_000, 0));
    w.player.on = true;
    enemy_laser_hit_player_system(&mut w, 1_000);
    // exactly one projectile is consumed by the hit
    let dead_lasers =
        (!w.entities[1].alive as u32) + (!w.entities[2].alive as u32);
    assert_eq!(dead_lasers, 1);
    assert_eq!(w.pending.len(), 1);
}

#[test]
fn missing_player_makes_projectile_pass_a_no_op() {
    let mut w = blank_world();
    w.entities.push(enemy_laser_at(0, 0));
    let before_entities = w.entities.clone();
    enemy_laser_hit_player_system(&mut w, 500);
    assert_eq!(w.entities, before_entities);
    assert_eq!(w.pending.len(), 0);
    assert_eq!(w.player.last_shot, -1);
}

#[test]
fn enemy_contact_fells_both() {
    let mut w = blank_world();
    w.entities.push(player_at(0, 0));
    w.entities.push(enemy_at(20_000, 10_000));
    w.enemy_count = 1;
    w.player.on = true;
    enemy_player_collision_system(&mut w, 42_000_000);
    assert!(!w.entities[0].alive);
    assert!(!w.entities[1].alive);
    assert_eq!(w.enemy_count, 0);
    assert!(!w.player.on);
    assert_eq!(w.player.last_shot, 42_000_000);
    // one explosion per destroyed entity: player first, enemy second
    assert_eq!(w.pending.len(), 2);
    assert_eq!((w.pending[0].x, w.pending[0].y), (0, 0));
    assert_eq!((w.pending[1].x, w.pending[1].y), (20_000, 10_000));
}

#[test]
fn distant_enemy_leaves_player_alone() {
    let mut w = blank_world();
    w.entities.push(player_at(0, 0));
    w.entities.push(enemy_at(400_000, 0));
    w.enemy_count = 1;
    w.player.on = true;
    enemy_player_collision_system(&mut w, 1);
    assert!(w.entities[0].alive && w.entities[1].alive);
    assert_eq!(w.enemy_count, 1);
    assert!(w.player.on);
    assert_eq!(w.pending.len(), 0);
}

#[test]
fn destruction_is_idempotent_across_passes() {
    // a projectile that already fell in the first pass is skipped by a
    // second run: no score or event is booked twice
    let mut w = blank_world();
    w.entities.push(player_laser_at(10_000, 50_000));
    w.entities.push(enemy_at(10_000, 52_000));
    w.enemy_count = 1;
    player_laser_hit_enemy_system(&mut w);
    player_laser_hit_enemy_system(&mut w);
    assert_eq!(w.player.score, 1);
    assert_eq!(w.enemy_count, 0);
    assert_eq!(w.pending.len(), 1);
}
