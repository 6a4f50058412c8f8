//! The force accumulator, the central pull, and the integer square root,
//! on concrete values.

use invaders::components::PlayerState;
use invaders::nbody::{
    apply_central_gravity, apply_gravitational_forces, isqrt_u128, pair_force, spawn_body,
};
use invaders::world::World;

fn blank_world() -> World {
    World {
        entities: Vec::new(),
        enemy_count: 0,
        player: PlayerState { on: false, last_shot: -1, score: 0 },
        pending: Vec::new(),
    }
}

#[test]
fn isqrt_matches_exact_squares_and_floors() {
    assert_eq!(isqrt_u128(0), 0);
    assert_eq!(isqrt_u128(1), 1);
    assert_eq!(isqrt_u128(15), 3);
    assert_eq!(isqrt_u128(16), 4);
    assert_eq!(isqrt_u128(17), 4);
    assert_eq!(isqrt_u128(1_000_000), 1_000);
    assert_eq!(isqrt_u128(u128::MAX), (1u128 << 64) - 1);
}

#[test]
fn pair_attraction_follows_the_inverse_square_formula() {
    // two 1 kg bodies 200 units apart on the x axis:
    // magnitude = 1000 * 1000 * 66740 / (200_000 ^ 2) = 1 milli-newton,
    // fully along x, pulling each toward the other
    let mut w = blank_world();
    spawn_body(&mut w, 100_000, 0, 1_000);
    spawn_body(&mut w, -100_000, 0, 1_000);
    let f01 = pair_force(&w.entities[0], &w.entities[1]);
    assert_eq!(f01, (-1, 0));
    let f10 = pair_force(&w.entities[1], &w.entities[0]);
    assert_eq!(f10, (1, 0));
}

#[test]
fn coincident_bodies_feel_no_force() {
    let mut w = blank_world();
    spawn_body(&mut w, 5_000, 5_000, 1_000);
    spawn_body(&mut w, 5_000, 5_000, 1_000);
    apply_gravitational_forces(&mut w);
    assert_eq!((w.entities[0].force_x, w.entities[0].force_y), (0, 0));
    assert_eq!((w.entities[1].force_x, w.entities[1].force_y), (0, 0));
}

#[test]
fn symmetric_pair_receives_equal_and_opposite_forces() {
    let mut w = blank_world();
    spawn_body(&mut w, 100_000, 0, 1_000);
    spawn_body(&mut w, -100_000, 0, 1_000);
    apply_gravitational_forces(&mut w);
    let a = (w.entities[0].force_x, w.entities[0].force_y);
    let b = (w.entities[1].force_x, w.entities[1].force_y);
    assert_eq!(a, (-1, 0));
    assert_eq!(b, (1, 0));
    assert_eq!((a.0 + b.0, a.1 + b.1), (0, 0), "forces sum to zero");
}

#[test]
fn accumulated_forces_sum_to_zero_over_many_bodies() {
    let mut w = blank_world();
    let scene: [(i64, i64, i64); 5] = [
        (-30_000, 0, 500_000),
        (150_000, 60_000, 800_000),
        (0, 30_000, 900_000),
        (100_000, 100_000, 10_000),
        (-200_000, -100_000, 40_000),
    ];
    for (x, y, m) in scene {
        spawn_body(&mut w, x, y, m);
    }
    apply_gravitational_forces(&mut w);
    let sum_x: i64 = w.entities.iter().map(|e| e.force_x).sum();
    let sum_y: i64 = w.entities.iter().map(|e| e.force_y).sum();
    assert_eq!((sum_x, sum_y), (0, 0));
    // and something was actually applied
    assert!(w.entities.iter().any(|e| e.force_x != 0 || e.force_y != 0));
}

#[test]
fn thrust_composes_with_gravity_in_one_overwrite() {
    let mut w = blank_world();
    spawn_body(&mut w, 100_000, 0, 1_000);
    spawn_body(&mut w, -100_000, 0, 1_000);
    w.entities[0].thrust_x = 500;
    w.entities[0].thrust_y = -200;
    apply_gravitational_forces(&mut w);
    // the single authoritative composition: thrust plus gravity
    assert_eq!((w.entities[0].force_x, w.entities[0].force_y), (499, -200));
    assert_eq!((w.entities[1].force_x, w.entities[1].force_y), (1, 0));
}

#[test]
fn massless_records_are_left_alone() {
    let mut w = blank_world();
    spawn_body(&mut w, 0, 0, 1_000);
    spawn_body(&mut w, 100_000, 0, 1_000);
    w.entities.push(invaders::components::Entity {
        alive: true,
        x: 50_000,
        ..invaders::components::Entity::blank()
    });
    apply_gravitational_forces(&mut w);
    let bystander = &w.entities[2];
    assert_eq!((bystander.force_x, bystander.force_y), (0, 0));
}

#[test]
fn central_pull_resolves_along_the_position() {
    // a 3-4-5 triangle: at (300, 400) the ten-newton pull resolves to
    // (-6, -8) newtons, pointing at the origin
    let mut w = blank_world();
    spawn_body(&mut w, 300_000, 400_000, 1_000);
    apply_central_gravity(&mut w);
    assert_eq!((w.entities[0].force_x, w.entities[0].force_y), (-6_000, -8_000));
}

#[test]
fn central_pull_guards_the_origin() {
    let mut w = blank_world();
    spawn_body(&mut w, 0, 0, 1_000);
    w.entities[0].force_x = 123;
    apply_central_gravity(&mut w);
    // a body exactly at the origin keeps its force untouched
    assert_eq!(w.entities[0].force_x, 123);
}
