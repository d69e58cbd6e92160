use flappy_sim::bird::{Bird, JUMP_VELOCITY};
use flappy_sim::geom::{clamp_i64, collide, within_distance, SUBUNIT};

#[test]
fn test_gravity_lowers_velocity() {
    let mut bird = Bird::new();
    bird.movement(1000);
    // Gravity drains 15 subunits-per-millisecond of velocity each second.
    assert_eq!(bird.velocity, -15_000);
    // The position moves by the new velocity times the delta.
    assert_eq!(bird.y, -15_000_000);
}

#[test]
fn test_two_ticks_fall_faster_than_one() {
    let mut one = Bird::new();
    one.movement(16);
    let v1 = one.velocity;
    one.movement(16);
    assert!(one.velocity < v1);
    assert_eq!(v1 - one.velocity, 15 * 16);
}

#[test]
fn test_jump_overwrites_velocity() {
    let mut rising = Bird { y: 0, velocity: 4_000 };
    rising.jump();
    assert_eq!(rising.velocity, JUMP_VELOCITY);

    let mut falling = Bird { y: 0, velocity: -90_000 };
    falling.jump();
    assert_eq!(falling.velocity, JUMP_VELOCITY);
}

#[test]
fn test_out_of_bounds_detection() {
    let inside = Bird { y: 0, velocity: 0 };
    assert!(!inside.out_of_bounds());
    // Half the actor's 40-unit collider past the 300-unit ceiling.
    let above = Bird { y: 290 * SUBUNIT, velocity: 0 };
    assert!(above.out_of_bounds());
    let below = Bird { y: -290 * SUBUNIT, velocity: 0 };
    assert!(below.out_of_bounds());
}

#[test]
fn test_aabb_collision_cases() {
    // Rectangles centered (0,0) size (40,40) and (35,0) size (80,600)
    // overlap by 5 units on the x axis.
    assert!(collide(
        0,
        0,
        40 * SUBUNIT,
        40 * SUBUNIT,
        35 * SUBUNIT,
        0,
        80 * SUBUNIT,
        600 * SUBUNIT,
    ));
    // Moving the second rectangle to x = 100 separates them.
    assert!(!collide(
        0,
        0,
        40 * SUBUNIT,
        40 * SUBUNIT,
        100 * SUBUNIT,
        0,
        80 * SUBUNIT,
        600 * SUBUNIT,
    ));
}

#[test]
fn test_touching_edges_do_not_collide() {
    // Edge-to-edge contact is not an overlap: the comparison is strict.
    assert!(!collide(0, 0, 40 * SUBUNIT, 40 * SUBUNIT, 60 * SUBUNIT, 0, 80 * SUBUNIT, 600 * SUBUNIT));
}

#[test]
fn test_within_distance() {
    assert!(within_distance(0, 0, 3 * SUBUNIT, 4 * SUBUNIT, 6 * SUBUNIT));
    assert!(!within_distance(0, 0, 3 * SUBUNIT, 4 * SUBUNIT, 5 * SUBUNIT));
    assert!(!within_distance(0, 0, 100 * SUBUNIT, 0, 50 * SUBUNIT));
}

#[test]
fn test_rotation_derived_from_velocity() {
    // A jump tilts the actor slightly upward.
    let rising = Bird { y: 0, velocity: JUMP_VELOCITY };
    assert_eq!(rising.rotation_millideg(), 666);
    // A long fall clamps at ninety degrees down.
    let plunging = Bird { y: 0, velocity: -750_000 };
    assert_eq!(plunging.rotation_millideg(), -90_000);
    let level = Bird::new();
    assert_eq!(level.rotation_millideg(), 0);
}

#[test]
fn test_clamp() {
    assert_eq!(clamp_i64(5, 0, 10), 5);
    assert_eq!(clamp_i64(-5, 0, 10), 0);
    assert_eq!(clamp_i64(15, 0, 10), 10);
}
