use platformer_core::common::{apply_gravity, apply_velocity, move_towards, Gravity, Velocity};
use platformer_core::geom::Vec2i;

#[test]
fn velocity_defaults_to_rest() {
    assert_eq!(Velocity::default(), Velocity::new(0, 0));
}

#[test]
fn gravity_defaults_to_zero() {
    assert_eq!(Gravity::default(), Gravity(0));
}

#[test]
fn move_towards_advances_by_the_step() {
    assert_eq!(move_towards(0, 10, 3, 1), 3);
}

#[test]
fn move_towards_clamps_at_the_target() {
    // A step far larger than the distance stops exactly at the target.
    assert_eq!(move_towards(5, 0, 100, 1), 0);
    assert_eq!(move_towards(9, 10, 3, 1), 10);
}

#[test]
fn move_towards_converges_without_overshoot() {
    let mut v: i64 = 0;
    let mut trace = Vec::new();
    for _ in 0..6 {
        v = move_towards(v, 10, 3, 1);
        trace.push(v);
        assert!(v <= 10);
    }
    assert_eq!(trace, vec![3, 6, 9, 10, 10, 10]);
}

#[test]
fn move_towards_descends_toward_a_lower_target() {
    assert_eq!(move_towards(10, -10, 4, 2), 2);
    assert_eq!(move_towards(2, -10, 4, 2), -6);
    assert_eq!(move_towards(-6, -10, 4, 2), -10);
}

#[test]
fn move_towards_scales_the_step_by_delta() {
    // acceleration 5 over 3 time units advances by 15.
    assert_eq!(move_towards(0, 100, 5, 3), 15);
}

#[test]
fn apply_gravity_drops_vertical_velocity() {
    let mut v = Velocity::new(7, 10);
    apply_gravity(&mut v, &Gravity(4), 2);
    assert_eq!(v, Velocity::new(7, 2));
    apply_gravity(&mut v, &Gravity(4), 2);
    assert_eq!(v, Velocity::new(7, -6));
}

#[test]
fn apply_velocity_integrates_position() {
    let mut p = Vec2i::new(10, -3);
    apply_velocity(&mut p, &Velocity::new(2, 5));
    assert_eq!(p, Vec2i::new(12, 2));
}
