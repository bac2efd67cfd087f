use balltrainer::ball::Vec2;
use balltrainer::movement::{apply_drag, apply_intent, apply_movement, MovementIntent};

#[test]
fn no_flags_leave_velocity_unchanged() {
    let mut v = Vec2 { x: 1234, z: -567 };
    apply_movement(false, false, false, false, &mut v, 16);
    assert_eq!(v, Vec2 { x: 1234, z: -567 });
}

#[test]
fn up_and_down_cancel() {
    let mut v = Vec2 { x: 0, z: 0 };
    apply_movement(true, true, false, false, &mut v, 100);
    assert_eq!(v, Vec2 { x: 0, z: 0 });
    let mut w = Vec2 { x: 0, z: 0 };
    apply_movement(true, true, false, true, &mut w, 100);
    assert_eq!(w, Vec2 { x: 25_000, z: 0 });
    let mut u = Vec2 { x: 0, z: 0 };
    apply_movement(true, true, true, false, &mut u, 100);
    assert_eq!(u, Vec2 { x: -25_000, z: 0 });
}

#[test]
fn single_direction_steps() {
    // 250 units/s for one second: 250_000 thousandths per second.
    let mut v = Vec2 { x: 10, z: 20 };
    apply_movement(true, false, false, false, &mut v, 1000);
    assert_eq!(v, Vec2 { x: 10, z: 20 - 250_000 });
    let mut w = Vec2 { x: 0, z: 0 };
    apply_movement(false, true, false, false, &mut w, 1000);
    assert_eq!(w, Vec2 { x: 0, z: 250_000 });
}

#[test]
fn diagonal_step_is_normalised() {
    let mut v = Vec2 { x: 0, z: 0 };
    apply_movement(false, true, false, true, &mut v, 1000);
    // floor(250000 / sqrt(2)) = 176776
    assert_eq!(v, Vec2 { x: 176_776, z: 176_776 });
    let mut w = Vec2 { x: 0, z: 0 };
    apply_movement(true, false, true, false, &mut w, 1000);
    assert_eq!(w, Vec2 { x: -176_776, z: -176_776 });
}

#[test]
fn movement_accumulates() {
    let mut v = Vec2 { x: 0, z: 0 };
    let a = MovementIntent { up: false, down: false, left: false, right: true };
    apply_intent(a, &mut v, 10);
    apply_intent(a, &mut v, 10);
    assert_eq!(v, Vec2 { x: 5_000, z: 0 });
}

#[test]
fn zero_tick_adds_nothing() {
    let mut v = Vec2 { x: 7, z: 7 };
    apply_movement(true, false, true, false, &mut v, 0);
    assert_eq!(v, Vec2 { x: 7, z: 7 });
}

#[test]
fn drag_tenth_of_ten() {
    let mut v = Vec2 { x: 10_000, z: 0 };
    apply_drag(&mut v, 100);
    assert_eq!(v, Vec2 { x: 9_000, z: 0 });
}

#[test]
fn drag_rounds_toward_zero_on_both_signs() {
    let mut v = Vec2 { x: 5, z: -5 };
    apply_drag(&mut v, 100);
    assert_eq!(v, Vec2 { x: 4, z: -4 });
    let mut w = Vec2 { x: -10_000, z: 123 };
    apply_drag(&mut w, 10);
    assert_eq!(w, Vec2 { x: -9_900, z: 121 });
}

#[test]
fn repeated_drag_never_reverses() {
    let mut v = Vec2 { x: 10_000, z: -10_000 };
    let mut prev = v;
    for _ in 0..500 {
        apply_drag(&mut v, 100);
        assert!(v.x >= 0 && v.x <= prev.x);
        assert!(v.z <= 0 && v.z >= prev.z);
        prev = v;
    }
    assert_eq!(v, Vec2 { x: 0, z: 0 });
}

#[test]
fn full_and_zero_drag() {
    let mut v = Vec2 { x: 10_000, z: -3 };
    apply_drag(&mut v, 0);
    assert_eq!(v, Vec2 { x: 10_000, z: -3 });
    apply_drag(&mut v, 1000);
    assert_eq!(v, Vec2 { x: 0, z: 0 });
}
