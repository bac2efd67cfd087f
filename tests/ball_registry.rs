use balltrainer::ball::{Ball, BallTag, ControllableBall, Rgb, Vec2, BALL_DRAG, PLAYER_DRAG};

fn ball_at(tag: BallTag, x: i64, z: i64) -> Ball {
    Ball::spawn(500, Vec2 { x, z }, Vec2 { x: 0, z: 0 }, tag)
}

#[test]
fn home_quadrant_signs_are_units() {
    let kinds = [BallTag::Red, BallTag::Blue, BallTag::Green, BallTag::Yellow];
    for k in kinds.iter() {
        let (sx, sz) = k.target_quadrant().unwrap();
        assert!(sx == 1 || sx == -1);
        assert!(sz == 1 || sz == -1);
    }
    assert_eq!(BallTag::Player.target_quadrant(), None);
}

#[test]
fn home_quadrants_per_kind() {
    assert_eq!(BallTag::Red.target_quadrant(), Some((1, 1)));
    assert_eq!(BallTag::Blue.target_quadrant(), Some((-1, -1)));
    assert_eq!(BallTag::Green.target_quadrant(), Some((-1, 1)));
    assert_eq!(BallTag::Yellow.target_quadrant(), Some((1, -1)));
}

#[test]
fn red_ball_home_quadrant_membership() {
    let red = ball_at(BallTag::Red, 0, 0);
    assert!(red.correct_quadrant(5000, 3000));
    assert!(!red.correct_quadrant(-5000, 3000));
    assert!(!red.correct_quadrant(0, 3000));
}

#[test]
fn other_kinds_home_quadrant_membership() {
    assert!(ball_at(BallTag::Blue, 0, 0).correct_quadrant(-1, -1));
    assert!(!ball_at(BallTag::Blue, 0, 0).correct_quadrant(1, -1));
    assert!(ball_at(BallTag::Green, 0, 0).correct_quadrant(-7, 2));
    assert!(ball_at(BallTag::Yellow, 0, 0).correct_quadrant(7, -2));
    assert!(!ball_at(BallTag::Yellow, 0, 0).correct_quadrant(7, 0));
}

#[test]
fn player_is_never_home() {
    let p = ControllableBall::spawn(Vec2 { x: 4000, z: 4000 });
    assert!(!p.correct_quadrant(5000, 5000));
    assert!(!p.is_home());
}

#[test]
fn is_home_reads_position() {
    assert!(ball_at(BallTag::Red, 100, 100).is_home());
    assert!(!ball_at(BallTag::Red, 100, -100).is_home());
}

#[test]
fn colors_per_kind() {
    assert_eq!(BallTag::Blue.color(), Rgb { r: 38, g: 70, b: 83 });
    assert_eq!(BallTag::Yellow.color(), Rgb { r: 233, g: 196, b: 106 });
    assert_eq!(BallTag::Green.color(), Rgb { r: 42, g: 157, b: 143 });
    assert_eq!(BallTag::Red.color(), Rgb { r: 231, g: 111, b: 81 });
    assert_eq!(BallTag::Player.color(), Rgb { r: 255, g: 255, b: 255 });
}

#[test]
fn drag_and_restitution_per_kind() {
    assert_eq!(BallTag::Player.drag_coefficient(), PLAYER_DRAG);
    assert_eq!(BallTag::Red.drag_coefficient(), BALL_DRAG);
    assert_eq!(PLAYER_DRAG, 100);
    assert_eq!(BALL_DRAG, 10);
    assert_eq!(BallTag::Player.restitution(), 0);
    assert_eq!(BallTag::Green.restitution(), 700);
}

#[test]
fn spawn_sets_drag_from_kind() {
    let b = Ball::spawn(500, Vec2 { x: 1, z: 2 }, Vec2 { x: 3, z: 4 }, BallTag::Yellow);
    assert_eq!(b.drag_coefficient, BALL_DRAG);
    assert_eq!(b.class, BallTag::Yellow);
    assert_eq!(b.radius, 500);
    assert_eq!(b.position, Vec2 { x: 1, z: 2 });
    assert_eq!(b.velocity, Vec2 { x: 3, z: 4 });
    let p = ControllableBall::spawn(Vec2 { x: 0, z: 0 });
    assert_eq!(p.class, BallTag::Player);
    assert_eq!(p.drag_coefficient, PLAYER_DRAG);
    assert_eq!(p.radius, 1500);
    assert_eq!(p.velocity, Vec2 { x: 0, z: 0 });
}
