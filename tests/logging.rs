use balltrainer::ball::{Ball, BallTag, ControllableBall, Vec2};
use balltrainer::logging::{track_ball_positions, AggBallPositions};

#[test]
fn render_empty_log() {
    assert_eq!(AggBallPositions::new().render(), "");
}

#[test]
fn track_then_render_blocks() {
    let mut agg = AggBallPositions::new();
    let mut balls = vec![
        Ball::spawn(500, Vec2 { x: 1500, z: -250 }, Vec2 { x: 0, z: 0 }, BallTag::Red),
        ControllableBall::spawn(Vec2 { x: 0, z: 12_345 }),
    ];
    track_ball_positions(&mut agg, &balls);
    balls[0].position = Vec2 { x: -7, z: 100_000 };
    track_ball_positions(&mut agg, &balls);
    assert_eq!(agg.positions.len(), 2);
    assert_eq!(agg.positions[0].points.len(), 2);
    assert_eq!(agg.positions[1].class, BallTag::Player);
    assert_eq!(
        agg.render(),
        "Class: Red\n1.500,-0.250\n-0.007,100.000\n---\nClass: Player\n0.000,12.345\n0.000,12.345\n---\n"
    );
}

#[test]
fn track_adds_traces_for_new_balls_only() {
    let mut agg = AggBallPositions::new();
    let one = vec![Ball::spawn(500, Vec2 { x: 1, z: 2 }, Vec2 { x: 0, z: 0 }, BallTag::Blue)];
    track_ball_positions(&mut agg, &one);
    let two = vec![
        Ball::spawn(500, Vec2 { x: 3, z: 4 }, Vec2 { x: 0, z: 0 }, BallTag::Blue),
        Ball::spawn(500, Vec2 { x: 5, z: 6 }, Vec2 { x: 0, z: 0 }, BallTag::Green),
    ];
    track_ball_positions(&mut agg, &two);
    assert_eq!(agg.positions[0].points, vec![Vec2 { x: 1, z: 2 }, Vec2 { x: 3, z: 4 }]);
    assert_eq!(agg.positions[1].points, vec![Vec2 { x: 5, z: 6 }]);
    assert_eq!(agg.positions[1].class, BallTag::Green);
    assert_eq!(
        agg.render(),
        "Class: Blue\n0.001,0.002\n0.003,0.004\n---\nClass: Green\n0.005,0.006\n---\n"
    );
}

#[test]
fn render_extreme_values() {
    let mut agg = AggBallPositions::new();
    let balls = vec![Ball::spawn(500, Vec2 { x: i64::MIN, z: i64::MAX }, Vec2 { x: 0, z: 0 }, BallTag::Yellow)];
    track_ball_positions(&mut agg, &balls);
    assert_eq!(
        agg.render(),
        "Class: Yellow\n-9223372036854775.808,9223372036854775.807\n---\n"
    );
}
