use balltrainer::ball::{Ball, BallTag, Vec2};
use balltrainer::codec::ShapeError;
use balltrainer::coordinator::{
    arena_centers, count_ai, end_ticks, gather_observations, move_balls, scatter_actions,
};
use balltrainer::movement::MovementIntent;
use balltrainer::resources::{SimulationTimer, Trajectory, WorldState};
use balltrainer::scene::{BallGameScene, ControllerType, TickOutcome};

/// An arena whose player position tags it.
fn tagged(tag: i64, controller: ControllerType) -> BallGameScene {
    BallGameScene {
        trajectory: Trajectory::new(),
        game_balls: vec![Ball::spawn(500, Vec2 { x: 1, z: 1 }, Vec2 { x: 0, z: 0 }, BallTag::Red)],
        player_ball: Ball::spawn(1500, Vec2 { x: tag, z: 0 }, Vec2 { x: 0, z: 0 }, BallTag::Player),
        controller,
        x_max: 11_500,
        z_max: 11_500,
        timer: SimulationTimer::new(15_000),
        score: WorldState::new(),
    }
}

fn ai() -> ControllerType {
    ControllerType::AI { training: true }
}

fn flags(up: bool, down: bool, left: bool, right: bool) -> MovementIntent {
    MovementIntent { up, down, left, right }
}

#[test]
fn gather_then_scatter_keeps_arena_order() {
    let scenes = vec![
        tagged(1, ai()),
        tagged(2, ControllerType::Keyboard),
        tagged(3, ai()),
        tagged(4, ai()),
    ];
    assert_eq!(count_ai(&scenes), 3);
    let rows = gather_observations(&scenes);
    assert_eq!(rows.len(), 3);
    assert_eq!(rows[0][2], 1);
    assert_eq!(rows[1][2], 3);
    assert_eq!(rows[2][2], 4);
    assert_eq!(rows[0].len(), 10);
    let batch = vec![flags(true, false, false, false), flags(false, true, false, false), flags(false, false, true, false)];
    let keyboard = flags(false, false, false, true);
    let per = scatter_actions(&scenes, &batch, keyboard).unwrap();
    assert_eq!(per, vec![batch[0], keyboard, batch[1], batch[2]]);
}

#[test]
fn scatter_rejects_wrong_batch_size() {
    let scenes = vec![tagged(1, ai()), tagged(2, ai())];
    let k = flags(false, false, false, false);
    assert_eq!(scatter_actions(&scenes, &vec![k], k), Err(ShapeError::BatchSize));
    assert_eq!(scatter_actions(&scenes, &vec![k, k, k], k), Err(ShapeError::BatchSize));
}

#[test]
fn move_balls_applies_rows_to_their_arenas() {
    let mut scenes = vec![tagged(1, ai()), tagged(2, ControllerType::Keyboard), tagged(3, ai())];
    let rows = vec![vec![0, 0, 0, 1000], vec![0, 1000, 0, 0]];
    let keyboard = flags(true, false, false, false);
    move_balls(&mut scenes, &rows, keyboard, 100).unwrap();
    assert_eq!(scenes[0].player_ball.velocity, Vec2 { x: 25_000, z: 0 });
    assert_eq!(scenes[1].player_ball.velocity, Vec2 { x: 0, z: -25_000 });
    assert_eq!(scenes[2].player_ball.velocity, Vec2 { x: 0, z: 25_000 });
    assert_eq!(scenes[0].trajectory.len(), 1);
    assert_eq!(scenes[1].trajectory.len(), 0);
    assert_eq!(scenes[2].trajectory.state[0][2], 3);
}

#[test]
fn move_balls_rejects_malformed_batch_unchanged() {
    let mut scenes = vec![tagged(1, ai()), tagged(2, ai())];
    let k = flags(true, true, true, true);
    let short = vec![vec![1000, 1000, 1000, 1000]];
    assert_eq!(move_balls(&mut scenes, &short, k, 100), Err(ShapeError::BatchSize));
    let narrow = vec![vec![1000, 1000, 1000, 1000], vec![1000]];
    assert_eq!(move_balls(&mut scenes, &narrow, k, 100), Err(ShapeError::ActionWidth));
    assert_eq!(scenes[0].player_ball.velocity, Vec2 { x: 0, z: 0 });
    assert_eq!(scenes[0].trajectory.len(), 0);
}

#[test]
fn end_ticks_reports_each_arena() {
    let mut scenes = vec![tagged(1, ai()), tagged(2, ai())];
    scenes[1].timer.elapsed_ms = 14_990;
    let out = end_ticks(&mut scenes, 20);
    assert_eq!(out.len(), 2);
    assert!(matches!(out[0], TickOutcome::Continue));
    assert!(matches!(out[1], TickOutcome::EpisodeEnded(_)));
    assert_eq!(scenes[0].score.reward, 1);
    assert_eq!(scenes[1].score.reward, 0);
    assert_eq!(scenes[1].player_ball.position, Vec2 { x: 0, z: 0 });
}

#[test]
fn arena_grid_centres() {
    let c = arena_centers();
    assert_eq!(c.len(), 36);
    assert_eq!(c[0], Vec2 { x: -180_000, z: -180_000 });
    assert_eq!(c[1], Vec2 { x: -180_000, z: -120_000 });
    assert_eq!(c[6], Vec2 { x: -120_000, z: -180_000 });
    assert_eq!(c[35], Vec2 { x: 120_000, z: 120_000 });
}
