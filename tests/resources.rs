use balltrainer::ball::{Ball, BallTag, ControllableBall, Vec2};
use balltrainer::movement::MovementIntent;
use balltrainer::resources::{
    check_simulation_end, home_reward, update_world_state, ProgramInputs, SimulationTimer,
    Trajectory, WorldState,
};

fn at(tag: BallTag, x: i64, z: i64) -> Ball {
    Ball::spawn(500, Vec2 { x, z }, Vec2 { x: 0, z: 0 }, tag)
}

fn home_of(tag: BallTag) -> (i64, i64) {
    let (sx, sz) = tag.target_quadrant().unwrap();
    (sx as i64 * 3000, sz as i64 * 4000)
}

#[test]
fn program_inputs_from_args() {
    let args = vec![
        "balltrainer".to_string(),
        "--headless".to_string(),
        "--other".to_string(),
    ];
    let p = ProgramInputs::from_args(&args);
    assert!(p.headless);
    assert!(!p.ai_control);
    let q = ProgramInputs::from_args(&vec!["--ai-control".to_string(), "--headless".to_string()]);
    assert_eq!(q, ProgramInputs { headless: true, ai_control: true });
    let r = ProgramInputs::from_args(&vec!["--headlessly".to_string()]);
    assert_eq!(r, ProgramInputs { headless: false, ai_control: false });
}

#[test]
fn timer_fires_and_carries_remainder() {
    let mut t = SimulationTimer::new(15_000);
    assert!(!t.tick(10_000));
    assert_eq!(t.elapsed_ms, 10_000);
    assert!(t.tick(6_000));
    assert_eq!(t.elapsed_ms, 1_000);
    assert!(!check_simulation_end(&mut t, 13_999));
    assert!(check_simulation_end(&mut t, 1));
    assert_eq!(t.elapsed_ms, 0);
    t.tick(5);
    t.restart();
    assert_eq!(t.elapsed_ms, 0);
}

#[test]
fn reward_all_fifty_home() {
    let kinds = [BallTag::Red, BallTag::Blue, BallTag::Green, BallTag::Yellow];
    let mut balls = Vec::new();
    for i in 0..50 {
        let k = kinds[i % 4];
        let (x, z) = home_of(k);
        balls.push(at(k, x, z));
    }
    assert_eq!(home_reward(&balls), 50);
}

#[test]
fn reward_none_home() {
    let kinds = [BallTag::Red, BallTag::Blue, BallTag::Green, BallTag::Yellow];
    let mut balls = Vec::new();
    for i in 0..50 {
        let k = kinds[i % 4];
        let (x, z) = home_of(k);
        balls.push(at(k, -x, z));
    }
    assert_eq!(home_reward(&balls), 0);
}

#[test]
fn reward_counts_mixed_and_ignores_player() {
    let balls = vec![
        at(BallTag::Red, 1, 1),
        at(BallTag::Red, 0, 1),
        at(BallTag::Blue, -1, -1),
        ControllableBall::spawn(Vec2 { x: 5, z: 5 }),
    ];
    assert_eq!(home_reward(&balls), 2);
}

#[test]
fn world_state_accumulates_and_resets() {
    let mut s = WorldState::new();
    let balls = vec![at(BallTag::Red, 1, 1), at(BallTag::Green, -1, 1), at(BallTag::Yellow, -1, 1)];
    update_world_state(&mut s, &balls);
    assert_eq!(s.reward, 2);
    assert_eq!(s.agg_score, 2);
    update_world_state(&mut s, &balls);
    assert_eq!(s.reward, 2);
    assert_eq!(s.agg_score, 4);
    s.reset();
    assert_eq!(s, WorldState { agg_score: 0, reward: 0 });
}

#[test]
fn trajectory_push_keeps_parallel_sequences() {
    let mut t = Trajectory::new();
    assert_eq!(t.len(), 0);
    let a = MovementIntent { up: true, down: false, left: false, right: false };
    t.push(vec![1, 2, 3], a, 7);
    t.push(vec![4], a, 8);
    assert_eq!(t.len(), 2);
    assert_eq!(t.state, vec![vec![1, 2, 3], vec![4]]);
    assert_eq!(t.reward, vec![7, 8]);
    assert_eq!(t.action.len(), 2);
}
