use vstd::prelude::*;
use crate::ball::{Ball, BallTag, ControllableBall, Vec2, BALL_DRAG, PLAYER_DRAG, PLAYER_RADIUS};
use crate::codec::{intent_of, all_autonomous, arena_observation, encode_arena, lemma_arena_observation_len};
use crate::movement::{DRAG_WHOLE, MAX_TICK_MS, MovementIntent, apply_drag, apply_intent, decayed, impulse, within_limit};
use crate::resources::{SimulationTimer, Trajectory, WorldState, home_count, home_reward, update_world_state};

verus! {

/// Tiles along each side of an arena.
pub const ARENA_TILES: i64 = 25;

/// Side of one floor tile, in thousandths of a unit.
pub const TILE_SIZE: i64 = 1000;

/// Radius of an autonomous ball, in thousandths of a unit.
pub const BALL_RADIUS: i64 = 500;

/// Autonomous balls in each arena.
pub const NUM_BALLS: usize = 50;

/// Length of an episode, in milliseconds.
pub const EPISODE_MS: u64 = 15_000;

/// Largest spawn half-extent an arena may have, in thousandths of a unit.
pub const COORD_LIMIT: i64 = 1_000_000_000_000_000;

/// Longest episode an arena may have, in milliseconds.
pub const MAX_EPISODE_MS: u64 = 1_000_000_000_000;

/// Who steers the player ball of an arena.
#[derive(PartialEq, Eq, Debug, Clone, Copy, Structural)]
pub enum ControllerType {
    /// Human input, read from the keyboard each tick.
    Keyboard,
    /// The shared policy, queried in one batch with the other such arenas.
    AI { training: bool },
}

pub open spec fn is_ai(c: ControllerType) -> bool {
    c is AI
}

/// The spawn half-extent of an arena side of `tiles` tiles: half the side,
/// less one ball diameter.
pub open spec fn spawn_extent(tiles: int) -> int {
    tiles * TILE_SIZE / 2 - 2 * BALL_RADIUS
}

/// A ball as spawned or reset: at rest, strictly within the spawn extents.
pub open spec fn spawned_within(b: Ball, x_max: int, z_max: int) -> bool {
    &&& -x_max <= b.position.x < x_max
    &&& -z_max <= b.position.z < z_max
    &&& b.velocity == Vec2 { x: 0, z: 0 }
}

/// A freshly spawned autonomous ball of an arena with these extents.
pub open spec fn fresh_ball(b: Ball, x_max: int, z_max: int) -> bool {
    &&& spawned_within(b, x_max, z_max)
    &&& b.radius == BALL_RADIUS
    &&& b.drag_coefficient == BALL_DRAG
    &&& b.class != BallTag::Player
}

/// `after` is `before` redrawn within the extents: same kind, radius and drag.
pub open spec fn redrawn(before: Ball, after: Ball, x_max: int, z_max: int) -> bool {
    &&& spawned_within(after, x_max, z_max)
    &&& after.class == before.class
    &&& after.radius == before.radius
    &&& after.drag_coefficient == before.drag_coefficient
}

/// `after` is `before` moved back to the origin and stopped.
pub open spec fn returned_home(before: Ball, after: Ball) -> bool {
    &&& after.position.x == 0 && after.position.z == 0
    &&& after.velocity.x == 0 && after.velocity.z == 0
    &&& after.class == before.class
    &&& after.radius == before.radius
    &&& after.drag_coefficient == before.drag_coefficient
}

/// The kind drawn for a random index in `0..4`.
pub open spec fn kind_for(i: int) -> BallTag {
    if i == 0 {
        BallTag::Red
    } else if i == 1 {
        BallTag::Blue
    } else if i == 2 {
        BallTag::Green
    } else {
        BallTag::Yellow
    }
}

/// Relies on rand::Rng::gen_range, on the thread-local generator of
/// rand::thread_rng: a value drawn from `low..high`, which it panics on when
/// empty.
#[verifier::external_body]
fn random_in(low: i64, high: i64) -> (r: i64)
    requires
        low < high,
    ensures
        low <= r < high,
{
    rand::Rng::gen_range(&mut rand::thread_rng(), low..high)
}

fn kind_from_index(i: i64) -> (r: BallTag)
    ensures
        r == kind_for(i as int),
{
    if i == 0 {
        BallTag::Red
    } else if i == 1 {
        BallTag::Blue
    } else if i == 2 {
        BallTag::Green
    } else {
        BallTag::Yellow
    }
}

/// A ball drawn at random within the extents, at rest.
fn random_ball(x_max: i64, z_max: i64) -> (r: Ball)
    requires
        0 < x_max <= COORD_LIMIT,
        0 < z_max <= COORD_LIMIT,
    ensures
        spawned_within(r, x_max as int, z_max as int),
        r.class != BallTag::Player,
        r.radius == BALL_RADIUS,
        r.drag_coefficient == BALL_DRAG,
{
    let x = random_in(-x_max, x_max);
    let z = random_in(-z_max, z_max);
    let class = kind_from_index(random_in(0, 4));
    Ball::spawn(BALL_RADIUS, Vec2 { x, z }, Vec2::zero(), class)
}

/// One arena: its balls, who steers its player, its episode timer, running
/// score and the trajectory of the current episode.
pub struct BallGameScene {
    pub trajectory: Trajectory,
    /// The autonomous balls, in the fixed order the observation uses.
    pub game_balls: Vec<Ball>,
    pub player_ball: Ball,
    pub controller: ControllerType,
    /// Balls are spawned with `-x_max <= x < x_max`, in thousandths.
    pub x_max: i64,
    /// Balls are spawned with `-z_max <= z < z_max`, in thousandths.
    pub z_max: i64,
    pub timer: SimulationTimer,
    pub score: WorldState,
}

/// `after` is `before` after one tick of its own drag.
pub open spec fn dragged(before: Ball, after: Ball) -> bool {
    after == Ball {
        velocity: Vec2 {
            x: decayed(before.velocity.x as int, before.drag_coefficient as int) as i64,
            z: decayed(before.velocity.z as int, before.drag_coefficient as int) as i64,
        },
        ..before
    }
}

/// `after` is `before` with `a` applied to its velocity over `dt_ms`.
pub open spec fn pushed(before: Ball, after: Ball, a: MovementIntent, dt_ms: int) -> bool {
    after == Ball {
        velocity: Vec2 {
            x: (before.velocity.x + impulse(a, dt_ms).0) as i64,
            z: (before.velocity.z + impulse(a, dt_ms).1) as i64,
        },
        ..before
    }
}

/// One tick of drag on each of `balls`, each with its own coefficient.
pub fn apply_ball_drag(balls: &mut Vec<Ball>)
    requires
        forall|i: int|
            0 <= i < old(balls)@.len() ==> (#[trigger] old(balls)@[i]).drag_coefficient <= DRAG_WHOLE,
    ensures
        final(balls)@.len() == old(balls)@.len(),
        forall|i: int|
            0 <= i < final(balls)@.len() ==> dragged(old(balls)@[i], #[trigger] final(balls)@[i]),
{
    let mut i: usize = 0;
    while i < balls.len()
        invariant
            i <= balls@.len(),
            balls@.len() == old(balls)@.len(),
            forall|j: int| 0 <= j < i ==> dragged(old(balls)@[j], #[trigger] balls@[j]),
            forall|j: int| i <= j < balls@.len() ==> #[trigger] balls@[j] == old(balls)@[j],
            forall|j: int|
                0 <= j < old(balls)@.len() ==> (#[trigger] old(balls)@[j]).drag_coefficient
                    <= DRAG_WHOLE,
        decreases old(balls)@.len() - i,
    {
        let b: &mut Ball = &mut balls[i];
        let d = b.drag_coefficient;
        apply_drag(&mut b.velocity, d);
        i = i + 1;
    }
}

/// Two lists of balls with the same kinds and places.
pub open spec fn same_places(a: Seq<Ball>, b: Seq<Ball>) -> bool {
    &&& a.len() == b.len()
    &&& forall|i: int|
        0 <= i < a.len() ==> (#[trigger] a[i]).class == b[i].class && a[i].position == b[i].position
}

pub proof fn lemma_home_count_same_places(a: Seq<Ball>, b: Seq<Ball>)
    requires
        same_places(a, b),
    ensures
        home_count(a) == home_count(b),
    decreases a.len(),
{
    if a.len() > 0 {
        let (ia, ib) = (a.drop_last(), b.drop_last());
        assert forall|i: int| 0 <= i < ia.len() implies (#[trigger] ia[i]).class == ib[i].class
            && ia[i].position == ib[i].position by {
            assert(ia[i] == a[i] && ib[i] == b[i]);
        }
        lemma_home_count_same_places(ia, ib);
        assert(a.last() == a[a.len() - 1] && b.last() == b[b.len() - 1]);
    }
}

/// What a tick ends with for one arena.
pub enum TickOutcome {
    Continue,
    /// The timer fired: the arena was reset and this is the trajectory of
    /// the episode that ended, for the learning step.
    EpisodeEnded(Trajectory),
}

/// What `finish_tick` did to an arena: drag, reward and timer, and the end
/// of the episode when the timer fired.
pub open spec fn tick_finished(
    before: BallGameScene,
    after: BallGameScene,
    r: TickOutcome,
    dt_ms: int,
) -> bool {
    &&& after.wf()
    &&& after.controller == before.controller
    &&& after.x_max == before.x_max
    &&& after.z_max == before.z_max
    &&& after.game_balls@.len() == before.game_balls@.len()
    &&& after.timer.duration_ms == before.timer.duration_ms
    &&& (r is EpisodeEnded) == (before.timer.elapsed_ms + dt_ms >= before.timer.duration_ms)
    &&& r is Continue ==> {
        &&& dragged(before.player_ball, after.player_ball)
        &&& forall|i: int|
            0 <= i < after.game_balls@.len() ==> dragged(
                before.game_balls@[i],
                #[trigger] after.game_balls@[i],
            )
        &&& after.score.reward == home_count(before.game_balls@)
        &&& after.score.agg_score == before.score.agg_score + home_count(before.game_balls@)
        &&& after.timer.elapsed_ms == before.timer.elapsed_ms + dt_ms
        &&& after.trajectory == before.trajectory
    }
    &&& r matches TickOutcome::EpisodeEnded(t) ==> {
        &&& t.state@ == before.trajectory.state@
        &&& t.action@ == before.trajectory.action@
        &&& t.reward@ == before.trajectory.reward@
        &&& after.trajectory.state@.len() == 0
        &&& returned_home(before.player_ball, after.player_ball)
        &&& forall|i: int|
            0 <= i < after.game_balls@.len() ==> redrawn(
                before.game_balls@[i],
                #[trigger] after.game_balls@[i],
                before.x_max as int,
                before.z_max as int,
            )
        &&& after.timer.elapsed_ms == 0
        &&& after.score.agg_score == 0 && after.score.reward == 0
    }
}

/// What `act` did to an arena: the player took action `a`, and an arena the
/// policy steers logged the tick (observation, action, reward) first.
pub open spec fn acted(before: BallGameScene, after: BallGameScene, a: MovementIntent, dt_ms: int) -> bool {
    &&& after.wf()
    &&& pushed(before.player_ball, after.player_ball, a, dt_ms)
    &&& after.game_balls == before.game_balls
    &&& after.controller == before.controller
    &&& after.x_max == before.x_max
    &&& after.z_max == before.z_max
    &&& after.timer == before.timer
    &&& after.score == before.score
    &&& is_ai(before.controller) ==> {
        &&& after.trajectory.state@.len() == before.trajectory.state@.len() + 1
        &&& forall|i: int|
            0 <= i < before.trajectory.state@.len() ==> #[trigger] after.trajectory.state@[i]
                == before.trajectory.state@[i]
        &&& after.trajectory.state@.last()@ == before.observation()
        &&& after.trajectory.action@ == before.trajectory.action@.push(a)
        &&& after.trajectory.reward@ == before.trajectory.reward@.push(
            home_count(before.game_balls@) as u64,
        )
    }
    &&& !is_ai(before.controller) ==> after.trajectory == before.trajectory
}

impl BallGameScene {
    pub open spec fn wf(&self) -> bool {
        &&& self.player_ball.class == BallTag::Player
        &&& self.player_ball.drag_coefficient <= DRAG_WHOLE
        &&& all_autonomous(self.game_balls@)
        &&& forall|i: int|
            0 <= i < self.game_balls@.len() ==> (#[trigger] self.game_balls@[i]).drag_coefficient
                <= DRAG_WHOLE
        &&& self.trajectory.wf()
        &&& self.timer.wf()
        &&& self.timer.duration_ms <= MAX_EPISODE_MS
        &&& 0 < self.x_max <= COORD_LIMIT
        &&& 0 < self.z_max <= COORD_LIMIT
    }

    /// The observation of this arena as the policy reads it.
    pub open spec fn observation(&self) -> Seq<i64> {
        arena_observation(self.player_ball, self.game_balls@)
    }

    /// A fresh arena: `NUM_BALLS` autonomous balls of random kinds at random
    /// places within the spawn extents, all at rest, and the player at rest
    /// at the arena's origin.
    pub fn new(controller: ControllerType) -> (r: BallGameScene)
        ensures
            r.wf(),
            r.controller == controller,
            r.x_max == spawn_extent(ARENA_TILES as int),
            r.z_max == spawn_extent(ARENA_TILES as int),
            r.game_balls@.len() == NUM_BALLS,
            forall|i: int|
                0 <= i < r.game_balls@.len() ==> fresh_ball(
                    #[trigger] r.game_balls@[i],
                    r.x_max as int,
                    r.z_max as int,
                ),
            r.player_ball.position.x == 0 && r.player_ball.position.z == 0,
            r.player_ball.velocity.x == 0 && r.player_ball.velocity.z == 0,
            r.player_ball.radius == PLAYER_RADIUS,
            r.player_ball.drag_coefficient == PLAYER_DRAG,
            r.trajectory.state@.len() == 0,
            r.score.agg_score == 0 && r.score.reward == 0,
            r.timer.duration_ms == EPISODE_MS && r.timer.elapsed_ms == 0,
    {
        let extent: i64 = ARENA_TILES * TILE_SIZE / 2 - 2 * BALL_RADIUS;
        let mut game_balls: Vec<Ball> = Vec::new();
        let mut i: usize = 0;
        while i < NUM_BALLS
            invariant
                i <= NUM_BALLS,
                extent == 11_500,
                game_balls@.len() == i,
                forall|j: int|
                    0 <= j < i ==> fresh_ball(#[trigger] game_balls@[j], extent as int, extent as int),
            decreases NUM_BALLS - i,
        {
            game_balls.push(random_ball(extent, extent));
            i = i + 1;
        }
        BallGameScene {
            trajectory: Trajectory::new(),
            game_balls,
            player_ball: ControllableBall::spawn(Vec2::zero()),
            controller,
            x_max: extent,
            z_max: extent,
            timer: SimulationTimer::new(EPISODE_MS),
            score: WorldState::new(),
        }
    }

    /// The observation of this arena: the player's four features, then six
    /// for each autonomous ball in order, `4 + 6 * N` values in all.
    pub fn encode(&self) -> (r: Vec<i64>)
        ensures
            r@ == self.observation(),
            self.wf() ==> r@.len() == 4 + 6 * self.game_balls@.len(),
    {
        proof {
            if self.wf() {
                lemma_arena_observation_len(self.player_ball, self.game_balls@);
            }
        }
        encode_arena(&self.player_ball, &self.game_balls)
    }

    /// Redraws every autonomous ball at random within the spawn extents and
    /// stops it, and puts the player back at the origin at rest. Kinds,
    /// radii, drag and the order of the balls are kept.
    pub fn reset_scene(&mut self)
        requires
            old(self).wf(),
        ensures
            final(self).wf(),
            final(self).game_balls@.len() == old(self).game_balls@.len(),
            forall|i: int|
                0 <= i < final(self).game_balls@.len() ==> redrawn(
                    old(self).game_balls@[i],
                    #[trigger] final(self).game_balls@[i],
                    old(self).x_max as int,
                    old(self).z_max as int,
                ),
            returned_home(old(self).player_ball, final(self).player_ball),
            final(self).trajectory == old(self).trajectory,
            final(self).controller == old(self).controller,
            final(self).x_max == old(self).x_max,
            final(self).z_max == old(self).z_max,
            final(self).timer == old(self).timer,
            final(self).score == old(self).score,
    {
        let x_max = self.x_max;
        let z_max = self.z_max;
        let mut i: usize = 0;
        while i < self.game_balls.len()
            invariant
                i <= self.game_balls@.len(),
                x_max == old(self).x_max,
                z_max == old(self).z_max,
                0 < x_max <= COORD_LIMIT,
                0 < z_max <= COORD_LIMIT,
                self.game_balls@.len() == old(self).game_balls@.len(),
                forall|j: int|
                    0 <= j < i ==> redrawn(
                        old(self).game_balls@[j],
                        #[trigger] self.game_balls@[j],
                        x_max as int,
                        z_max as int,
                    ),
                forall|j: int|
                    i <= j < self.game_balls@.len() ==> #[trigger] self.game_balls@[j]
                        == old(self).game_balls@[j],
                self.player_ball == old(self).player_ball,
                self.trajectory == old(self).trajectory,
                self.controller == old(self).controller,
                self.x_max == x_max,
                self.z_max == z_max,
                self.timer == old(self).timer,
                self.score == old(self).score,
            decreases old(self).game_balls@.len() - i,
        {
            let x = random_in(-x_max, x_max);
            let z = random_in(-z_max, z_max);
            let b: &mut Ball = &mut self.game_balls[i];
            b.position = Vec2 { x, z };
            b.velocity = Vec2::zero();
            i = i + 1;
        }
        self.player_ball.position = Vec2::zero();
        self.player_ball.velocity = Vec2::zero();
        assert(all_autonomous(self.game_balls@)) by {
            assert forall|j: int| 0 <= j < self.game_balls@.len() implies #[trigger] self.game_balls@[j].class
                != BallTag::Player by {
                assert(old(self).game_balls@[j].class != BallTag::Player);
            }
        };
    }

    /// One tick of drag on every ball of the arena, the player included.
    pub fn drag_tick(&mut self)
        requires
            old(self).wf(),
        ensures
            final(self).wf(),
            dragged(old(self).player_ball, final(self).player_ball),
            final(self).game_balls@.len() == old(self).game_balls@.len(),
            forall|i: int|
                0 <= i < final(self).game_balls@.len() ==> dragged(
                    old(self).game_balls@[i],
                    #[trigger] final(self).game_balls@[i],
                ),
            final(self).trajectory == old(self).trajectory,
            final(self).controller == old(self).controller,
            final(self).x_max == old(self).x_max,
            final(self).z_max == old(self).z_max,
            final(self).timer == old(self).timer,
            final(self).score == old(self).score,
    {
        let drag = self.player_ball.drag_coefficient;
        apply_drag(&mut self.player_ball.velocity, drag);
        apply_ball_drag(&mut self.game_balls);
        assert(all_autonomous(self.game_balls@)) by {
            assert forall|j: int| 0 <= j < self.game_balls@.len() implies #[trigger] self.game_balls@[j].class
                != BallTag::Player by {
                assert(old(self).game_balls@[j].class != BallTag::Player);
            }
        };
        assert forall|j: int| 0 <= j < self.game_balls@.len() implies (#[trigger] self.game_balls@[j]).drag_coefficient
            <= DRAG_WHOLE by {
            assert(old(self).game_balls@[j].drag_coefficient <= DRAG_WHOLE);
        }
    }

    /// Ends the episode: the score goes back to zero, the balls are redrawn
    /// and stopped, the player returns to the origin, the timer starts over,
    /// and the trajectory is handed out and replaced by an empty one.
    pub fn on_simulation_end(&mut self) -> (t: Trajectory)
        requires
            old(self).wf(),
        ensures
            final(self).wf(),
            t.state@ == old(self).trajectory.state@,
            t.action@ == old(self).trajectory.action@,
            t.reward@ == old(self).trajectory.reward@,
            final(self).trajectory.state@.len() == 0,
            final(self).game_balls@.len() == old(self).game_balls@.len(),
            forall|i: int|
                0 <= i < final(self).game_balls@.len() ==> redrawn(
                    old(self).game_balls@[i],
                    #[trigger] final(self).game_balls@[i],
                    old(self).x_max as int,
                    old(self).z_max as int,
                ),
            returned_home(old(self).player_ball, final(self).player_ball),
            final(self).controller == old(self).controller,
            final(self).x_max == old(self).x_max,
            final(self).z_max == old(self).z_max,
            final(self).timer.duration_ms == old(self).timer.duration_ms,
            final(self).timer.elapsed_ms == 0,
            final(self).score.agg_score == 0 && final(self).score.reward == 0,
    {
        self.score.reset();
        self.reset_scene();
        self.timer.restart();
        let mut t = Trajectory::new();
        std::mem::swap(&mut t, &mut self.trajectory);
        t
    }

    /// The rest of a tick once the player has moved: drag on every ball, the
    /// tick's reward, and the timer; when the timer fires the episode ends
    /// (see `on_simulation_end`) and its trajectory comes back.
    pub fn finish_tick(&mut self, dt_ms: u64) -> (r: TickOutcome)
        requires
            old(self).wf(),
            dt_ms <= MAX_TICK_MS,
            old(self).score.agg_score + old(self).game_balls@.len() <= u64::MAX,
        ensures
            tick_finished(*old(self), *final(self), r, dt_ms as int),
    {
        self.drag_tick();
        proof {
            lemma_home_count_same_places(old(self).game_balls@, self.game_balls@);
        }
        update_world_state(&mut self.score, &self.game_balls);
        let ghost before = self.timer;
        let ended = self.timer.tick(dt_ms);
        if !ended {
            proof {
                vstd::arithmetic::div_mod::lemma_small_mod(
                    (before.elapsed_ms + dt_ms) as nat,
                    before.duration_ms as nat,
                );
            }
        }
        if ended {
            TickOutcome::EpisodeEnded(self.on_simulation_end())
        } else {
            TickOutcome::Continue
        }
    }

    /// Moves the player by action `a` over a tick of `dt_ms`; an arena the
    /// policy steers first logs the tick in its trajectory.
    pub fn act(&mut self, a: MovementIntent, dt_ms: u64)
        requires
            old(self).wf(),
            dt_ms <= MAX_TICK_MS,
            within_limit(old(self).player_ball.velocity),
        ensures
            acted(*old(self), *final(self), a, dt_ms as int),
    {
        if matches!(self.controller, ControllerType::AI { .. }) {
            let obs = self.encode();
            let reward = home_reward(&self.game_balls);
            self.trajectory.push(obs, a, reward);
        }
        apply_intent(a, &mut self.player_ball.velocity, dt_ms);
    }
}

/// The observation depends on the balls alone: two arenas whose balls are in
/// the same state encode to the same vector, whatever their trajectories,
/// timers or scores, and one row of policy output always decodes alike.
pub proof fn lemma_encode_deterministic(a: BallGameScene, b: BallGameScene, r1: Seq<i64>, r2: Seq<i64>)
    requires
        a.player_ball == b.player_ball,
        a.game_balls@ == b.game_balls@,
        r1 == r2,
    ensures
        a.observation() == b.observation(),
        intent_of(r1) == intent_of(r2),
{
}

} // verus!
