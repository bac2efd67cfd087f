use vstd::prelude::*;
use crate::ball::{Ball, in_home};
use crate::movement::MovementIntent;

verus! {

/// The flags the program was launched with.
#[derive(PartialEq, Eq, Debug, Clone, Copy, Structural)]
pub struct ProgramInputs {
    /// Run without a window, on a fixed-step loop.
    pub headless: bool,
    /// Let the policy steer the human-playable arena.
    pub ai_control: bool,
}

pub open spec fn has_arg(args: Seq<String>, flag: Seq<char>) -> bool {
    exists|i: int| 0 <= i < args.len() && args[i]@ == flag
}

impl ProgramInputs {
    /// Reads the two launch flags, `--headless` and `--ai-control`, from the
    /// argument list; each is set iff it occurs as a whole argument.
    pub fn from_args(args: &Vec<String>) -> (r: ProgramInputs)
        ensures
            r.headless == has_arg(args@, "--headless"@),
            r.ai_control == has_arg(args@, "--ai-control"@),
    {
        let headless_flag: String = "--headless".to_owned();
        let ai_flag: String = "--ai-control".to_owned();
        let mut headless = false;
        let mut ai_control = false;
        let mut i: usize = 0;
        while i < args.len()
            invariant
                i <= args.len(),
                headless_flag@ == "--headless"@,
                ai_flag@ == "--ai-control"@,
                headless == has_arg(args@.take(i as int), "--headless"@),
                ai_control == has_arg(args@.take(i as int), "--ai-control"@),
            decreases args.len() - i,
        {
            let a: &String = &args[i];
            if *a == headless_flag {
                headless = true;
            }
            if *a == ai_flag {
                ai_control = true;
            }
            proof {
                let next = args@.take(i + 1);
                assert(next[i as int] == args@[i as int]);
                if has_arg(next, "--headless"@) && !has_arg(args@.take(i as int), "--headless"@) {
                    let j = choose|j: int| 0 <= j < next.len() && next[j]@ == "--headless"@;
                    if j < i {
                        assert(args@.take(i as int)[j] == next[j]);
                    }
                }
                if has_arg(next, "--ai-control"@) && !has_arg(args@.take(i as int), "--ai-control"@) {
                    let j = choose|j: int| 0 <= j < next.len() && next[j]@ == "--ai-control"@;
                    if j < i {
                        assert(args@.take(i as int)[j] == next[j]);
                    }
                }
                if has_arg(args@.take(i as int), "--headless"@) {
                    let j = choose|j: int| 0 <= j < i && args@.take(i as int)[j]@ == "--headless"@;
                    assert(next[j] == args@.take(i as int)[j]);
                }
                if has_arg(args@.take(i as int), "--ai-control"@) {
                    let j = choose|j: int| 0 <= j < i && args@.take(i as int)[j]@ == "--ai-control"@;
                    assert(next[j] == args@.take(i as int)[j]);
                }
            }
            i = i + 1;
        }
        assert(args@.take(args.len() as int) =~= args@);
        ProgramInputs { headless, ai_control }
    }
}

/// A repeating countdown: it fires each time the elapsed time reaches the
/// duration, and carries the remainder over.
#[derive(PartialEq, Eq, Debug, Clone, Copy, Structural)]
pub struct SimulationTimer {
    pub duration_ms: u64,
    pub elapsed_ms: u64,
}

impl SimulationTimer {
    pub open spec fn wf(&self) -> bool {
        0 < self.duration_ms && self.elapsed_ms < self.duration_ms
    }

    pub fn new(duration_ms: u64) -> (r: SimulationTimer)
        requires
            duration_ms > 0,
        ensures
            r.wf(),
            r.duration_ms == duration_ms,
            r.elapsed_ms == 0,
    {
        SimulationTimer { duration_ms, elapsed_ms: 0 }
    }

    /// Advances the timer by `dt_ms`; returns whether it fired on this tick.
    pub fn tick(&mut self, dt_ms: u64) -> (finished: bool)
        requires
            old(self).wf(),
            old(self).duration_ms + dt_ms <= u64::MAX,
        ensures
            final(self).wf(),
            final(self).duration_ms == old(self).duration_ms,
            finished == (old(self).elapsed_ms + dt_ms >= old(self).duration_ms),
            final(self).elapsed_ms == (old(self).elapsed_ms + dt_ms) % (old(self).duration_ms as int),
    {
        let total: u64 = self.elapsed_ms + dt_ms;
        self.elapsed_ms = total % self.duration_ms;
        total >= self.duration_ms
    }

    /// Starts the countdown over.
    pub fn restart(&mut self)
        requires
            old(self).wf(),
        ensures
            final(self).wf(),
            final(self).duration_ms == old(self).duration_ms,
            final(self).elapsed_ms == 0,
    {
        self.elapsed_ms = 0;
    }
}

/// Whether the episode ends on this tick: advances `timer` by `dt_ms`.
pub fn check_simulation_end(timer: &mut SimulationTimer, dt_ms: u64) -> (ended: bool)
    requires
        old(timer).wf(),
        old(timer).duration_ms + dt_ms <= u64::MAX,
    ensures
        final(timer).wf(),
        final(timer).duration_ms == old(timer).duration_ms,
        ended == (old(timer).elapsed_ms + dt_ms >= old(timer).duration_ms),
        final(timer).elapsed_ms == (old(timer).elapsed_ms + dt_ms) % (old(timer).duration_ms as int),
{
    timer.tick(dt_ms)
}

/// How many balls of `balls` sit strictly inside their home quadrant.
pub open spec fn home_count(balls: Seq<Ball>) -> nat
    decreases balls.len(),
{
    if balls.len() == 0 {
        0
    } else {
        home_count(balls.drop_last()) + if in_home(
            balls.last().class,
            balls.last().position.x as int,
            balls.last().position.z as int,
        ) {
            1nat
        } else {
            0nat
        }
    }
}

pub proof fn lemma_home_count_le(balls: Seq<Ball>)
    ensures
        home_count(balls) <= balls.len(),
    decreases balls.len(),
{
    if balls.len() > 0 {
        lemma_home_count_le(balls.drop_last());
    }
}

/// The reward of a tick: the number of balls in their home quadrant.
pub fn home_reward(balls: &Vec<Ball>) -> (r: u64)
    ensures
        r == home_count(balls@),
{
    let mut n: u64 = 0;
    let mut i: usize = 0;
    while i < balls.len()
        invariant
            i <= balls.len(),
            n == home_count(balls@.take(i as int)),
        decreases balls.len() - i,
    {
        proof {
            lemma_home_count_le(balls@.take(i as int));
            assert(balls@.take(i as int + 1).drop_last() =~= balls@.take(i as int));
        }
        if balls[i].is_home() {
            n = n + 1;
        }
        i = i + 1;
    }
    assert(balls@.take(balls.len() as int) =~= balls@);
    n
}

/// Running score of an arena: the reward of the last tick and the sum since
/// the episode began.
#[derive(PartialEq, Eq, Debug, Clone, Copy, Structural)]
pub struct WorldState {
    pub agg_score: u64,
    pub reward: u64,
}

impl WorldState {
    pub fn new() -> (r: WorldState)
        ensures
            r.agg_score == 0 && r.reward == 0,
    {
        WorldState { agg_score: 0, reward: 0 }
    }

    pub fn reset(&mut self)
        ensures
            final(self).agg_score == 0 && final(self).reward == 0,
    {
        self.agg_score = 0;
        self.reward = 0;
    }
}

/// Scores one tick: the reward is the number of `balls` in their home
/// quadrant, and it is added to the running score.
pub fn update_world_state(state: &mut WorldState, balls: &Vec<Ball>)
    requires
        old(state).agg_score + balls.len() <= u64::MAX,
    ensures
        final(state).reward == home_count(balls@),
        final(state).agg_score == old(state).agg_score + home_count(balls@),
{
    let reward = home_reward(balls);
    proof {
        lemma_home_count_le(balls@);
    }
    state.agg_score = state.agg_score + reward;
    state.reward = reward;
}

/// With every ball home the reward is the number of balls; with none home it
/// is zero.
pub proof fn lemma_reward_extremes(balls: Seq<Ball>)
    ensures
        (forall|i: int|
            0 <= i < balls.len() ==> #[trigger] in_home(
                balls[i].class,
                balls[i].position.x as int,
                balls[i].position.z as int,
            )) ==> home_count(balls) == balls.len(),
        (forall|i: int|
            0 <= i < balls.len() ==> !#[trigger] in_home(
                balls[i].class,
                balls[i].position.x as int,
                balls[i].position.z as int,
            )) ==> home_count(balls) == 0,
    decreases balls.len(),
{
    if balls.len() > 0 {
        let init = balls.drop_last();
        lemma_reward_extremes(init);
        assert forall|i: int| 0 <= i < init.len() implies init[i] == balls[i] by {}
        assert(balls.last() == balls[balls.len() - 1]);
    }
}

/// What an arena saw and did while the policy steered it, one entry per tick
/// in each of three parallel sequences.
pub struct Trajectory {
    pub state: Vec<Vec<i64>>,
    pub action: Vec<MovementIntent>,
    pub reward: Vec<u64>,
}

impl Trajectory {
    pub open spec fn wf(&self) -> bool {
        self.state.len() == self.action.len() && self.action.len() == self.reward.len()
    }

    pub fn new() -> (r: Trajectory)
        ensures
            r.wf(),
            r.state@.len() == 0,
            r.action@.len() == 0,
            r.reward@.len() == 0,
    {
        Trajectory { state: Vec::new(), action: Vec::new(), reward: Vec::new() }
    }

    pub fn len(&self) -> (r: usize)
        ensures
            r == self.state@.len(),
    {
        self.state.len()
    }

    /// Appends one tick.
    pub fn push(&mut self, state: Vec<i64>, action: MovementIntent, reward: u64)
        requires
            old(self).wf(),
        ensures
            final(self).wf(),
            final(self).state@ == old(self).state@.push(state),
            final(self).action@ == old(self).action@.push(action),
            final(self).reward@ == old(self).reward@.push(reward),
    {
        self.state.push(state);
        self.action.push(action);
        self.reward.push(reward);
    }
}

} // verus!
