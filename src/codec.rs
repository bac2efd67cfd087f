use vstd::prelude::*;
use crate::ball::{Ball, BallTag, Vec2, home_quadrant, SCALE};
use crate::movement::MovementIntent;

verus! {

/// Number of action channels: up, down, left, right.
pub const ACTION_WIDTH: usize = 4;

/// A policy output channel above this (in thousandths) turns its flag on.
pub const ACTION_THRESHOLD: i64 = 500;

/// What is wrong with a batch handed over by the policy.
#[derive(PartialEq, Eq, Debug, Clone, Copy, Structural)]
pub enum ShapeError {
    /// A row does not hold exactly four channels.
    ActionWidth,
    /// The number of rows differs from the number of arenas gathered.
    BatchSize,
}

/// The features of one ball: velocity and position, then, for an autonomous
/// ball, the signs of its home quadrant in thousandths.
pub open spec fn ball_features(velocity: Vec2, position: Vec2, target: Option<(i8, i8)>) -> Seq<i64> {
    let base = seq![velocity.x, velocity.z, position.x, position.z];
    match target {
        Some((sx, sz)) => base + seq![(sx * SCALE) as i64, (sz * SCALE) as i64],
        None => base,
    }
}

pub open spec fn features_of(b: Ball) -> Seq<i64> {
    ball_features(b.velocity, b.position, home_quadrant(b.class))
}

/// The features of each ball of `balls`, in order, concatenated.
pub open spec fn observation_of(balls: Seq<Ball>) -> Seq<i64>
    decreases balls.len(),
{
    if balls.len() == 0 {
        Seq::empty()
    } else {
        observation_of(balls.drop_last()) + features_of(balls.last())
    }
}

/// How many of `balls` are autonomous.
pub open spec fn autonomous_count(balls: Seq<Ball>) -> nat
    decreases balls.len(),
{
    if balls.len() == 0 {
        0
    } else {
        autonomous_count(balls.drop_last()) + if balls.last().class == BallTag::Player {
            0nat
        } else {
            1nat
        }
    }
}

/// Four features for the player, six for each autonomous ball.
pub proof fn lemma_observation_len(balls: Seq<Ball>)
    ensures
        observation_of(balls).len() == 4 * balls.len() + 2 * autonomous_count(balls),
        autonomous_count(balls) <= balls.len(),
    decreases balls.len(),
{
    if balls.len() > 0 {
        lemma_observation_len(balls.drop_last());
    }
}

/// All of `balls` are autonomous.
pub open spec fn all_autonomous(balls: Seq<Ball>) -> bool {
    forall|i: int| 0 <= i < balls.len() ==> #[trigger] balls[i].class != BallTag::Player
}

pub proof fn lemma_autonomous_count_all(balls: Seq<Ball>)
    requires
        all_autonomous(balls),
    ensures
        autonomous_count(balls) == balls.len(),
    decreases balls.len(),
{
    if balls.len() > 0 {
        let init = balls.drop_last();
        assert forall|i: int| 0 <= i < init.len() implies #[trigger] init[i].class
            != BallTag::Player by {
            assert(init[i] == balls[i]);
        }
        lemma_autonomous_count_all(init);
        assert(balls.last() == balls[balls.len() - 1]);
    }
}

/// The player's features followed by those of each autonomous ball in order:
/// the observation of an arena.
pub open spec fn arena_observation(player: Ball, balls: Seq<Ball>) -> Seq<i64> {
    observation_of(seq![player] + balls)
}

/// An arena observation is 4 + 6 * N long for N autonomous balls.
pub proof fn lemma_arena_observation_len(player: Ball, balls: Seq<Ball>)
    requires
        player.class == BallTag::Player,
        all_autonomous(balls),
    ensures
        arena_observation(player, balls).len() == 4 + 6 * balls.len(),
{
    let all = seq![player] + balls;
    lemma_observation_len(all);
    lemma_autonomous_count_all(balls);
    lemma_prepend_player_count(player, balls);
}

proof fn lemma_prepend_player_count(player: Ball, balls: Seq<Ball>)
    requires
        player.class == BallTag::Player,
    ensures
        autonomous_count(seq![player] + balls) == autonomous_count(balls),
    decreases balls.len(),
{
    let all = seq![player] + balls;
    if balls.len() == 0 {
        assert(all.drop_last() =~= Seq::<Ball>::empty());
        assert(all.last() == player);
        assert(autonomous_count(all.drop_last()) == 0);
        assert(autonomous_count(all) == 0);
    } else {
        assert(all.drop_last() =~= seq![player] + balls.drop_last());
        assert(all.last() == balls.last());
        lemma_prepend_player_count(player, balls.drop_last());
        assert(autonomous_count(all.drop_last()) == autonomous_count(balls.drop_last()));
    }
}

/// The features of one ball.
pub fn push(velocity: &Vec2, position: &Vec2, target_quadrant: Option<(i8, i8)>) -> (r: Vec<i64>)
    ensures
        r@ == ball_features(*velocity, *position, target_quadrant),
{
    let mut inputs: Vec<i64> = Vec::new();
    inputs.push(velocity.x);
    inputs.push(velocity.z);
    inputs.push(position.x);
    inputs.push(position.z);
    match target_quadrant {
        Some((sx, sz)) => {
            inputs.push(sx as i64 * SCALE);
            inputs.push(sz as i64 * SCALE);
        },
        None => {},
    }
    assert(inputs@ =~= ball_features(*velocity, *position, target_quadrant));
    inputs
}

/// Appends the features of `b` to `out`.
fn append_ball(out: &mut Vec<i64>, b: &Ball)
    ensures
        final(out)@ == old(out)@ + features_of(*b),
{
    let mut f = push(&b.velocity, &b.position, b.class.target_quadrant());
    out.append(&mut f);
}

/// The features of each of `balls`, in order: the policy's input row for a
/// list of balls.
pub fn collect_ai_input(balls: &Vec<Ball>) -> (r: Vec<i64>)
    ensures
        r@ == observation_of(balls@),
{
    let mut inputs: Vec<i64> = Vec::new();
    let mut i: usize = 0;
    while i < balls.len()
        invariant
            i <= balls.len(),
            inputs@ == observation_of(balls@.take(i as int)),
        decreases balls.len() - i,
    {
        assert(balls@.take(i as int + 1).drop_last() =~= balls@.take(i as int));
        append_ball(&mut inputs, &balls[i]);
        i = i + 1;
    }
    assert(balls@.take(balls.len() as int) =~= balls@);
    inputs
}

/// The observation of an arena: the player ball, then each autonomous ball
/// in the arena's fixed order.
pub fn encode_arena(player: &Ball, balls: &Vec<Ball>) -> (r: Vec<i64>)
    ensures
        r@ == arena_observation(*player, balls@),
{
    let mut inputs: Vec<i64> = Vec::new();
    append_ball(&mut inputs, player);
    assert(inputs@ =~= observation_of(seq![*player])) by {
        let one = seq![*player];
        assert(one.drop_last() =~= Seq::<Ball>::empty());
        assert(one.last() == *player);
        assert(observation_of(one.drop_last()) =~= Seq::<i64>::empty());
    };
    assert(seq![*player] + balls@.take(0) =~= seq![*player]);
    let mut i: usize = 0;
    while i < balls.len()
        invariant
            i <= balls.len(),
            inputs@ == observation_of(seq![*player] + balls@.take(i as int)),
        decreases balls.len() - i,
    {
        assert((seq![*player] + balls@.take(i as int + 1)).drop_last() =~= seq![*player]
            + balls@.take(i as int));
        assert((seq![*player] + balls@.take(i as int + 1)).last() == balls@[i as int]);
        append_ball(&mut inputs, &balls[i]);
        i = i + 1;
    }
    assert(balls@.take(balls.len() as int) =~= balls@);
    inputs
}

/// Whether an output channel (in thousandths) turns its flag on.
pub open spec fn channel_on(p: i64) -> bool {
    p > ACTION_THRESHOLD
}

pub open spec fn intent_of(row: Seq<i64>) -> MovementIntent {
    MovementIntent {
        up: channel_on(row[0]),
        down: channel_on(row[1]),
        left: channel_on(row[2]),
        right: channel_on(row[3]),
    }
}

/// Thresholds one row of policy output (up, down, left, right, each a
/// probability in thousandths) into four independent flags.
pub fn decode(row: &Vec<i64>) -> (r: Result<MovementIntent, ShapeError>)
    ensures
        row@.len() == ACTION_WIDTH ==> r == Ok::<MovementIntent, ShapeError>(intent_of(row@)),
        row@.len() != ACTION_WIDTH ==> r == Err::<MovementIntent, ShapeError>(ShapeError::ActionWidth),
{
    if row.len() != ACTION_WIDTH {
        return Err(ShapeError::ActionWidth);
    }
    Ok(
        MovementIntent {
            up: row[0] > ACTION_THRESHOLD,
            down: row[1] > ACTION_THRESHOLD,
            left: row[2] > ACTION_THRESHOLD,
            right: row[3] > ACTION_THRESHOLD,
        },
    )
}

/// Decodes every row of a batch, keeping the row order.
pub fn decode_batch(rows: &Vec<Vec<i64>>) -> (r: Result<Vec<MovementIntent>, ShapeError>)
    ensures
        (forall|i: int| 0 <= i < rows@.len() ==> (#[trigger] rows@[i])@.len() == ACTION_WIDTH)
            <==> r is Ok,
        r matches Ok(v) ==> v@.len() == rows@.len() && forall|i: int|
            0 <= i < rows@.len() ==> v@[i] == intent_of(#[trigger] rows@[i]@),
        r matches Err(e) ==> e == ShapeError::ActionWidth,
{
    let mut out: Vec<MovementIntent> = Vec::new();
    let mut i: usize = 0;
    while i < rows.len()
        invariant
            i <= rows.len(),
            out@.len() == i,
            forall|j: int| 0 <= j < i ==> (#[trigger] rows@[j])@.len() == ACTION_WIDTH,
            forall|j: int| 0 <= j < i ==> out@[j] == intent_of(#[trigger] rows@[j]@),
        decreases rows.len() - i,
    {
        match decode(&rows[i]) {
            Ok(a) => out.push(a),
            Err(e) => {
                return Err(e);
            },
        }
        i = i + 1;
    }
    Ok(out)
}

} // verus!
