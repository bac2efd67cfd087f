use vstd::prelude::*;
use crate::ball::Vec2;
use crate::codec::{ShapeError, decode_batch, intent_of};
use crate::movement::{MAX_TICK_MS, MovementIntent, within_limit};
use crate::scene::{BallGameScene, TickOutcome, acted, is_ai, tick_finished};

verus! {

/// Arenas along each side of the grid they are laid out in.
pub const GRID_SIZE: i64 = 6;

/// Distance between neighbouring arena centres, in thousandths of a unit.
pub const GRID_SPACING: i64 = 60_000;

/// How many of `s` the policy steers.
pub open spec fn ai_count(s: Seq<BallGameScene>) -> nat
    decreases s.len(),
{
    if s.len() == 0 {
        0
    } else {
        ai_count(s.drop_last()) + if is_ai(s.last().controller) {
            1nat
        } else {
            0nat
        }
    }
}

/// The positions in `s` of the arenas the policy steers, in order: row `k`
/// of a batch belongs to arena `ai_indices(s)[k]`.
pub open spec fn ai_indices(s: Seq<BallGameScene>) -> Seq<int>
    decreases s.len(),
{
    if s.len() == 0 {
        Seq::empty()
    } else {
        ai_indices(s.drop_last()) + if is_ai(s.last().controller) {
            seq![s.len() - 1]
        } else {
            Seq::empty()
        }
    }
}

/// The action of each arena: the keyboard's for a human-steered one, and
/// for the others the batch rows in the order the arenas come.
pub open spec fn scattered(
    s: Seq<BallGameScene>,
    batch: Seq<MovementIntent>,
    keyboard: MovementIntent,
) -> Seq<MovementIntent> {
    Seq::new(
        s.len(),
        |j: int|
            if is_ai(s[j].controller) {
                batch[ai_count(s.take(j)) as int]
            } else {
                keyboard
            },
    )
}

pub open spec fn all_wf(s: Seq<BallGameScene>) -> bool {
    forall|j: int| 0 <= j < s.len() ==> (#[trigger] s[j]).wf()
}

proof fn lemma_take_step(s: Seq<BallGameScene>, i: int)
    requires
        0 <= i < s.len(),
    ensures
        s.take(i + 1).drop_last() == s.take(i),
        s.take(i + 1).last() == s[i],
{
    assert(s.take(i + 1).drop_last() =~= s.take(i));
}

/// A prefix holds no more policy-steered arenas than the whole.
pub proof fn lemma_ai_count_prefix(s: Seq<BallGameScene>, j: int)
    requires
        0 <= j <= s.len(),
    ensures
        ai_count(s.take(j)) <= ai_count(s),
    decreases s.len(),
{
    if j == s.len() {
        assert(s.take(j) =~= s);
    } else {
        assert(s.take(j) =~= s.drop_last().take(j));
        lemma_ai_count_prefix(s.drop_last(), j);
    }
}

/// Each listed position holds a policy-steered arena and is preceded by
/// exactly as many of them as its rank.
pub proof fn lemma_ai_indices(s: Seq<BallGameScene>)
    ensures
        ai_indices(s).len() == ai_count(s),
        forall|k: int|
            0 <= k < ai_indices(s).len() ==> {
                &&& 0 <= #[trigger] ai_indices(s)[k] < s.len()
                &&& is_ai(s[ai_indices(s)[k]].controller)
                &&& ai_count(s.take(ai_indices(s)[k])) == k
            },
    decreases s.len(),
{
    if s.len() > 0 {
        let init = s.drop_last();
        lemma_ai_indices(init);
        assert forall|k: int| 0 <= k < ai_indices(s).len() implies {
            &&& 0 <= #[trigger] ai_indices(s)[k] < s.len()
            &&& is_ai(s[ai_indices(s)[k]].controller)
            &&& ai_count(s.take(ai_indices(s)[k])) == k
        } by {
            if k < ai_indices(init).len() {
                let idx = ai_indices(init)[k];
                assert(ai_indices(s)[k] == idx);
                assert(s[idx] == init[idx]);
                assert(s.take(idx) =~= init.take(idx));
            } else {
                assert(ai_indices(s)[k] == s.len() - 1);
                assert(s.take(s.len() - 1) =~= init);
            }
        }
    }
}

/// Row `k` of the batch handed out by `gather_observations` comes back, by
/// `scatter_actions`, to the very arena it was gathered from.
pub proof fn lemma_gather_scatter_order(
    s: Seq<BallGameScene>,
    batch: Seq<MovementIntent>,
    keyboard: MovementIntent,
)
    requires
        batch.len() == ai_count(s),
    ensures
        ai_indices(s).len() == batch.len(),
        forall|k: int|
            0 <= k < batch.len() ==> scattered(s, batch, keyboard)[#[trigger] ai_indices(s)[k]]
                == batch[k],
{
    lemma_ai_indices(s);
    assert forall|k: int| 0 <= k < batch.len() implies scattered(s, batch, keyboard)[
        #[trigger] ai_indices(s)[k]] == batch[k] by {
        let idx = ai_indices(s)[k];
        assert(is_ai(s[idx].controller));
    }
}

/// The number of policy-steered arenas.
pub fn count_ai(scenes: &Vec<BallGameScene>) -> (n: usize)
    ensures
        n == ai_count(scenes@),
{
    let mut n: usize = 0;
    let mut i: usize = 0;
    while i < scenes.len()
        invariant
            i <= scenes@.len(),
            n == ai_count(scenes@.take(i as int)),
            n <= i,
        decreases scenes@.len() - i,
    {
        proof {
            lemma_take_step(scenes@, i as int);
        }
        if matches!(scenes[i].controller, crate::scene::ControllerType::AI { .. }) {
            n = n + 1;
        }
        i = i + 1;
    }
    assert(scenes@.take(scenes@.len() as int) =~= scenes@);
    n
}

/// The observation of every policy-steered arena, in the order the arenas
/// come: one batch row per such arena.
pub fn gather_observations(scenes: &Vec<BallGameScene>) -> (rows: Vec<Vec<i64>>)
    requires
        all_wf(scenes@),
    ensures
        rows@.len() == ai_count(scenes@),
        forall|k: int|
            0 <= k < rows@.len() ==> (#[trigger] rows@[k])@ == scenes@[ai_indices(
                scenes@,
            )[k]].observation(),
        forall|k: int|
            0 <= k < rows@.len() ==> (#[trigger] rows@[k])@.len() == 4 + 6 * scenes@[ai_indices(
                scenes@,
            )[k]].game_balls@.len(),
{
    let mut rows: Vec<Vec<i64>> = Vec::new();
    let mut i: usize = 0;
    while i < scenes.len()
        invariant
            i <= scenes@.len(),
            all_wf(scenes@),
            rows@.len() == ai_indices(scenes@.take(i as int)).len(),
            forall|k: int|
                0 <= k < rows@.len() ==> 0 <= #[trigger] ai_indices(scenes@.take(i as int))[k] < i,
            forall|k: int|
                0 <= k < rows@.len() ==> (#[trigger] rows@[k])@ == scenes@[ai_indices(
                    scenes@.take(i as int),
                )[k]].observation() && rows@[k]@.len() == 4 + 6 * scenes@[ai_indices(
                    scenes@.take(i as int),
                )[k]].game_balls@.len(),
        decreases scenes@.len() - i,
    {
        proof {
            lemma_take_step(scenes@, i as int);
        }
        let ghost prev = ai_indices(scenes@.take(i as int));
        if matches!(scenes[i].controller, crate::scene::ControllerType::AI { .. }) {
            let obs = scenes[i].encode();
            rows.push(obs);
        }
        proof {
            let next = ai_indices(scenes@.take(i + 1));
            assert forall|k: int| 0 <= k < prev.len() implies next[k] == prev[k] by {}
        }
        i = i + 1;
    }
    proof {
        assert(scenes@.take(scenes@.len() as int) =~= scenes@);
        lemma_ai_indices(scenes@);
    }
    rows
}

/// The action of each arena, in order: the keyboard's where a human steers,
/// and where the policy steers, the next row of `batch_actions`. The batch
/// must hold exactly one row per policy-steered arena.
pub fn scatter_actions(
    scenes: &Vec<BallGameScene>,
    batch_actions: &Vec<MovementIntent>,
    keyboard: MovementIntent,
) -> (r: Result<Vec<MovementIntent>, ShapeError>)
    ensures
        (batch_actions@.len() == ai_count(scenes@)) <==> r is Ok,
        r matches Ok(v) ==> v@ == scattered(scenes@, batch_actions@, keyboard),
        r matches Err(e) ==> e == ShapeError::BatchSize,
{
    let n = count_ai(scenes);
    if n != batch_actions.len() {
        return Err(ShapeError::BatchSize);
    }
    let mut out: Vec<MovementIntent> = Vec::new();
    let mut next: usize = 0;
    let mut j: usize = 0;
    while j < scenes.len()
        invariant
            j <= scenes@.len(),
            n == ai_count(scenes@),
            n == batch_actions@.len(),
            next == ai_count(scenes@.take(j as int)),
            out@.len() == j,
            forall|i: int|
                0 <= i < j ==> #[trigger] out@[i] == scattered(scenes@, batch_actions@, keyboard)[i],
        decreases scenes@.len() - j,
    {
        proof {
            lemma_take_step(scenes@, j as int);
            lemma_ai_count_prefix(scenes@, j + 1);
        }
        let a = match scenes[j].controller {
            crate::scene::ControllerType::Keyboard => keyboard,
            crate::scene::ControllerType::AI { .. } => {
                let a = batch_actions[next];
                next = next + 1;
                a
            },
        };
        out.push(a);
        j = j + 1;
    }
    assert(out@ =~= scattered(scenes@, batch_actions@, keyboard));
    Ok(out)
}

/// The intents that the policy output rows stand for.
pub open spec fn decoded(rows: Seq<Vec<i64>>) -> Seq<MovementIntent> {
    rows.map_values(|r: Vec<i64>| intent_of(r@))
}

/// Moves the player of every arena: the policy output `rows` (one per
/// policy-steered arena, in gathering order) are decoded and handed back to
/// their arenas, human-steered arenas take `keyboard`, and each arena acts
/// (see `BallGameScene::act`). A malformed batch changes nothing.
pub fn move_balls(
    scenes: &mut Vec<BallGameScene>,
    rows: &Vec<Vec<i64>>,
    keyboard: MovementIntent,
    dt_ms: u64,
) -> (r: Result<(), ShapeError>)
    requires
        all_wf(old(scenes)@),
        forall|j: int|
            0 <= j < old(scenes)@.len() ==> within_limit(
                (#[trigger] old(scenes)@[j]).player_ball.velocity,
            ),
        dt_ms <= MAX_TICK_MS,
    ensures
        r is Ok <==> (forall|k: int| 0 <= k < rows@.len() ==> (#[trigger] rows@[k])@.len() == 4)
            && rows@.len() == ai_count(old(scenes)@),
        r is Err ==> final(scenes)@ == old(scenes)@,
        r matches Err(e) ==> (e == ShapeError::ActionWidth <==> exists|k: int|
            0 <= k < rows@.len() && (#[trigger] rows@[k])@.len() != 4),
        r is Ok ==> final(scenes)@.len() == old(scenes)@.len() && forall|j: int|
            0 <= j < old(scenes)@.len() ==> acted(
                #[trigger] old(scenes)@[j],
                final(scenes)@[j],
                scattered(old(scenes)@, decoded(rows@), keyboard)[j],
                dt_ms as int,
            ),
{
    let actions = match decode_batch(rows) {
        Ok(a) => a,
        Err(e) => {
            return Err(e);
        },
    };
    assert(actions@ =~= decoded(rows@));
    let per_scene = match scatter_actions(scenes, &actions, keyboard) {
        Ok(v) => v,
        Err(e) => {
            return Err(e);
        },
    };
    let mut j: usize = 0;
    while j < scenes.len()
        invariant
            j <= scenes@.len(),
            scenes@.len() == old(scenes)@.len(),
            per_scene@ == scattered(old(scenes)@, decoded(rows@), keyboard),
            dt_ms <= MAX_TICK_MS,
            forall|i: int|
                0 <= i < j ==> acted(
                    #[trigger] old(scenes)@[i],
                    scenes@[i],
                    per_scene@[i],
                    dt_ms as int,
                ),
            forall|i: int| j <= i < scenes@.len() ==> #[trigger] scenes@[i] == old(scenes)@[i],
            all_wf(old(scenes)@),
            forall|i: int|
                0 <= i < old(scenes)@.len() ==> within_limit(
                    (#[trigger] old(scenes)@[i]).player_ball.velocity,
                ),
        decreases scenes@.len() - j,
    {
        assert(scenes@[j as int] == old(scenes)@[j as int]);
        let a = per_scene[j];
        scenes[j].act(a, dt_ms);
        j = j + 1;
    }
    Ok(())
}

/// Finishes the tick of every arena (see `BallGameScene::finish_tick`), in
/// order; entry `j` of the result is what arena `j`'s tick ended with.
pub fn end_ticks(scenes: &mut Vec<BallGameScene>, dt_ms: u64) -> (r: Vec<TickOutcome>)
    requires
        all_wf(old(scenes)@),
        forall|j: int|
            0 <= j < old(scenes)@.len() ==> (#[trigger] old(scenes)@[j]).score.agg_score
                + old(scenes)@[j].game_balls@.len() <= u64::MAX,
        dt_ms <= MAX_TICK_MS,
    ensures
        r@.len() == old(scenes)@.len(),
        final(scenes)@.len() == old(scenes)@.len(),
        forall|j: int|
            0 <= j < old(scenes)@.len() ==> tick_finished(
                #[trigger] old(scenes)@[j],
                final(scenes)@[j],
                r@[j],
                dt_ms as int,
            ),
{
    let mut out: Vec<TickOutcome> = Vec::new();
    let mut j: usize = 0;
    while j < scenes.len()
        invariant
            j <= scenes@.len(),
            scenes@.len() == old(scenes)@.len(),
            out@.len() == j,
            dt_ms <= MAX_TICK_MS,
            forall|i: int|
                0 <= i < j ==> tick_finished(
                    #[trigger] old(scenes)@[i],
                    scenes@[i],
                    out@[i],
                    dt_ms as int,
                ),
            forall|i: int| j <= i < scenes@.len() ==> #[trigger] scenes@[i] == old(scenes)@[i],
            all_wf(old(scenes)@),
            forall|i: int|
                0 <= i < old(scenes)@.len() ==> (#[trigger] old(scenes)@[i]).score.agg_score
                    + old(scenes)@[i].game_balls@.len() <= u64::MAX,
        decreases scenes@.len() - j,
    {
        assert(scenes@[j as int] == old(scenes)@[j as int]);
        let t = scenes[j].finish_tick(dt_ms);
        out.push(t);
        j = j + 1;
    }
    out
}

/// Centre of the arena in row `i`, column `j` of the grid.
pub open spec fn arena_center(i: int, j: int) -> (int, int) {
    ((i - GRID_SIZE / 2) * GRID_SPACING, (j - GRID_SIZE / 2) * GRID_SPACING)
}

/// The centres of the arenas of the grid, row by row.
pub fn arena_centers() -> (r: Vec<Vec2>)
    ensures
        r@.len() == GRID_SIZE * GRID_SIZE,
        forall|i: int, j: int|
            0 <= i < GRID_SIZE && 0 <= j < GRID_SIZE ==> {
                let c = #[trigger] r@[i * GRID_SIZE + j];
                c.x == arena_center(i, j).0 && c.z == arena_center(i, j).1
            },
{
    let mut out: Vec<Vec2> = Vec::new();
    let mut i: i64 = 0;
    while i < GRID_SIZE
        invariant
            0 <= i <= GRID_SIZE,
            out@.len() == i * GRID_SIZE,
            forall|a: int, b: int|
                0 <= a < i && 0 <= b < GRID_SIZE ==> {
                    let c = #[trigger] out@[a * GRID_SIZE + b];
                    c.x == arena_center(a, b).0 && c.z == arena_center(a, b).1
                },
        decreases GRID_SIZE - i,
    {
        let mut j: i64 = 0;
        while j < GRID_SIZE
            invariant
                0 <= i < GRID_SIZE,
                0 <= j <= GRID_SIZE,
                out@.len() == i * GRID_SIZE + j,
                forall|a: int, b: int|
                    0 <= a < i && 0 <= b < GRID_SIZE ==> {
                        let c = #[trigger] out@[a * GRID_SIZE + b];
                        c.x == arena_center(a, b).0 && c.z == arena_center(a, b).1
                    },
                forall|b: int|
                    0 <= b < j ==> {
                        let c = #[trigger] out@[i * GRID_SIZE + b];
                        c.x == arena_center(i as int, b).0 && c.z == arena_center(i as int, b).1
                    },
            decreases GRID_SIZE - j,
        {
            out.push(Vec2 { x: (i - GRID_SIZE / 2) * GRID_SPACING, z: (j - GRID_SIZE / 2) * GRID_SPACING });
            j = j + 1;
        }
        i = i + 1;
    }
    out
}

} // verus!
