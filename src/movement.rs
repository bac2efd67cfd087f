use vstd::prelude::*;
use crate::ball::Vec2;

verus! {

/// Speed gained per second of held input, in world units per second.
pub const PLAYER_SPEED: i64 = 250;

/// The longest tick that movement accepts, in milliseconds.
pub const MAX_TICK_MS: u64 = 10_000_000;

/// The largest velocity component, in thousandths per second, that movement
/// accepts without the sum leaving `i64`.
pub const VELOCITY_LIMIT: i64 = 4_000_000_000_000_000_000;

/// Drag is a fraction in thousandths; this is the whole.
pub const DRAG_WHOLE: u32 = 1000;

/// Four independent direction flags, as read from keys or from the policy.
#[derive(PartialEq, Eq, Debug, Clone, Copy, Structural)]
pub struct MovementIntent {
    pub up: bool,
    pub down: bool,
    pub left: bool,
    pub right: bool,
}

pub open spec fn flag(b: bool) -> int {
    if b {
        1
    } else {
        0
    }
}

/// Direction along x: right minus left.
pub open spec fn dir_x(a: MovementIntent) -> int {
    flag(a.right) - flag(a.left)
}

/// Direction along z: down minus up.
pub open spec fn dir_z(a: MovementIntent) -> int {
    flag(a.down) - flag(a.up)
}

/// Speed gained on a tick of `dt_ms` milliseconds, in thousandths per second.
pub open spec fn impulse_len(dt_ms: int) -> int {
    PLAYER_SPEED * dt_ms
}

/// `c` is the largest integer with `c * sqrt(2) <= m`: the per-axis share of a
/// diagonal step of length `m`.
pub open spec fn is_diagonal_share(c: int, m: int) -> bool {
    0 <= c && 2 * c * c <= m * m && m * m < 2 * (c + 1) * (c + 1)
}

pub open spec fn diagonal_share(m: int) -> int {
    choose|c: int| is_diagonal_share(c, m)
}

/// Per-axis length of the normalised direction scaled to `m`.
pub open spec fn axis_share(a: MovementIntent, m: int) -> int {
    if dir_x(a) != 0 && dir_z(a) != 0 {
        diagonal_share(m)
    } else {
        m
    }
}

/// The velocity change that `a` asks for over a tick of `dt_ms` milliseconds.
pub open spec fn impulse(a: MovementIntent, dt_ms: int) -> (int, int) {
    (
        dir_x(a) * axis_share(a, impulse_len(dt_ms)),
        dir_z(a) * axis_share(a, impulse_len(dt_ms)),
    )
}

pub open spec fn within_limit(v: Vec2) -> bool {
    -VELOCITY_LIMIT <= v.x <= VELOCITY_LIMIT && -VELOCITY_LIMIT <= v.z <= VELOCITY_LIMIT
}

/// One component after a tick of drag: the fraction `c / 1000` of it is
/// removed, rounding toward zero.
pub open spec fn decayed(v: int, c: int) -> int {
    if v >= 0 {
        v * (1000 - c) / 1000
    } else {
        -((-v) * (1000 - c) / 1000)
    }
}

/// The share for a given length is unique.
pub proof fn lemma_diagonal_share_unique(c: int, m: int)
    requires
        is_diagonal_share(c, m),
    ensures
        diagonal_share(m) == c,
{
    let d = diagonal_share(m);
    assert(is_diagonal_share(d, m));
    if d < c {
        assert(false) by (nonlinear_arith)
            requires
                0 <= d,
                d + 1 <= c,
                2 * c * c <= m * m,
                m * m < 2 * (d + 1) * (d + 1),
        ;
    } else if c < d {
        assert(false) by (nonlinear_arith)
            requires
                0 <= c,
                c + 1 <= d,
                2 * d * d <= m * m,
                m * m < 2 * (c + 1) * (c + 1),
        ;
    }
}

/// The integer square root: the largest `r` with `r * r <= n`.
fn isqrt(n: u64) -> (r: u64)
    ensures
        r * r <= n,
        n < (r + 1) * (r + 1),
{
    let mut lo: u64 = 0;
    let mut hi: u64 = 4_294_967_296;
    assert(n < hi * hi);
    while hi - lo > 1
        invariant
            lo < hi <= 4_294_967_296,
            lo * lo <= n,
            n < hi * hi,
        decreases hi - lo,
    {
        let mid: u64 = lo + (hi - lo) / 2;
        assert(mid * mid <= 4_294_967_296 * 4_294_967_296) by (nonlinear_arith)
            requires
                mid < 4_294_967_296,
        ;
        let sq: u128 = (mid as u128) * (mid as u128);
        if sq <= n as u128 {
            lo = mid;
        } else {
            hi = mid;
        }
    }
    assert(hi == lo + 1);
    lo
}

/// Per-axis share of a diagonal step of length `m`.
fn diagonal_step(m: u64) -> (c: u64)
    requires
        m <= 4_000_000_000,
    ensures
        c == diagonal_share(m as int),
        is_diagonal_share(c as int, m as int),
{
    assert(m * m <= 16_000_000_000_000_000_000) by (nonlinear_arith)
        requires
            m <= 4_000_000_000,
    ;
    let half: u64 = (m * m) / 2;
    let c = isqrt(half);
    assert(is_diagonal_share(c as int, m as int)) by (nonlinear_arith)
        requires
            c * c <= half,
            half < (c + 1) * (c + 1),
            half == (m * m) / 2,
            c >= 0,
    ;
    proof {
        lemma_diagonal_share_unique(c as int, m as int);
    }
    c
}

/// Adds to `velocity` the step that the four flags ask for: the direction is
/// (right - left, down - up), normalised when not zero, scaled to
/// `PLAYER_SPEED` and to the tick of `dt_ms` milliseconds. Opposite flags
/// cancel; no flag adds nothing.
pub fn apply_movement(
    direction_up: bool,
    direction_down: bool,
    direction_left: bool,
    direction_right: bool,
    velocity: &mut Vec2,
    dt_ms: u64,
)
    requires
        dt_ms <= MAX_TICK_MS,
        within_limit(*old(velocity)),
    ensures
        ({
            let a = MovementIntent {
                up: direction_up,
                down: direction_down,
                left: direction_left,
                right: direction_right,
            };
            &&& final(velocity).x == old(velocity).x + impulse(a, dt_ms as int).0
            &&& final(velocity).z == old(velocity).z + impulse(a, dt_ms as int).1
        }),
{
    let a = MovementIntent {
        up: direction_up,
        down: direction_down,
        left: direction_left,
        right: direction_right,
    };
    let dz: i64 = (if direction_down { 1i64 } else { 0i64 }) - (if direction_up { 1i64 } else { 0i64 });
    let dx: i64 = (if direction_right { 1i64 } else { 0i64 }) - (if direction_left { 1i64 } else { 0i64 });
    let speed: u64 = PLAYER_SPEED as u64;
    assert(speed == 250);
    let m: u64 = speed * dt_ms;
    let share: u64 = if dx != 0 && dz != 0 {
        diagonal_step(m)
    } else {
        m
    };
    assert(share <= m) by {
        if dx != 0 && dz != 0 {
            assert(share * share <= m * m) by (nonlinear_arith)
                requires
                    2 * share * share <= m * m,
            ;
            if share > m {
                assert(m * m < share * share) by (nonlinear_arith)
                    requires
                        m < share,
                ;
            }
        }
    };
    assert(share as int == axis_share(a, dt_ms * 250));
    let s: i64 = share as i64;
    let step_x: i64 = if dx > 0 {
        s
    } else if dx < 0 {
        -s
    } else {
        0
    };
    let step_z: i64 = if dz > 0 {
        s
    } else if dz < 0 {
        -s
    } else {
        0
    };
    assert(step_x == dx * s && step_z == dz * s);
    velocity.x = velocity.x + step_x;
    velocity.z = velocity.z + step_z;
}

/// Applies the intent `a` to `velocity`; see `apply_movement`.
pub fn apply_intent(a: MovementIntent, velocity: &mut Vec2, dt_ms: u64)
    requires
        dt_ms <= MAX_TICK_MS,
        within_limit(*old(velocity)),
    ensures
        final(velocity).x == old(velocity).x + impulse(a, dt_ms as int).0,
        final(velocity).z == old(velocity).z + impulse(a, dt_ms as int).1,
{
    apply_movement(a.up, a.down, a.left, a.right, velocity, dt_ms);
}

/// One component after a tick of drag `c` (thousandths).
fn decay_component(v: i64, c: u32) -> (r: i64)
    requires
        c <= DRAG_WHOLE,
    ensures
        r == decayed(v as int, c as int),
{
    let keep: u128 = (DRAG_WHOLE - c) as u128;
    if v >= 0 {
        let mag: u128 = v as u128;
        assert(mag * keep <= mag * 1000) by (nonlinear_arith)
            requires
                keep <= 1000,
        ;
        let r: u128 = mag * keep / 1000;
        assert(r <= mag) by (nonlinear_arith)
            requires
                r == mag * keep / 1000,
                mag * keep <= mag * 1000,
        ;
        r as i64
    } else {
        let mag: u128 = (-(v as i128)) as u128;
        assert(mag * keep <= mag * 1000) by (nonlinear_arith)
            requires
                keep <= 1000,
        ;
        let r: u128 = mag * keep / 1000;
        assert(r <= mag) by (nonlinear_arith)
            requires
                r == mag * keep / 1000,
                mag * keep <= mag * 1000,
        ;
        (-(r as i128)) as i64
    }
}

/// One tick of drag: each component loses the fraction `drag / 1000` of
/// itself, rounded toward zero. The decay is per tick, whatever the tick's
/// length.
pub fn apply_drag(velocity: &mut Vec2, drag: u32)
    requires
        drag <= DRAG_WHOLE,
    ensures
        final(velocity).x == decayed(old(velocity).x as int, drag as int),
        final(velocity).z == decayed(old(velocity).z as int, drag as int),
{
    velocity.x = decay_component(velocity.x, drag);
    velocity.z = decay_component(velocity.z, drag);
}

/// With no flag set, movement adds nothing.
pub proof fn lemma_no_flags_no_impulse(dt_ms: int)
    ensures
        impulse(MovementIntent { up: false, down: false, left: false, right: false }, dt_ms)
            == (0int, 0int),
{
}

/// Up and down together cancel along z; along x the step is then the full,
/// unnormalised one.
pub proof fn lemma_up_down_cancel(left: bool, right: bool, dt_ms: int)
    ensures
        ({
            let a = MovementIntent { up: true, down: true, left, right };
            &&& impulse(a, dt_ms).1 == 0
            &&& impulse(a, dt_ms).0 == (flag(right) - flag(left)) * impulse_len(dt_ms)
        }),
{
}

/// Drag never reverses a component, never makes it larger, and shrinks every
/// non-zero component while the drag is positive; repeated ticks thus reach
/// zero from the side they started on.
pub proof fn lemma_drag_never_reverses(v: int, c: int)
    requires
        0 <= c <= 1000,
    ensures
        v >= 0 ==> 0 <= decayed(v, c) <= v,
        v <= 0 ==> v <= decayed(v, c) <= 0,
        c > 0 && v != 0 ==> decayed(v, c) != v,
{
    if v >= 0 {
        assert(0 <= v * (1000 - c) / 1000 <= v) by (nonlinear_arith)
            requires
                v >= 0,
                0 <= c <= 1000,
        ;
        if c > 0 && v > 0 {
            assert(v * (1000 - c) / 1000 < v) by (nonlinear_arith)
                requires
                    v > 0,
                    0 < c <= 1000,
            ;
        }
    } else {
        let w = -v;
        assert(0 <= w * (1000 - c) / 1000 <= w) by (nonlinear_arith)
            requires
                w > 0,
                0 <= c <= 1000,
        ;
        if c > 0 {
            assert(w * (1000 - c) / 1000 < w) by (nonlinear_arith)
                requires
                    w > 0,
                    0 < c <= 1000,
            ;
        }
    }
}

} // verus!
