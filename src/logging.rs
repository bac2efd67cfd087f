use vstd::prelude::*;
use vstd::string::StringExecFns;
use crate::ball::{Ball, BallTag, Vec2};

verus! {

/// The places one ball has been, tick by tick, during an episode.
pub struct BallTrace {
    pub class: BallTag,
    pub points: Vec<Vec2>,
}

/// The traces of the balls of an arena; trace `i` follows ball `i`.
pub struct AggBallPositions {
    pub positions: Vec<BallTrace>,
}

pub open spec fn digit_char(d: int) -> char {
    if d == 0 {
        '0'
    } else if d == 1 {
        '1'
    } else if d == 2 {
        '2'
    } else if d == 3 {
        '3'
    } else if d == 4 {
        '4'
    } else if d == 5 {
        '5'
    } else if d == 6 {
        '6'
    } else if d == 7 {
        '7'
    } else if d == 8 {
        '8'
    } else {
        '9'
    }
}

/// The decimal digits of `n`, without leading zeros.
pub open spec fn decimal(n: nat) -> Seq<char>
    decreases n,
{
    if n < 10 {
        seq![digit_char(n as int)]
    } else {
        decimal(n / 10).push(digit_char((n % 10) as int))
    }
}

pub open spec fn magnitude(v: int) -> nat {
    if v < 0 {
        (-v) as nat
    } else {
        v as nat
    }
}

/// A length in thousandths written in units with three decimals: `-0.250`.
pub open spec fn fixed_text(v: int) -> Seq<char> {
    let m = magnitude(v);
    (if v < 0 {
        seq!['-']
    } else {
        Seq::empty()
    }) + decimal(m / 1000) + seq![
        '.',
        digit_char(((m / 100) % 10) as int),
        digit_char(((m / 10) % 10) as int),
        digit_char((m % 10) as int),
    ]
}

pub open spec fn class_name(tag: BallTag) -> Seq<char> {
    match tag {
        BallTag::Red => "Red"@,
        BallTag::Blue => "Blue"@,
        BallTag::Green => "Green"@,
        BallTag::Yellow => "Yellow"@,
        BallTag::Player => "Player"@,
    }
}

/// One line of a trace: `x,z`.
pub open spec fn point_line(p: Vec2) -> Seq<char> {
    fixed_text(p.x as int) + seq![','] + fixed_text(p.z as int) + seq!['\n']
}

pub open spec fn points_text(ps: Seq<Vec2>) -> Seq<char>
    decreases ps.len(),
{
    if ps.len() == 0 {
        Seq::empty()
    } else {
        points_text(ps.drop_last()) + point_line(ps.last())
    }
}

/// One block of the log: the kind, one line per point, and a `---` line.
pub open spec fn block_text(t: BallTrace) -> Seq<char> {
    "Class: "@ + class_name(t.class) + seq!['\n'] + points_text(t.points@) + "---\n"@
}

pub open spec fn log_text(ts: Seq<BallTrace>) -> Seq<char>
    decreases ts.len(),
{
    if ts.len() == 0 {
        Seq::empty()
    } else {
        log_text(ts.drop_last()) + block_text(ts.last())
    }
}

fn push_digit(s: &mut String, d: u64)
    requires
        d < 10,
    ensures
        final(s)@ == old(s)@.push(digit_char(d as int)),
{
    let t: &str = if d == 0 {
        "0"
    } else if d == 1 {
        "1"
    } else if d == 2 {
        "2"
    } else if d == 3 {
        "3"
    } else if d == 4 {
        "4"
    } else if d == 5 {
        "5"
    } else if d == 6 {
        "6"
    } else if d == 7 {
        "7"
    } else if d == 8 {
        "8"
    } else {
        "9"
    };
    proof {
        reveal_strlit("0");
        reveal_strlit("1");
        reveal_strlit("2");
        reveal_strlit("3");
        reveal_strlit("4");
        reveal_strlit("5");
        reveal_strlit("6");
        reveal_strlit("7");
        reveal_strlit("8");
        reveal_strlit("9");
    }
    assert(t@ =~= seq![digit_char(d as int)]);
    s.append(t);
}

fn push_decimal(s: &mut String, n: u64)
    ensures
        final(s)@ == old(s)@ + decimal(n as nat),
    decreases n,
{
    if n >= 10 {
        push_decimal(s, n / 10);
    }
    push_digit(s, n % 10);
    assert(n < 10 ==> n % 10 == n);
}

fn push_fixed(s: &mut String, v: i64)
    ensures
        final(s)@ == old(s)@ + fixed_text(v as int),
{
    let ghost start = s@;
    let m: u64 = if v < 0 {
        (-(v as i128)) as u64
    } else {
        v as u64
    };
    if v < 0 {
        s.append("-");
        proof {
            reveal_strlit("-");
        }
    }
    assert(s@ == start + (if v < 0 {
        seq!['-']
    } else {
        Seq::<char>::empty()
    }));
    push_decimal(s, m / 1000);
    s.append(".");
    proof {
        reveal_strlit(".");
    }
    push_digit(s, (m / 100) % 10);
    push_digit(s, (m / 10) % 10);
    push_digit(s, m % 10);
    assert(s@ =~= start + fixed_text(v as int));
}

fn class_str(tag: BallTag) -> (r: &'static str)
    ensures
        r@ == class_name(tag),
{
    match tag {
        BallTag::Red => "Red",
        BallTag::Blue => "Blue",
        BallTag::Green => "Green",
        BallTag::Yellow => "Yellow",
        BallTag::Player => "Player",
    }
}

impl AggBallPositions {
    pub fn new() -> (r: AggBallPositions)
        ensures
            r.positions@.len() == 0,
    {
        AggBallPositions { positions: Vec::new() }
    }

    /// The position log of an episode: one block per ball, in ball order,
    /// each `Class: <kind>`, then `x,z` per tick, then `---`.
    pub fn render(&self) -> (r: String)
        ensures
            r@ == log_text(self.positions@),
    {
        let mut out = String::new();
        let mut i: usize = 0;
        while i < self.positions.len()
            invariant
                i <= self.positions@.len(),
                out@ == log_text(self.positions@.take(i as int)),
            decreases self.positions@.len() - i,
        {
            let ghost before = out@;
            let t = &self.positions[i];
            out.append("Class: ");
            out.append(class_str(t.class));
            out.append("\n");
            proof {
                reveal_strlit("\n");
            }
            let ghost head = out@;
            let mut k: usize = 0;
            while k < t.points.len()
                invariant
                    k <= t.points@.len(),
                    out@ == head + points_text(t.points@.take(k as int)),
                decreases t.points@.len() - k,
            {
                assert(t.points@.take(k + 1).drop_last() =~= t.points@.take(k as int));
                let p = t.points[k];
                let ghost mid = out@;
                push_fixed(&mut out, p.x);
                out.append(",");
                proof {
                    reveal_strlit(",");
                }
                push_fixed(&mut out, p.z);
                out.append("\n");
                proof {
                    reveal_strlit("\n");
                }
                assert(out@ =~= mid + point_line(p));
                k = k + 1;
            }
            assert(t.points@.take(t.points@.len() as int) =~= t.points@);
            out.append("---\n");
            proof {
                reveal_strlit("\n");
                assert(self.positions@.take(i + 1).drop_last() =~= self.positions@.take(i as int));
                assert(out@ =~= before + block_text(*t));
            }
            i = i + 1;
        }
        assert(self.positions@.take(self.positions@.len() as int) =~= self.positions@);
        out
    }
}

/// Records the current place of each ball: the point goes at the end of
/// trace `i` for ball `i`, and a ball without a trace yet gets a new one.
pub fn track_ball_positions(agg: &mut AggBallPositions, balls: &Vec<Ball>)
    ensures
        final(agg).positions@.len() == if old(agg).positions@.len() < balls@.len() {
            balls@.len()
        } else {
            old(agg).positions@.len()
        },
        forall|i: int|
            0 <= i < old(agg).positions@.len() && i < balls@.len() ==> {
                &&& (#[trigger] final(agg).positions@[i]).class == old(agg).positions@[i].class
                &&& final(agg).positions@[i].points@ == old(agg).positions@[i].points@.push(
                    balls@[i].position,
                )
            },
        forall|i: int|
            old(agg).positions@.len() <= i < balls@.len() ==> {
                &&& (#[trigger] final(agg).positions@[i]).class == balls@[i].class
                &&& final(agg).positions@[i].points@ == seq![balls@[i].position]
            },
        forall|i: int|
            balls@.len() <= i < old(agg).positions@.len() ==> #[trigger] final(agg).positions@[i]
                == old(agg).positions@[i],
{
    let mut i: usize = 0;
    while i < balls.len()
        invariant
            i <= balls@.len(),
            agg.positions@.len() == if old(agg).positions@.len() < i {
                i as nat
            } else {
                old(agg).positions@.len()
            },
            forall|j: int|
                0 <= j < old(agg).positions@.len() && j < i ==> {
                    &&& (#[trigger] agg.positions@[j]).class == old(agg).positions@[j].class
                    &&& agg.positions@[j].points@ == old(agg).positions@[j].points@.push(
                        balls@[j].position,
                    )
                },
            forall|j: int|
                old(agg).positions@.len() <= j < i ==> {
                    &&& (#[trigger] agg.positions@[j]).class == balls@[j].class
                    &&& agg.positions@[j].points@ == seq![balls@[j].position]
                },
            forall|j: int|
                i <= j < old(agg).positions@.len() ==> #[trigger] agg.positions@[j]
                    == old(agg).positions@[j],
        decreases balls@.len() - i,
    {
        let b = balls[i];
        if i < agg.positions.len() {
            agg.positions[i].points.push(b.position);
        } else {
            let mut points: Vec<Vec2> = Vec::new();
            points.push(b.position);
            agg.positions.push(BallTrace { class: b.class, points });
        }
        i = i + 1;
    }
}

} // verus!
