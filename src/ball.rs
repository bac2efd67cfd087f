use vstd::prelude::*;

verus! {

/// Thousandths of a world unit per world unit.
pub const SCALE: i64 = 1000;

/// Drag of the player ball, in thousandths per tick.
pub const PLAYER_DRAG: u32 = 100;

/// Drag of an autonomous ball, in thousandths per tick.
pub const BALL_DRAG: u32 = 10;

/// Restitution of the player ball, in thousandths.
pub const PLAYER_RESTITUTION: u32 = 0;

/// Restitution of an autonomous ball, in thousandths.
pub const BALL_RESTITUTION: u32 = 700;

/// Radius of the player ball, in thousandths of a unit.
pub const PLAYER_RADIUS: i64 = 1500;

/// A point or a velocity in the horizontal plane (the height is locked).
#[derive(PartialEq, Eq, Debug, Clone, Copy, Structural)]
pub struct Vec2 {
    pub x: i64,
    pub z: i64,
}

impl Vec2 {
    pub fn zero() -> (r: Vec2)
        ensures
            r.x == 0 && r.z == 0,
    {
        Vec2 { x: 0, z: 0 }
    }
}

/// An sRGB colour with 8-bit channels.
#[derive(PartialEq, Eq, Debug, Clone, Copy, Structural)]
pub struct Rgb {
    pub r: u8,
    pub g: u8,
    pub b: u8,
}

/// One of the four autonomous colours, or the player-controlled ball.
#[derive(PartialEq, Eq, Debug, Clone, Copy, Structural)]
pub enum BallTag {
    Red,
    Blue,
    Green,
    Yellow,
    Player,
}

/// The sign pair of the quadrant a ball of this kind is rewarded for reaching.
pub open spec fn home_quadrant(tag: BallTag) -> Option<(i8, i8)> {
    match tag {
        BallTag::Blue => Some((-1i8, -1i8)),
        BallTag::Yellow => Some((1i8, -1i8)),
        BallTag::Green => Some((-1i8, 1i8)),
        BallTag::Red => Some((1i8, 1i8)),
        BallTag::Player => None,
    }
}

/// The colour a ball of this kind is drawn with.
pub open spec fn color_of(tag: BallTag) -> Rgb {
    match tag {
        BallTag::Blue => Rgb { r: 38, g: 70, b: 83 },
        BallTag::Yellow => Rgb { r: 233, g: 196, b: 106 },
        BallTag::Green => Rgb { r: 42, g: 157, b: 143 },
        BallTag::Red => Rgb { r: 231, g: 111, b: 81 },
        BallTag::Player => Rgb { r: 255, g: 255, b: 255 },
    }
}

/// The drag of a ball of this kind: autonomous balls are the slipperier ones.
pub open spec fn drag_of(tag: BallTag) -> u32 {
    if tag == BallTag::Player {
        PLAYER_DRAG
    } else {
        BALL_DRAG
    }
}

/// Whether `(x, z)` lies strictly inside the home quadrant of `tag`.
pub open spec fn in_home(tag: BallTag, x: int, z: int) -> bool {
    match home_quadrant(tag) {
        Some((sx, sz)) => x * sx > 0 && z * sz > 0,
        None => false,
    }
}

impl BallTag {
    pub fn color(&self) -> (r: Rgb)
        ensures
            r == color_of(*self),
    {
        match self {
            BallTag::Blue => Rgb { r: 38, g: 70, b: 83 },
            BallTag::Yellow => Rgb { r: 233, g: 196, b: 106 },
            BallTag::Green => Rgb { r: 42, g: 157, b: 143 },
            BallTag::Red => Rgb { r: 231, g: 111, b: 81 },
            BallTag::Player => Rgb { r: 255, g: 255, b: 255 },
        }
    }

    /// The home quadrant: `None` for the player, a pair of signs otherwise.
    pub fn target_quadrant(&self) -> (r: Option<(i8, i8)>)
        ensures
            r == home_quadrant(*self),
            r is None <==> *self == BallTag::Player,
            r matches Some((sx, sz)) ==> (sx == 1 || sx == -1) && (sz == 1 || sz == -1),
    {
        match self {
            BallTag::Blue => Some((-1, -1)),
            BallTag::Yellow => Some((1, -1)),
            BallTag::Green => Some((-1, 1)),
            BallTag::Red => Some((1, 1)),
            BallTag::Player => None,
        }
    }

    pub fn drag_coefficient(&self) -> (r: u32)
        ensures
            r == drag_of(*self),
    {
        match self {
            BallTag::Player => PLAYER_DRAG,
            _ => BALL_DRAG,
        }
    }

    pub fn restitution(&self) -> (r: u32)
        ensures
            r == (if *self == BallTag::Player { PLAYER_RESTITUTION } else { BALL_RESTITUTION }),
    {
        match self {
            BallTag::Player => PLAYER_RESTITUTION,
            _ => BALL_RESTITUTION,
        }
    }
}

/// One physical sphere of an arena, with the state the physics engine
/// last reported for it.
#[derive(PartialEq, Eq, Debug, Clone, Copy, Structural)]
pub struct Ball {
    /// Fraction of the velocity removed each tick, in thousandths.
    pub drag_coefficient: u32,
    pub class: BallTag,
    pub radius: i64,
    pub position: Vec2,
    pub velocity: Vec2,
}

impl Ball {
    /// The record of a new ball; its drag follows from its kind.
    pub fn spawn(radius: i64, position: Vec2, velocity: Vec2, tag: BallTag) -> (r: Ball)
        ensures
            r.drag_coefficient == drag_of(tag),
            r.class == tag,
            r.radius == radius,
            r.position == position,
            r.velocity == velocity,
    {
        Ball {
            drag_coefficient: tag.drag_coefficient(),
            class: tag,
            radius,
            position,
            velocity,
        }
    }

    /// Whether `(x, z)` is strictly inside this ball's home quadrant; a ball on
    /// an axis is not home, and the player never is.
    pub fn correct_quadrant(&self, x: i64, z: i64) -> (r: bool)
        ensures
            r == in_home(self.class, x as int, z as int),
    {
        match self.class.target_quadrant() {
            None => false,
            Some((sx, sz)) => {
                let hx = if sx > 0 { x > 0 } else { x < 0 };
                let hz = if sz > 0 { z > 0 } else { z < 0 };
                hx && hz
            },
        }
    }

    /// Whether this ball currently sits in its home quadrant.
    pub fn is_home(&self) -> (r: bool)
        ensures
            r == in_home(self.class, self.position.x as int, self.position.z as int),
    {
        self.correct_quadrant(self.position.x, self.position.z)
    }
}

/// The player-controlled ball of an arena.
pub struct ControllableBall {}

impl ControllableBall {
    /// The record of a player ball at rest at `position`.
    pub fn spawn(position: Vec2) -> (r: Ball)
        ensures
            r.class == BallTag::Player,
            r.drag_coefficient == PLAYER_DRAG,
            r.radius == PLAYER_RADIUS,
            r.position == position,
            r.velocity == (Vec2 { x: 0, z: 0 }),
    {
        Ball::spawn(PLAYER_RADIUS, position, Vec2::zero(), BallTag::Player)
    }
}

/// Every autonomous kind has a home quadrant whose signs are each 1 or -1;
/// the player has none.
pub proof fn lemma_home_quadrant_signs(tag: BallTag)
    ensures
        tag == BallTag::Player <==> home_quadrant(tag) is None,
        home_quadrant(tag) matches Some((sx, sz)) ==> (sx == 1 || sx == -1) && (sz == 1 || sz == -1),
{
}

} // verus!
