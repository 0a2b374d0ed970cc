//! The eight compass directions, plus `Here`, on a grid whose `y` axis points south.
use vstd::prelude::*;

verus! {

/// Sign of an integer: -1, 0 or 1.
pub open spec fn sign(v: int) -> int {
    if v < 0 {
        -1
    } else if v == 0 {
        0
    } else {
        1
    }
}

/// The eight moving directions, clockwise from east.
pub const DIR8: [Direction; 8] = [
    Direction::East,
    Direction::SouthEast,
    Direction::South,
    Direction::SouthWest,
    Direction::West,
    Direction::NorthWest,
    Direction::North,
    Direction::NorthEast,
];

/// `Here`, followed by the eight moving directions clockwise from east.
pub const DIR9: [Direction; 9] = [
    Direction::Here,
    Direction::East,
    Direction::SouthEast,
    Direction::South,
    Direction::SouthWest,
    Direction::West,
    Direction::NorthWest,
    Direction::North,
    Direction::NorthEast,
];

/// A compass direction on the grid, or `Here` for no movement.
#[derive(Debug, Copy, Clone, PartialEq, Eq, Hash, Structural)]
pub enum Direction {
    Here,
    North,
    NorthEast,
    East,
    SouthEast,
    South,
    SouthWest,
    West,
    NorthWest,
}

impl Direction {
    /// Horizontal component of the unit step (east is positive).
    pub open spec fn spec_dx(self) -> int {
        match self {
            Direction::NorthWest | Direction::West | Direction::SouthWest => -1,
            Direction::NorthEast | Direction::East | Direction::SouthEast => 1,
            Direction::North | Direction::South | Direction::Here => 0,
        }
    }

    /// Vertical component of the unit step (south is positive).
    pub open spec fn spec_dy(self) -> int {
        match self {
            Direction::NorthEast | Direction::North | Direction::NorthWest => -1,
            Direction::SouthEast | Direction::South | Direction::SouthWest => 1,
            Direction::East | Direction::West | Direction::Here => 0,
        }
    }

    /// The direction whose unit step has the signs of `(dx, dy)`.
    pub open spec fn spec_from_delta(dx: int, dy: int) -> Direction {
        let (sx, sy) = (sign(dx), sign(dy));
        if sx < 0 {
            if sy < 0 {
                Direction::NorthWest
            } else if sy == 0 {
                Direction::West
            } else {
                Direction::SouthWest
            }
        } else if sx == 0 {
            if sy < 0 {
                Direction::North
            } else if sy == 0 {
                Direction::Here
            } else {
                Direction::South
            }
        } else {
            if sy < 0 {
                Direction::NorthEast
            } else if sy == 0 {
                Direction::East
            } else {
                Direction::SouthEast
            }
        }
    }

    /// The eight moving directions, clockwise from east.
    pub open spec fn spec_all() -> Seq<Direction> {
        seq![
            Direction::East,
            Direction::SouthEast,
            Direction::South,
            Direction::SouthWest,
            Direction::West,
            Direction::NorthWest,
            Direction::North,
            Direction::NorthEast,
        ]
    }

    pub open spec fn spec_is_diagonal(self) -> bool {
        self.spec_dx() != 0 && self.spec_dy() != 0
    }

    /// `true` when this is the default direction, `East`.
    pub fn is_default(self) -> (r: bool)
        ensures
            r <==> self == Direction::East,
    {
        self == Self::default()
    }

    /// The eight moving directions, clockwise from east.
    pub fn all() -> (r: [Direction; 8])
        ensures
            r@ == Self::spec_all(),
    {
        let r = DIR8;
        assert(r@ =~= Self::spec_all());
        r
    }

    /// `Here`, followed by the eight moving directions clockwise from east.
    pub fn all_with_here() -> (r: [Direction; 9])
        ensures
            r@ == seq![Direction::Here] + Self::spec_all(),
    {
        let r = DIR9;
        assert(r@ =~= seq![Direction::Here] + Self::spec_all());
        r
    }

    /// Picks a direction from a draw `k` of a random source: `0..8` walk
    /// [`Direction::all`] in order, and `8` is `Here`.
    pub fn from_draw(k: u32) -> (r: Direction)
        requires
            k <= 8,
        ensures
            k < 8 ==> r == Self::spec_all()[k as int],
            k == 8 ==> r == Direction::Here,
    {
        match k {
            0 => Direction::East,
            1 => Direction::SouthEast,
            2 => Direction::South,
            3 => Direction::SouthWest,
            4 => Direction::West,
            5 => Direction::NorthWest,
            6 => Direction::North,
            7 => Direction::NorthEast,
            _ => Direction::Here,
        }
    }

    /// Classifies `(dx, dy)` by the sign of each component.
    pub fn from_delta(dx: i32, dy: i32) -> (r: Direction)
        ensures
            r == Self::spec_from_delta(dx as int, dy as int),
            r.spec_dx() == sign(dx as int),
            r.spec_dy() == sign(dy as int),
    {
        if dx < 0 {
            if dy < 0 {
                Direction::NorthWest
            } else if dy == 0 {
                Direction::West
            } else {
                Direction::SouthWest
            }
        } else if dx == 0 {
            if dy < 0 {
                Direction::North
            } else if dy == 0 {
                Direction::Here
            } else {
                Direction::South
            }
        } else {
            if dy < 0 {
                Direction::NorthEast
            } else if dy == 0 {
                Direction::East
            } else {
                Direction::SouthEast
            }
        }
    }

    /// Horizontal component of the unit step.
    pub fn dx(self) -> (r: i32)
        ensures
            r == self.spec_dx(),
    {
        match self {
            Direction::NorthWest | Direction::West | Direction::SouthWest => -1,
            Direction::NorthEast | Direction::East | Direction::SouthEast => 1,
            Direction::North | Direction::South | Direction::Here => 0,
        }
    }

    /// Vertical component of the unit step.
    pub fn dy(self) -> (r: i32)
        ensures
            r == self.spec_dy(),
    {
        match self {
            Direction::NorthEast | Direction::North | Direction::NorthWest => -1,
            Direction::SouthEast | Direction::South | Direction::SouthWest => 1,
            Direction::East | Direction::West | Direction::Here => 0,
        }
    }

    pub fn is_here(self) -> (r: bool)
        ensures
            r <==> self == Direction::Here,
    {
        self == Direction::Here
    }

    /// `true` for the four intercardinal directions.
    pub fn is_diagonal(self) -> (r: bool)
        ensures
            r <==> self.spec_is_diagonal(),
            r <==> (self == Direction::NorthEast || self == Direction::SouthEast
                || self == Direction::SouthWest || self == Direction::NorthWest),
    {
        match self {
            Direction::NorthEast | Direction::SouthEast | Direction::SouthWest
            | Direction::NorthWest => true,
            _ => false,
        }
    }
}

impl Default for Direction {
    fn default() -> (r: Self)
        ensures
            r == Direction::East,
    {
        Direction::East
    }
}

impl From<(i32, i32)> for Direction {
    fn from(delta: (i32, i32)) -> (r: Self) {
        Self::from_delta(delta.0, delta.1)
    }
}

impl vstd::std_specs::convert::FromSpecImpl<(i32, i32)> for Direction {
    open spec fn obeys_from_spec() -> bool {
        true
    }

    open spec fn from_spec(delta: (i32, i32)) -> Direction {
        Direction::spec_from_delta(delta.0 as int, delta.1 as int)
    }
}

/// `from_delta` looks only at the sign of each component.
pub proof fn lemma_from_delta_signs_only(dx1: int, dy1: int, dx2: int, dy2: int)
    requires
        sign(dx1) == sign(dx2),
        sign(dy1) == sign(dy2),
    ensures
        Direction::spec_from_delta(dx1, dy1) == Direction::spec_from_delta(dx2, dy2),
{
}

/// A direction's unit step classifies back to the same direction, and every
/// direction has a distinct step: value and step are in one-to-one correspondence.
pub proof fn lemma_delta_round_trip(d: Direction, e: Direction)
    ensures
        Direction::spec_from_delta(d.spec_dx(), d.spec_dy()) == d,
        (d.spec_dx() == e.spec_dx() && d.spec_dy() == e.spec_dy()) ==> d == e,
{
}

} // verus!
