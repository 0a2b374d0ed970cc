//! A left/right facing, obtained from a compass direction by dropping its
//! vertical part.
use vstd::prelude::*;

use crate::direction::Direction;

verus! {

/// Facing east or west.
#[derive(Debug, Copy, Clone, PartialEq, Eq, Hash, Structural)]
pub enum TwoDimDirection {
    East,
    West,
}

/// Why a direction has no east/west facing.
#[derive(Debug, Copy, Clone, PartialEq, Eq, Hash, Structural)]
pub enum ConvertError {
    North,
    South,
    Here,
}

/// The facing of `d`: east for the directions with an eastward step, west for
/// those with a westward one, and the direction's own error otherwise.
pub open spec fn spec_facing(d: Direction) -> Result<TwoDimDirection, ConvertError> {
    match d {
        Direction::NorthEast | Direction::East | Direction::SouthEast => Ok(TwoDimDirection::East),
        Direction::SouthWest | Direction::West | Direction::NorthWest => Ok(TwoDimDirection::West),
        Direction::North => Err(ConvertError::North),
        Direction::South => Err(ConvertError::South),
        Direction::Here => Err(ConvertError::Here),
    }
}

impl TwoDimDirection {
    /// `true` when this is the default facing, `East`.
    pub fn is_default(self) -> (r: bool)
        ensures
            r <==> self == TwoDimDirection::East,
    {
        self == Self::default()
    }
}

impl Default for TwoDimDirection {
    fn default() -> (r: Self)
        ensures
            r == TwoDimDirection::East,
    {
        TwoDimDirection::East
    }
}

impl TryFrom<Direction> for TwoDimDirection {
    type Error = ConvertError;

    fn try_from(value: Direction) -> (r: Result<Self, Self::Error>) {
        match value {
            Direction::NorthEast | Direction::East | Direction::SouthEast => {
                Ok(TwoDimDirection::East)
            },
            Direction::SouthWest | Direction::West | Direction::NorthWest => {
                Ok(TwoDimDirection::West)
            },
            Direction::North => Err(ConvertError::North),
            Direction::South => Err(ConvertError::South),
            Direction::Here => Err(ConvertError::Here),
        }
    }
}

impl vstd::std_specs::convert::TryFromSpecImpl<Direction> for TwoDimDirection {
    open spec fn obeys_try_from_spec() -> bool {
        true
    }

    open spec fn try_from_spec(value: Direction) -> Result<TwoDimDirection, ConvertError> {
        spec_facing(value)
    }
}

/// A direction has a facing exactly when its step has a horizontal part, and
/// the facing is east exactly when that part points east.
pub proof fn lemma_facing_follows_dx(d: Direction)
    ensures
        spec_facing(d) is Ok <==> d.spec_dx() != 0,
        spec_facing(d) == Ok::<TwoDimDirection, ConvertError>(TwoDimDirection::East) <==> d.spec_dx()
            == 1,
{
}

} // verus!
