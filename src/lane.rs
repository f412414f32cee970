use vstd::prelude::*;

use crate::road::Direction;

verus! {

/// What a lane's arrow shows.
#[derive(Clone, Copy, Debug, PartialEq, Eq, Structural)]
pub enum Turn {
    Left,
    SlightLeft,
    Straight,
    SlightRight,
    Right,
    UTurn,
}

/// A lane marking: its turn, the position of its arrow and the road's direction.
#[derive(Clone, Copy, Debug, PartialEq, Eq)]
pub struct Lane {
    pub turn: Turn,
    pub x: i32,
    pub y: i32,
    pub direction: Direction,
}

impl Lane {
    pub fn new(turn: Turn, x: i32, y: i32, direction: Direction) -> (r: Lane)
        ensures
            r == (Lane { turn, x, y, direction }),
    {
        Lane { turn, x, y, direction }
    }
}

/// Offset from the base to the tip of a lane arrow of length `s`, in screen
/// coordinates (y grows downwards); a slight turn goes half as far sideways,
/// rounded towards zero.
pub open spec fn arrow_vector(direction: Direction, turn: Turn, s: int) -> (int, int) {
    let h = if s >= 0 {
        s / 2
    } else {
        -((-s) / 2)
    };
    match direction {
        Direction::North => match turn {
            Turn::UTurn => (-s, s),
            Turn::Left => (-s, -s),
            Turn::SlightLeft => (-h, -s),
            Turn::Straight => (0, -s),
            Turn::SlightRight => (h, -s),
            Turn::Right => (s, -s),
        },
        Direction::South => match turn {
            Turn::UTurn => (s, -s),
            Turn::Left => (s, s),
            Turn::SlightLeft => (h, s),
            Turn::Straight => (0, s),
            Turn::SlightRight => (-h, s),
            Turn::Right => (-s, s),
        },
        Direction::East => match turn {
            Turn::UTurn => (-s, -s),
            Turn::Left => (s, -s),
            Turn::SlightLeft => (s, -h),
            Turn::Straight => (s, 0),
            Turn::SlightRight => (s, h),
            Turn::Right => (s, s),
        },
        Direction::West => match turn {
            Turn::UTurn => (s, s),
            Turn::Left => (-s, s),
            Turn::SlightLeft => (-s, h),
            Turn::Straight => (-s, 0),
            Turn::SlightRight => (-s, -h),
            Turn::Right => (-s, -s),
        },
    }
}

/// Offset from the base to the tip of the arrow of a lane, for drawing.
pub fn arrow_offset(direction: Direction, turn: Turn, arrow_size: i16) -> (r: (i16, i16))
    requires
        arrow_size > i16::MIN,
    ensures
        (r.0 as int, r.1 as int) == arrow_vector(direction, turn, arrow_size as int),
{
    let s = arrow_size;
    let h = s / 2;
    match direction {
        Direction::North => match turn {
            Turn::UTurn => (-s, s),
            Turn::Left => (-s, -s),
            Turn::SlightLeft => (-h, -s),
            Turn::Straight => (0, -s),
            Turn::SlightRight => (h, -s),
            Turn::Right => (s, -s),
        },
        Direction::South => match turn {
            Turn::UTurn => (s, -s),
            Turn::Left => (s, s),
            Turn::SlightLeft => (h, s),
            Turn::Straight => (0, s),
            Turn::SlightRight => (-h, s),
            Turn::Right => (-s, s),
        },
        Direction::East => match turn {
            Turn::UTurn => (-s, -s),
            Turn::Left => (s, -s),
            Turn::SlightLeft => (s, -h),
            Turn::Straight => (s, 0),
            Turn::SlightRight => (s, h),
            Turn::Right => (s, s),
        },
        Direction::West => match turn {
            Turn::UTurn => (s, s),
            Turn::Left => (-s, s),
            Turn::SlightLeft => (-s, h),
            Turn::Straight => (-s, 0),
            Turn::SlightRight => (-s, -h),
            Turn::Right => (-s, -s),
        },
    }
}

} // verus!
