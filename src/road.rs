use vstd::prelude::*;

use crate::lane::{Lane, Turn};

verus! {

/// Width of a road, six lanes, in world units.
pub const ROAD_WIDTH: i32 = 240;

/// Width of one lane, in world units: a sixth of the road.
pub const LANE_WIDTH: i32 = 40;

/// Distance, in world units, of the lane arrows from the road's far end.
pub const ARROW_INSET: i32 = 90;

/// Compass direction of a road.
#[derive(Clone, Copy, Debug, PartialEq, Eq, Structural)]
pub enum Direction {
    North,
    South,
    East,
    West,
}

/// Turn of the lane at position `i` of a road, from the outer edge.
pub open spec fn turn_at(i: int) -> Turn {
    if i == 0 {
        Turn::UTurn
    } else if i == 1 {
        Turn::Left
    } else if i == 2 {
        Turn::SlightLeft
    } else if i == 3 {
        Turn::Straight
    } else if i == 4 {
        Turn::SlightRight
    } else {
        Turn::Right
    }
}

/// Arrow position of lane `i` of a road.
pub open spec fn arrow_at(
    direction: Direction,
    x: int,
    y: int,
    width: int,
    height: int,
    lane_width: int,
    i: int,
) -> (int, int) {
    let ax = match direction {
        Direction::East => x + ARROW_INSET,
        Direction::West => x + width - ARROW_INSET,
        _ => x + lane_width / 2 + i * lane_width,
    };
    let ay = match direction {
        Direction::North => y + height - ARROW_INSET,
        Direction::South => y + ARROW_INSET,
        _ => y + lane_width / 2,
    };
    (ax, ay)
}

/// A road with six lanes, one per turn.
pub struct Road {
    pub direction: Direction,
    pub x: i32,
    pub y: i32,
    pub width: u32,
    pub height: u32,
    pub lanes: Vec<Lane>,
}

impl Road {
    /// A road with its six lanes: u-turn, left, slight left, straight, slight
    /// right and right, each with its arrow position.
    pub fn new(direction: Direction, x: i32, y: i32, width: u32, height: u32, lane_width: u32) -> (r: Road)
        requires
            forall|i: int|
                0 <= i < 6 ==> {
                    let (ax, ay) = #[trigger] arrow_at(
                        direction,
                        x as int,
                        y as int,
                        width as int,
                        height as int,
                        lane_width as int,
                        i,
                    );
                    i32::MIN <= ax <= i32::MAX && i32::MIN <= ay <= i32::MAX
                },
        ensures
            r.direction == direction,
            r.x == x,
            r.y == y,
            r.width == width,
            r.height == height,
            r.lanes@.len() == 6,
            forall|i: int|
                0 <= i < 6 ==> {
                    let l = #[trigger] r.lanes@[i];
                    &&& l.turn == turn_at(i)
                    &&& l.direction == direction
                    &&& (l.x as int, l.y as int) == arrow_at(
                        direction,
                        x as int,
                        y as int,
                        width as int,
                        height as int,
                        lane_width as int,
                        i,
                    )
                },
    {
        let turns = [Turn::UTurn, Turn::Left, Turn::SlightLeft, Turn::Straight, Turn::SlightRight, Turn::Right];
        let lw = lane_width as i64;
        let mut lanes: Vec<Lane> = Vec::new();
        let mut i: usize = 0;
        while i < 6
            invariant
                0 <= i <= 6,
                lw == lane_width,
                turns@ == seq![Turn::UTurn, Turn::Left, Turn::SlightLeft, Turn::Straight, Turn::SlightRight, Turn::Right],
                forall|j: int|
                    0 <= j < 6 ==> {
                        let (ax, ay) = #[trigger] arrow_at(
                            direction,
                            x as int,
                            y as int,
                            width as int,
                            height as int,
                            lane_width as int,
                            j,
                        );
                        i32::MIN <= ax <= i32::MAX && i32::MIN <= ay <= i32::MAX
                    },
                lanes@.len() == i,
                forall|j: int|
                    0 <= j < i ==> {
                        let l = #[trigger] lanes@[j];
                        &&& l.turn == turn_at(j)
                        &&& l.direction == direction
                        &&& (l.x as int, l.y as int) == arrow_at(
                            direction,
                            x as int,
                            y as int,
                            width as int,
                            height as int,
                            lane_width as int,
                            j,
                        )
                    },
            decreases 6 - i,
        {
            assert(0 <= i * lane_width <= 5 * lane_width) by (nonlinear_arith)
                requires
                    0 <= i < 6,
                    0 <= lane_width,
            ;
            let ghost target = arrow_at(
                direction,
                x as int,
                y as int,
                width as int,
                height as int,
                lane_width as int,
                i as int,
            );
            let arrow_x: i64 = match direction {
                Direction::East => x as i64 + ARROW_INSET as i64,
                Direction::West => x as i64 + width as i64 - ARROW_INSET as i64,
                _ => x as i64 + lw / 2 + i as i64 * lw,
            };
            let arrow_y: i64 = match direction {
                Direction::North => y as i64 + height as i64 - ARROW_INSET as i64,
                Direction::South => y as i64 + ARROW_INSET as i64,
                _ => y as i64 + lw / 2,
            };
            assert(arrow_x == target.0 && arrow_y == target.1);
            lanes.push(Lane::new(turns[i], arrow_x as i32, arrow_y as i32, direction));
            i += 1;
        }
        Road { direction, x, y, width, height, lanes }
    }
}

} // verus!
