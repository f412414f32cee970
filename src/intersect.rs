use vstd::prelude::*;

verus! {

/// The square where the roads meet, as drawn: its corner, side and lane width.
pub struct Intersection {
    pub position: (i32, i32),
    pub size: u32,
    pub lane_width: u32,
}

impl Intersection {
    pub fn new(x: i32, y: i32, size: u32, lane_width: u32) -> (r: Intersection)
        ensures
            r.position == (x, y),
            r.size == size,
            r.lane_width == lane_width,
    {
        Intersection { position: (x, y), size, lane_width }
    }
}

} // verus!
