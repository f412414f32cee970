use vstd::prelude::*;

use crate::chance::random_between;

verus! {

// Geometry. Positions and speeds are fixed-point: `SCALE` sub-units make one
// world unit (one pixel of the 800 x 600 scene).
/// Sub-units per world unit.
pub const SCALE: i64 = 1000;

/// The world spans `[0, WORLD_EXTENT]` on both axes; a vehicle outside it is finished.
pub const WORLD_EXTENT: i64 = 800 * SCALE;

/// Left edge of the intersection rectangle (exclusive).
pub const INTERSECTION_LEFT: i64 = 304 * SCALE;

/// Right edge of the intersection rectangle (exclusive).
pub const INTERSECTION_RIGHT: i64 = 502 * SCALE;

/// Top edge of the intersection rectangle (exclusive).
pub const INTERSECTION_TOP: i64 = 198 * SCALE;

/// Bottom edge of the intersection rectangle (exclusive).
pub const INTERSECTION_BOTTOM: i64 = 406 * SCALE;

/// Depth of the zone before the intersection in which a vehicle yields and slows down.
pub const APPROACH_BUFFER: i64 = 50 * SCALE;

/// Lateral extent within which another vehicle counts as being in this one's lane.
pub const VEHICLE_SIZE: i64 = 30 * SCALE;

/// Separation kept from a vehicle that is ahead in the same lane.
pub const SAFETY_DISTANCE: i64 = 35 * SCALE;

/// Separation kept from every other vehicle.
pub const STOPPING_DISTANCE: i64 = 30 * SCALE;

/// Half-width of the square around a turn waypoint in which the heading snaps.
pub const TURN_TOLERANCE: i64 = 5 * SCALE;

/// Stop coordinate (y) of vehicles that enter from the north edge.
pub const NORTH_STOP_POS: i64 = 158 * SCALE;

/// Stop coordinate (y) of vehicles that enter from the south edge.
pub const SOUTH_STOP_POS: i64 = 440 * SCALE;

/// Stop coordinate (x) of vehicles that enter from the west edge.
pub const WEST_STOP_POS: i64 = 260 * SCALE;

/// Stop coordinate (x) of vehicles that enter from the east edge.
pub const EAST_STOP_POS: i64 = 540 * SCALE;

/// Number of vehicles inside the intersection from which outside vehicles stop at their stop line.
pub const CONGESTION_LIMIT: u64 = 3;

/// Lowest base speed, in sub-units per tick.
pub const MIN_SPEED: u64 = 3100;

/// Lowest speed after the slow-down: 30% of `MIN_SPEED`.
pub const MIN_SLOWED_SPEED: u64 = 930;

/// Highest base speed outside the intersection, in sub-units per tick.
pub const MAX_OUTSIDE_SPEED: u64 = 7900;

/// Highest base speed inside the intersection, in sub-units per tick.
pub const MAX_INSIDE_SPEED: u64 = 5100;

/// Largest coordinate magnitude for which one move is free of overflow.
pub const COORD_LIMIT: i64 = 1_000_000_000_000_000;

// Approach codes: the edge of the scene a vehicle enters from.
/// Enters at the bottom edge and travels north.
pub const FROM_SOUTH: u8 = 0;

/// Enters at the top edge and travels south.
pub const FROM_NORTH: u8 = 1;

/// Enters at the right edge and travels west.
pub const FROM_EAST: u8 = 2;

/// Enters at the left edge and travels east.
pub const FROM_WEST: u8 = 3;

/// A direction of travel; every turn in the scene is a right angle.
#[derive(Clone, Copy, Debug, PartialEq, Eq, Structural)]
pub enum Heading {
    East,
    South,
    West,
    North,
}

impl Heading {
    /// Unit step of this heading in screen coordinates (y grows downwards).
    pub open spec fn unit(self) -> (int, int) {
        match self {
            Heading::East => (1, 0),
            Heading::South => (0, 1),
            Heading::West => (-1, 0),
            Heading::North => (0, -1),
        }
    }

    /// The heading as a rotation angle in degrees, for drawing.
    pub fn degrees(&self) -> (r: i32)
        ensures
            r == match *self {
                Heading::East => 0i32,
                Heading::South => 90i32,
                Heading::West => 180i32,
                Heading::North => 270i32,
            },
    {
        match self {
            Heading::East => 0,
            Heading::South => 90,
            Heading::West => 180,
            Heading::North => 270,
        }
    }
}

/// Lane of a vehicle: the middle lane turns left, the right lane goes straight,
/// the left lane turns right.
#[derive(Clone, Copy, Debug, PartialEq, Eq, Structural)]
pub enum Lane {
    Middle,
    Right,
    Left,
}

impl Lane {
    /// Colour tag of the lane, as red, green and blue.
    pub fn color(&self) -> (r: (u8, u8, u8))
        ensures
            r == match *self {
                Lane::Right => (255u8, 255u8, 0u8),
                Lane::Middle => (0u8, 255u8, 255u8),
                Lane::Left => (200u8, 150u8, 200u8),
            },
    {
        match self {
            Lane::Right => (255, 255, 0),
            Lane::Middle => (0, 255, 255),
            Lane::Left => (200, 150, 200),
        }
    }
}

/// Outcome of one tick of one vehicle.
#[derive(Clone, Copy, Debug, PartialEq, Eq, Structural)]
pub enum Step {
    Moved,
    HeldForPriority,
    HeldForCollision,
    HeldForCongestion,
}

/// Heading a vehicle starts with, by approach code.
pub open spec fn initial_heading(direction: u8) -> Heading {
    if direction == FROM_SOUTH {
        Heading::North
    } else if direction == FROM_NORTH {
        Heading::South
    } else if direction == FROM_EAST {
        Heading::West
    } else {
        Heading::East
    }
}

/// Turn waypoint, in world units, and the heading taken there, by approach and lane.
pub open spec fn turn_rule(direction: u8, lane: Lane) -> Option<(int, int, Heading)> {
    match lane {
        Lane::Right => None,
        Lane::Middle => if direction == FROM_SOUTH {
            Some((420, 277, Heading::West))
        } else if direction == FROM_NORTH {
            Some((300, 200, Heading::West))
        } else if direction == FROM_EAST {
            Some((500, 200, Heading::North))
        } else if direction == FROM_WEST {
            Some((424, 320, Heading::North))
        } else {
            None
        },
        Lane::Left => if direction == FROM_SOUTH {
            Some((500, 400, Heading::East))
        } else if direction == FROM_NORTH {
            Some((380, 325, Heading::East))
        } else if direction == FROM_EAST {
            Some((375, 280, Heading::South))
        } else if direction == FROM_WEST {
            Some((300, 400, Heading::South))
        } else {
            None
        },
    }
}

/// Whether a point lies strictly inside the intersection rectangle.
pub open spec fn inside_at(x: int, y: int) -> bool {
    INTERSECTION_LEFT < x < INTERSECTION_RIGHT && INTERSECTION_TOP < y < INTERSECTION_BOTTOM
}

/// How far `v` lies outside `[lo, hi]`, zero within it.
pub open spec fn gap(v: int, lo: int, hi: int) -> int {
    if v < lo {
        lo - v
    } else if v > hi {
        v - hi
    } else {
        0
    }
}

/// A point `depth` before the line of an intersection edge, and `offset` past
/// the nearer end of that edge, is at most `APPROACH_BUFFER` from the edge.
pub open spec fn within_buffer(offset: int, depth: int) -> bool {
    0 <= depth && offset * offset + depth * depth <= APPROACH_BUFFER * APPROACH_BUFFER
}

/// Whether a point lies in the approach buffer of the given approach: on the
/// approach side of the intersection edge it enters by (so outside the
/// intersection) and at most `APPROACH_BUFFER` from that edge.
pub open spec fn in_approach_zone(direction: u8, x: int, y: int) -> bool {
    if direction == FROM_SOUTH {
        within_buffer(gap(x, INTERSECTION_LEFT as int, INTERSECTION_RIGHT as int), y - INTERSECTION_BOTTOM)
    } else if direction == FROM_NORTH {
        within_buffer(gap(x, INTERSECTION_LEFT as int, INTERSECTION_RIGHT as int), INTERSECTION_TOP - y)
    } else if direction == FROM_EAST {
        within_buffer(gap(y, INTERSECTION_TOP as int, INTERSECTION_BOTTOM as int), x - INTERSECTION_RIGHT)
    } else if direction == FROM_WEST {
        within_buffer(gap(y, INTERSECTION_TOP as int, INTERSECTION_BOTTOM as int), INTERSECTION_LEFT - x)
    } else {
        false
    }
}

/// Whether the move from `(x, y)` to `(nx, ny)` goes past the stop coordinate
/// of the given approach, starting on or before it.
pub open spec fn crosses_stop_line(direction: u8, x: int, y: int, nx: int, ny: int) -> bool {
    if direction == FROM_SOUTH {
        y >= SOUTH_STOP_POS && ny < SOUTH_STOP_POS
    } else if direction == FROM_NORTH {
        y <= NORTH_STOP_POS && ny > NORTH_STOP_POS
    } else if direction == FROM_EAST {
        x >= EAST_STOP_POS && nx < EAST_STOP_POS
    } else if direction == FROM_WEST {
        x <= WEST_STOP_POS && nx > WEST_STOP_POS
    } else {
        false
    }
}

/// Squared Euclidean distance.
pub open spec fn dist2(ax: int, ay: int, bx: int, by: int) -> int {
    (ax - bx) * (ax - bx) + (ay - by) * (ay - by)
}

pub open spec fn abs(a: int) -> int {
    if a < 0 {
        -a
    } else {
        a
    }
}

/// Number of vehicles of `vs` inside the intersection.
pub open spec fn inside_count(vs: Seq<Vehicle>) -> nat
    decreases vs.len(),
{
    if vs.len() == 0 {
        0
    } else {
        inside_count(vs.drop_last()) + if vs.last().inside() {
            1nat
        } else {
            0nat
        }
    }
}

/// One vehicle and its bookkeeping.
///
/// `direction` is an approach code (`FROM_SOUTH`, `FROM_NORTH`, `FROM_EAST`,
/// `FROM_WEST`). `x` and `y` are in sub-units, with y growing downwards.
/// `velocity` is the speed, in sub-units per tick, drawn for the vehicle at its
/// last tick (zero before its first).
#[derive(Clone, Copy, Debug, PartialEq, Eq)]
pub struct Vehicle {
    pub x: i64,
    pub y: i64,
    pub heading: Heading,
    pub direction: u8,
    pub lane: Lane,
    pub intersection_entry_time: Option<u64>,
    pub spawn_time: u64,
    pub close_call_count: u32,
    pub is_in_collision: bool,
    pub velocity: u64,
}

impl Vehicle {
    pub open spec fn inside(&self) -> bool {
        inside_at(self.x as int, self.y as int)
    }

    /// Outside the world's bounds.
    pub open spec fn finished(&self) -> bool {
        self.x < 0 || self.x > WORLD_EXTENT || self.y < 0 || self.y > WORLD_EXTENT
    }

    /// The entry time is recorded exactly while the vehicle is inside.
    pub open spec fn entry_consistent(&self) -> bool {
        self.intersection_entry_time.is_some() == self.inside()
    }

    /// Coordinates small enough that a move cannot overflow.
    pub open spec fn coords_fit(&self) -> bool {
        -COORD_LIMIT <= self.x <= COORD_LIMIT && -COORD_LIMIT <= self.y <= COORD_LIMIT
    }

    /// In the approach buffer on its entry side, not yet inside.
    pub open spec fn approaching(&self) -> bool {
        in_approach_zone(self.direction, self.x as int, self.y as int)
    }

    /// The vehicle after the turn-angle snap.
    pub open spec fn snapped(self) -> Vehicle {
        match turn_rule(self.direction, self.lane) {
            Some((tx, ty, h)) => if abs(self.x - tx * SCALE) < TURN_TOLERANCE && abs(
                self.y - ty * SCALE,
            ) < TURN_TOLERANCE {
                Vehicle { heading: h, ..self }
            } else {
                self
            },
            None => self,
        }
    }

    /// Timestamp this vehicle competes with for admission.
    pub open spec fn adopted_time(&self, now: u64) -> u64 {
        match self.intersection_entry_time {
            Some(t) => t,
            None => now,
        }
    }

    /// `o` is inside and entered before this vehicle's adopted time (or has no entry time).
    pub open spec fn yields_to(&self, o: Vehicle, now: u64) -> bool {
        o.inside() && match o.intersection_entry_time {
            Some(t) => t < self.adopted_time(now),
            None => true,
        }
    }

    /// The admission check holds this vehicle for the tick.
    pub open spec fn must_yield(&self, others: Seq<Vehicle>, now: u64) -> bool {
        self.approaching() && exists|i: int|
            0 <= i < others.len() && #[trigger] self.yields_to(others[i], now)
    }

    /// Highest base speed at the current position.
    pub open spec fn max_base_speed(&self) -> u64 {
        if self.inside() {
            MAX_INSIDE_SPEED
        } else {
            MAX_OUTSIDE_SPEED
        }
    }

    /// Speed for a drawn base speed: 30% of it in the approach buffer.
    pub open spec fn effective_speed(&self, base: u64) -> u64 {
        if self.approaching() {
            (base * 3 / 10) as u64
        } else {
            base
        }
    }

    pub open spec fn next_x(&self, speed: u64) -> int {
        self.x + speed * self.heading.unit().0
    }

    pub open spec fn next_y(&self, speed: u64) -> int {
        self.y + speed * self.heading.unit().1
    }

    /// `o` is forward along this vehicle's heading and laterally within one vehicle width.
    pub open spec fn is_ahead(&self, o: Vehicle) -> bool {
        match self.heading {
            Heading::North => o.y < self.y && abs(o.x - self.x) < VEHICLE_SIZE,
            Heading::South => o.y > self.y && abs(o.x - self.x) < VEHICLE_SIZE,
            Heading::West => o.x < self.x && abs(o.y - self.y) < VEHICLE_SIZE,
            Heading::East => o.x > self.x && abs(o.y - self.y) < VEHICLE_SIZE,
        }
    }

    /// Collision predicate for moving to `(nx, ny)`, against `o`'s current position.
    pub open spec fn collides(&self, nx: int, ny: int, o: Vehicle) -> bool {
        let d2 = dist2(nx, ny, o.x as int, o.y as int);
        (self.direction != o.direction && d2 < STOPPING_DISTANCE * STOPPING_DISTANCE) || (
        self.is_ahead(o) && d2 < SAFETY_DISTANCE * SAFETY_DISTANCE) || d2 < STOPPING_DISTANCE
            * STOPPING_DISTANCE
    }

    pub open spec fn collides_any(&self, nx: int, ny: int, others: Seq<Vehicle>) -> bool {
        exists|i: int| 0 <= i < others.len() && #[trigger] self.collides(nx, ny, others[i])
    }

    /// The congestion throttle keeps this vehicle behind its stop line.
    pub open spec fn throttled(&self, nx: int, ny: int, others: Seq<Vehicle>) -> bool {
        inside_count(others) >= CONGESTION_LIMIT && !self.inside() && crosses_stop_line(
            self.direction,
            self.x as int,
            self.y as int,
            nx,
            ny,
        )
    }

    /// Records the entry time on entering, keeps it while inside, clears it outside.
    pub open spec fn with_entry(self, now: u64) -> Vehicle {
        if self.inside() {
            match self.intersection_entry_time {
                Some(t) => self,
                None => Vehicle { intersection_entry_time: Some(now), ..self },
            }
        } else {
            Vehicle { intersection_entry_time: None, ..self }
        }
    }

    /// One tick of this vehicle against `others`, for a drawn base speed.
    pub open spec fn step_spec(self, others: Seq<Vehicle>, now: u64, base: u64) -> (
        Vehicle,
        Step,
    ) {
        if self.must_yield(others, now) {
            (
                Vehicle { velocity: self.effective_speed(base), ..self }.with_entry(now),
                Step::HeldForPriority,
            )
        } else {
            let s = self.snapped();
            let speed = s.effective_speed(base);
            let nx = s.next_x(speed);
            let ny = s.next_y(speed);
            let hit = s.collides_any(nx, ny, others);
            let count = if hit && !s.is_in_collision && s.close_call_count < u32::MAX {
                (s.close_call_count + 1) as u32
            } else {
                s.close_call_count
            };
            let throttled = !hit && s.throttled(nx, ny, others);
            let moved = Vehicle {
                x: if hit || throttled {
                    s.x
                } else {
                    nx as i64
                },
                y: if hit || throttled {
                    s.y
                } else {
                    ny as i64
                },
                close_call_count: count,
                is_in_collision: hit,
                velocity: speed,
                ..s
            };
            (
                moved.with_entry(now),
                if hit {
                    Step::HeldForCollision
                } else if throttled {
                    Step::HeldForCongestion
                } else {
                    Step::Moved
                },
            )
        }
    }

    /// A vehicle at `(x, y)` world units, with the heading of its approach, spawned at `spawn_time`.
    pub fn new(x: i32, y: i32, direction: u8, lane: Lane, spawn_time: u64) -> (r: Vehicle)
        ensures
            r.x == x * SCALE,
            r.y == y * SCALE,
            r.heading == initial_heading(direction),
            r.direction == direction,
            r.lane == lane,
            r.intersection_entry_time.is_none(),
            r.spawn_time == spawn_time,
            r.close_call_count == 0,
            !r.is_in_collision,
            r.velocity == 0,
    {
        let heading = if direction == FROM_SOUTH {
            Heading::North
        } else if direction == FROM_NORTH {
            Heading::South
        } else if direction == FROM_EAST {
            Heading::West
        } else {
            Heading::East
        };
        Vehicle {
            x: x as i64 * SCALE,
            y: y as i64 * SCALE,
            heading,
            direction,
            lane,
            intersection_entry_time: None,
            spawn_time,
            close_call_count: 0,
            is_in_collision: false,
            velocity: 0,
        }
    }

    pub fn is_in_intersection(&self) -> (r: bool)
        ensures
            r == self.inside(),
    {
        INTERSECTION_LEFT < self.x && self.x < INTERSECTION_RIGHT && INTERSECTION_TOP < self.y
            && self.y < INTERSECTION_BOTTOM
    }

    /// Whether the vehicle has left the world's bounds.
    pub fn is_finished(&self) -> (r: bool)
        ensures
            r == self.finished(),
    {
        self.x < 0 || self.x > WORLD_EXTENT || self.y < 0 || self.y > WORLD_EXTENT
    }

    fn is_approaching(&self) -> (r: bool)
        ensures
            r == self.approaching(),
    {
        let x = self.x as i128;
        let y = self.y as i128;
        if self.direction == FROM_SOUTH {
            near_edge(gap_of(self.x, INTERSECTION_LEFT, INTERSECTION_RIGHT), y - INTERSECTION_BOTTOM as i128)
        } else if self.direction == FROM_NORTH {
            near_edge(gap_of(self.x, INTERSECTION_LEFT, INTERSECTION_RIGHT), INTERSECTION_TOP as i128 - y)
        } else if self.direction == FROM_EAST {
            near_edge(gap_of(self.y, INTERSECTION_TOP, INTERSECTION_BOTTOM), x - INTERSECTION_RIGHT as i128)
        } else if self.direction == FROM_WEST {
            near_edge(gap_of(self.y, INTERSECTION_TOP, INTERSECTION_BOTTOM), INTERSECTION_LEFT as i128 - x)
        } else {
            false
        }
    }

    /// Admission check: `false` when this vehicle, in its approach buffer, must
    /// yield to a vehicle of `vehicles` that is inside and entered earlier than
    /// this vehicle's adopted time (or has no entry time recorded).
    pub fn check_intersection_priority(&self, vehicles: &[Vehicle], now: u64) -> (r: bool)
        ensures
            r == !self.must_yield(vehicles@, now),
    {
        if !self.is_approaching() {
            return true;
        }
        let self_time = match self.intersection_entry_time {
            Some(t) => t,
            None => now,
        };
        let mut i: usize = 0;
        while i < vehicles.len()
            invariant
                0 <= i <= vehicles@.len(),
                self.approaching(),
                self_time == self.adopted_time(now),
                forall|j: int| 0 <= j < i ==> !#[trigger] self.yields_to(vehicles@[j], now),
            decreases vehicles@.len() - i,
        {
            let other = &vehicles[i];
            if other.is_in_intersection() {
                match other.intersection_entry_time {
                    Some(t) => {
                        if t < self_time {
                            assert(self.yields_to(vehicles@[i as int], now));
                            return false;
                        }
                    },
                    None => {
                        assert(self.yields_to(vehicles@[i as int], now));
                        return false;
                    },
                }
            }
            i += 1;
        }
        true
    }

    fn turn_waypoint(&self) -> (r: Option<(i64, i64, Heading)>)
        ensures
            match turn_rule(self.direction, self.lane) {
                Some((tx, ty, h)) => r == Some((tx as i64, ty as i64, h)),
                None => r.is_none(),
            },
    {
        let d = self.direction;
        match self.lane {
            Lane::Right => None,
            Lane::Middle => if d == FROM_SOUTH {
                Some((420, 277, Heading::West))
            } else if d == FROM_NORTH {
                Some((300, 200, Heading::West))
            } else if d == FROM_EAST {
                Some((500, 200, Heading::North))
            } else if d == FROM_WEST {
                Some((424, 320, Heading::North))
            } else {
                None
            },
            Lane::Left => if d == FROM_SOUTH {
                Some((500, 400, Heading::East))
            } else if d == FROM_NORTH {
                Some((380, 325, Heading::East))
            } else if d == FROM_EAST {
                Some((375, 280, Heading::South))
            } else if d == FROM_WEST {
                Some((300, 400, Heading::South))
            } else {
                None
            },
        }
    }

    /// Turn-angle snap: near the waypoint of its approach and lane, the vehicle
    /// takes the heading that follows the turn.
    fn snap_heading(&mut self)
        requires
            old(self).coords_fit(),
        ensures
            *final(self) == old(self).snapped(),
    {
        match self.turn_waypoint() {
            Some((tx, ty, h)) => {
                let dx = self.x - tx * SCALE;
                let dy = self.y - ty * SCALE;
                if -TURN_TOLERANCE < dx && dx < TURN_TOLERANCE && -TURN_TOLERANCE < dy && dy
                    < TURN_TOLERANCE {
                    self.heading = h;
                }
            },
            None => {},
        }
    }

    /// Speed for a drawn base speed at the current state.
    pub fn velocity_from_base(&self, base: u64) -> (r: u64)
        requires
            base <= MAX_OUTSIDE_SPEED,
        ensures
            r == self.effective_speed(base),
    {
        if self.is_approaching() {
            base * 3 / 10
        } else {
            base
        }
    }

    fn draw_base_speed(&self) -> (r: u64)
        ensures
            MIN_SPEED <= r <= self.max_base_speed(),
    {
        let hi = if self.is_in_intersection() {
            MAX_INSIDE_SPEED
        } else {
            MAX_OUTSIDE_SPEED
        };
        random_between(MIN_SPEED, hi)
    }

    /// A freshly drawn speed for this tick: a random base speed in the range of
    /// the current position, slowed down in the approach buffer.
    pub fn get_velocity(&self, _vehicles: &[Vehicle]) -> (r: u64)
        ensures
            exists|base: u64|
                MIN_SPEED <= base <= self.max_base_speed() && r == self.effective_speed(base),
    {
        let base = self.draw_base_speed();
        self.velocity_from_base(base)
    }

    /// Records the entry time on entering, keeps it while inside, clears it outside.
    fn record_entry(&mut self, now: u64)
        ensures
            *final(self) == old(self).with_entry(now),
    {
        if self.is_in_intersection() {
            if self.intersection_entry_time.is_none() {
                self.intersection_entry_time = Some(now);
            }
        } else {
            self.intersection_entry_time = None;
        }
    }

    fn is_ahead_of(&self, o: &Vehicle) -> (r: bool)
        ensures
            r == self.is_ahead(*o),
    {
        let lateral = match self.heading {
            Heading::North | Heading::South => o.x as i128 - self.x as i128,
            Heading::West | Heading::East => o.y as i128 - self.y as i128,
        };
        let beside = -(VEHICLE_SIZE as i128) < lateral && lateral < VEHICLE_SIZE as i128;
        match self.heading {
            Heading::North => o.y < self.y && beside,
            Heading::South => o.y > self.y && beside,
            Heading::West => o.x < self.x && beside,
            Heading::East => o.x > self.x && beside,
        }
    }

    /// Collision predicate for moving to `(nx, ny)`, against `o`.
    fn collides_with(&self, nx: i64, ny: i64, o: &Vehicle) -> (r: bool)
        ensures
            r == self.collides(nx as int, ny as int, *o),
    {
        let dx = nx as i128 - o.x as i128;
        let dy = ny as i128 - o.y as i128;
        let near = closer_than(dx, dy, STOPPING_DISTANCE as i128);
        let within_safety = closer_than(dx, dy, SAFETY_DISTANCE as i128);
        (self.direction != o.direction && near) || (self.is_ahead_of(o) && within_safety) || near
    }

    fn collides_with_any(&self, nx: i64, ny: i64, vehicles: &[Vehicle]) -> (r: bool)
        ensures
            r == self.collides_any(nx as int, ny as int, vehicles@),
    {
        let mut i: usize = 0;
        while i < vehicles.len()
            invariant
                0 <= i <= vehicles@.len(),
                forall|j: int|
                    0 <= j < i ==> !#[trigger] self.collides(nx as int, ny as int, vehicles@[j]),
            decreases vehicles@.len() - i,
        {
            if self.collides_with(nx, ny, &vehicles[i]) {
                return true;
            }
            i += 1;
        }
        false
    }

    fn throttled_at(&self, nx: i64, ny: i64, vehicles: &[Vehicle]) -> (r: bool)
        ensures
            r == self.throttled(nx as int, ny as int, vehicles@),
    {
        if count_inside(vehicles) < CONGESTION_LIMIT || self.is_in_intersection() {
            return false;
        }
        let d = self.direction;
        if d == FROM_SOUTH {
            self.y >= SOUTH_STOP_POS && ny < SOUTH_STOP_POS
        } else if d == FROM_NORTH {
            self.y <= NORTH_STOP_POS && ny > NORTH_STOP_POS
        } else if d == FROM_EAST {
            self.x >= EAST_STOP_POS && nx < EAST_STOP_POS
        } else if d == FROM_WEST {
            self.x <= WEST_STOP_POS && nx > WEST_STOP_POS
        } else {
            false
        }
    }

    /// One tick of this vehicle against `vehicles` (every other active vehicle),
    /// with `base` the base speed drawn for the tick.
    ///
    /// In order: the admission check (held, position unchanged); the turn-angle
    /// snap; the speed; the collision predicate at the proposed position, which
    /// counts a close call when it first holds; the congestion throttle; the move,
    /// if nothing held it; the entry time.
    pub fn step(&mut self, vehicles: &[Vehicle], now: u64, base: u64) -> (r: Step)
        requires
            old(self).coords_fit(),
            base <= MAX_OUTSIDE_SPEED,
        ensures
            (*final(self), r) == old(self).step_spec(vehicles@, now, base),
            final(self).entry_consistent(),
            old(self).inside() && final(self).inside() && old(self).intersection_entry_time.is_some()
                ==> final(self).intersection_entry_time == old(self).intersection_entry_time,
            final(self).velocity == old(self).effective_speed(base),
    {
        if !self.check_intersection_priority(vehicles, now) {
            self.velocity = self.velocity_from_base(base);
            self.record_entry(now);
            return Step::HeldForPriority;
        }
        self.snap_heading();
        let speed = self.velocity_from_base(base);
        let v = speed as i64;
        let (nx, ny) = match self.heading {
            Heading::East => (self.x + v, self.y),
            Heading::South => (self.x, self.y + v),
            Heading::West => (self.x - v, self.y),
            Heading::North => (self.x, self.y - v),
        };
        let hit = self.collides_with_any(nx, ny, vehicles);
        let throttled = !hit && self.throttled_at(nx, ny, vehicles);
        if hit && !self.is_in_collision && self.close_call_count < u32::MAX {
            self.close_call_count = self.close_call_count + 1;
        }
        self.is_in_collision = hit;
        self.velocity = speed;
        if !hit && !throttled {
            self.x = nx;
            self.y = ny;
        }
        self.record_entry(now);
        if hit {
            Step::HeldForCollision
        } else if throttled {
            Step::HeldForCongestion
        } else {
            Step::Moved
        }
    }

    /// One tick of this vehicle against `vehicles`, with a freshly drawn base speed.
    pub fn update(&mut self, vehicles: &[Vehicle], now: u64) -> (r: Step)
        requires
            old(self).coords_fit(),
        ensures
            exists|base: u64|
                MIN_SPEED <= base <= old(self).max_base_speed() && (*final(self), r)
                    == old(self).step_spec(vehicles@, now, base),
            final(self).entry_consistent(),
            old(self).inside() && final(self).inside() && old(self).intersection_entry_time.is_some()
                ==> final(self).intersection_entry_time == old(self).intersection_entry_time,
    {
        let base = self.draw_base_speed();
        self.step(vehicles, now, base)
    }
}

/// How far `v` lies outside `[lo, hi]`.
fn gap_of(v: i64, lo: i64, hi: i64) -> (r: i128)
    requires
        lo <= hi,
    ensures
        r == gap(v as int, lo as int, hi as int),
{
    if v < lo {
        lo as i128 - v as i128
    } else if v > hi {
        v as i128 - hi as i128
    } else {
        0
    }
}

/// Whether a point `depth` before an edge's line and `offset` past its nearer
/// end is within the approach buffer.
fn near_edge(offset: i128, depth: i128) -> (r: bool)
    requires
        0 <= offset <= 0x4_0000_0000_0000_0000,
        -0x4_0000_0000_0000_0000 <= depth <= 0x4_0000_0000_0000_0000,
    ensures
        r == within_buffer(offset as int, depth as int),
{
    let b = APPROACH_BUFFER as i128;
    if depth < 0 {
        return false;
    }
    if offset > b || depth > b {
        assert(offset * offset + depth * depth > b * b) by (nonlinear_arith)
            requires
                offset > b || depth > b,
                0 <= offset,
                0 <= depth,
                b == 50000,
        ;
        return false;
    }
    assert(offset * offset <= b * b && depth * depth <= b * b) by (nonlinear_arith)
        requires
            0 <= offset <= b,
            0 <= depth <= b,
    ;
    offset * offset + depth * depth <= b * b
}

/// Whether `dx * dx + dy * dy < r * r`.
fn closer_than(dx: i128, dy: i128, r: i128) -> (b: bool)
    requires
        0 <= r <= 1_000_000,
        -0x1_0000_0000_0000_0000 <= dx <= 0x1_0000_0000_0000_0000,
        -0x1_0000_0000_0000_0000 <= dy <= 0x1_0000_0000_0000_0000,
    ensures
        b == (dx * dx + dy * dy < r * r),
{
    if dx <= -r || dx >= r || dy <= -r || dy >= r {
        assert(dx * dx + dy * dy >= r * r) by (nonlinear_arith)
            requires
                dx <= -r || dx >= r || dy <= -r || dy >= r,
                0 <= r,
        ;
        return false;
    }
    assert(0 <= dx * dx < r * r && 0 <= dy * dy < r * r && r * r <= 1_000_000_000_000)
        by (nonlinear_arith)
        requires
            -r < dx < r,
            -r < dy < r,
            r <= 1_000_000,
    ;
    dx * dx + dy * dy < r * r
}

/// Number of vehicles of `vehicles` inside the intersection.
pub fn count_inside(vehicles: &[Vehicle]) -> (r: u64)
    ensures
        r == inside_count(vehicles@),
{
    let mut n: u64 = 0;
    let mut i: usize = 0;
    while i < vehicles.len()
        invariant
            0 <= i <= vehicles@.len(),
            n == inside_count(vehicles@.subrange(0, i as int)),
            n <= i,
        decreases vehicles@.len() - i,
    {
        assert(vehicles@.subrange(0, i + 1).drop_last() =~= vehicles@.subrange(0, i as int));
        if vehicles[i].is_in_intersection() {
            n = n + 1;
        }
        i += 1;
    }
    assert(vehicles@.subrange(0, vehicles@.len() as int) =~= vehicles@);
    n
}

} // verus!
