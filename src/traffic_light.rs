use vstd::prelude::*;

verus! {

/// Number of ticks a light stays in one state before switching.
pub const CYCLE_DURATION: u32 = 300;

/// Side length, in pixels, of the square drawn for a light.
pub const LIGHT_SIZE: u32 = 20;

/// A two-state light that flips between red and green every `CYCLE_DURATION` ticks.
#[derive(Clone, Debug, PartialEq, Eq, Copy)]
pub struct TrafficLight {
    x: i32,
    y: i32,
    timer: u32,
    is_green: bool,
    offset: u32,
}

impl TrafficLight {
    /// The tick counter is below the cycle length.
    pub open spec fn wf(&self) -> bool {
        self.ticks() < CYCLE_DURATION
    }

    /// Ticks spent in the current state.
    pub closed spec fn ticks(&self) -> nat {
        self.timer as nat
    }

    /// Whether the light shows green.
    pub closed spec fn green(&self) -> bool {
        self.is_green
    }

    pub fn new(x: i32, y: i32, offset: u32) -> (r: Self)
        ensures
            r.wf(),
            r.ticks() == 0,
            !r.green(),
            r.position() == (x, y),
            r.phase_offset() == offset,
    {
        TrafficLight { x, y, timer: 0, is_green: false, offset }
    }

    /// Advances the light by one tick; on reaching the cycle length the counter
    /// restarts and the light switches.
    pub fn update(&mut self)
        requires
            old(self).wf(),
        ensures
            final(self).wf(),
            old(self).ticks() + 1 >= CYCLE_DURATION ==> final(self).ticks() == 0
                && final(self).green() == !old(self).green(),
            old(self).ticks() + 1 < CYCLE_DURATION ==> final(self).ticks() == old(self).ticks() + 1
                && final(self).green() == old(self).green(),
            final(self).position() == old(self).position(),
            final(self).phase_offset() == old(self).phase_offset(),
    {
        self.timer += 1;
        if self.timer >= CYCLE_DURATION {
            self.timer = 0;
            self.is_green = !self.is_green;
        }
    }

    pub fn is_green(&self) -> (r: bool)
        ensures
            r == self.green(),
    {
        self.is_green
    }

    /// Where the light is drawn.
    pub closed spec fn position(&self) -> (i32, i32) {
        (self.x, self.y)
    }

    /// The phase offset the light was created with.
    pub closed spec fn phase_offset(&self) -> u32 {
        self.offset
    }

    /// Two lights that agree on counter, colour, position and offset are equal.
    pub proof fn lemma_state_determines_light(a: TrafficLight, b: TrafficLight)
        requires
            a.ticks() == b.ticks(),
            a.green() == b.green(),
            a.position() == b.position(),
            a.phase_offset() == b.phase_offset(),
        ensures
            a == b,
    {
    }

    pub fn get_position(&self) -> (r: (i32, i32))
        ensures
            r == self.position(),
    {
        (self.x, self.y)
    }
}

} // verus!
