use vstd::prelude::*;

use crate::chance::random_between;
use crate::road::LANE_WIDTH;
use crate::vehicle::{
    dist2, initial_heading, Lane, Vehicle, FROM_EAST, FROM_NORTH, FROM_SOUTH,
    MAX_INSIDE_SPEED, MAX_OUTSIDE_SPEED, MIN_SLOWED_SPEED, MIN_SPEED, SCALE, STOPPING_DISTANCE,
};

verus! {

/// Minimum time between two spawns, in milliseconds.
pub const SPAWN_COOLDOWN_MS: u64 = 650;

/// Largest number of vehicles active at once.
pub const MAX_VEHICLES: usize = 12;

/// Outcome of a spawn request.
#[derive(Clone, Copy, Debug, PartialEq, Eq, Structural)]
pub enum SpawnOutcome {
    Spawned,
    RejectedCapacity,
    RejectedCooldown,
    RejectedOccupied,
}

/// The world's state, as seen by contracts.
pub struct WorldModel {
    pub vehicles: Seq<Vehicle>,
    pub last_spawn: u64,
    pub cooldown: u64,
    pub capacity: usize,
    pub passed: u32,
    pub max_velocity: u64,
    pub min_velocity: u64,
    pub max_crossing: u64,
    pub min_crossing: u64,
}

/// Milliseconds from `since` to `now`, zero if the clock reads earlier.
pub open spec fn elapsed(now: u64, since: u64) -> u64 {
    if now >= since {
        (now - since) as u64
    } else {
        0
    }
}

/// Spawn point, in world units, of the given approach and lane index (0, 1 or 2).
pub open spec fn spawn_point(direction: u8, k: int) -> (int, int) {
    if direction == FROM_NORTH {
        (300 + LANE_WIDTH * k, 0)
    } else if direction == FROM_EAST {
        (800, 200 + LANE_WIDTH * k)
    } else if direction == FROM_SOUTH {
        (420 + LANE_WIDTH * k, 600)
    } else {
        (0, 320 + LANE_WIDTH * k)
    }
}

/// Lane by lane index: middle, right, left.
pub open spec fn lane_for(k: int) -> Lane {
    if k == 0 {
        Lane::Middle
    } else if k == 1 {
        Lane::Right
    } else {
        Lane::Left
    }
}

/// A vehicle as created at `(x, y)` world units.
pub open spec fn fresh_vehicle(x: int, y: int, direction: u8, lane: Lane, t: u64) -> Vehicle {
    Vehicle {
        x: (x * SCALE) as i64,
        y: (y * SCALE) as i64,
        heading: initial_heading(direction),
        direction,
        lane,
        intersection_entry_time: None,
        spawn_time: t,
        close_call_count: 0,
        is_in_collision: false,
        velocity: 0,
    }
}

/// What a spawn request for `direction` at time `now` does.
pub open spec fn spawn_spec(m: WorldModel, direction: u8, now: u64) -> (WorldModel, SpawnOutcome) {
    let n = m.vehicles.len();
    let k = (n % 3) as int;
    let (sx, sy) = spawn_point(direction, k);
    if n >= m.capacity {
        (m, SpawnOutcome::RejectedCapacity)
    } else if elapsed(now, m.last_spawn) < m.cooldown {
        (m, SpawnOutcome::RejectedCooldown)
    } else if exists|i: int|
        0 <= i < n && #[trigger] m.vehicles[i].x == sx * SCALE && m.vehicles[i].y == sy * SCALE {
        (m, SpawnOutcome::RejectedOccupied)
    } else {
        (
            WorldModel {
                vehicles: m.vehicles.push(fresh_vehicle(sx, sy, direction, lane_for(k), now)),
                last_spawn: now,
                ..m
            },
            SpawnOutcome::Spawned,
        )
    }
}

/// The vehicles after the first `k` have taken their tick, in order: each sees
/// the ones before it already moved and the ones after it not yet.
pub open spec fn run_steps(vs: Seq<Vehicle>, now: u64, bases: Seq<u64>, k: nat) -> Seq<Vehicle>
    decreases k,
{
    if k == 0 {
        vs
    } else {
        let w = run_steps(vs, now, bases, (k - 1) as nat);
        let i = k - 1;
        w.update(i, w[i].step_spec(w.remove(i), now, bases[i]).0)
    }
}

/// The vehicles of `vs` that are still within bounds, in order.
pub open spec fn kept(vs: Seq<Vehicle>) -> Seq<Vehicle>
    decreases vs.len(),
{
    if vs.len() == 0 {
        Seq::empty()
    } else if vs.last().finished() {
        kept(vs.drop_last())
    } else {
        kept(vs.drop_last()).push(vs.last())
    }
}

pub open spec fn finished_count(vs: Seq<Vehicle>) -> nat
    decreases vs.len(),
{
    if vs.len() == 0 {
        0
    } else {
        finished_count(vs.drop_last()) + if vs.last().finished() {
            1nat
        } else {
            0nat
        }
    }
}

/// Running maximum of crossing durations, folded over the finished vehicles of `vs`.
pub open spec fn crossing_max(vs: Seq<Vehicle>, now: u64, acc: u64) -> u64
    decreases vs.len(),
{
    if vs.len() == 0 {
        acc
    } else {
        let a = crossing_max(vs.drop_last(), now, acc);
        let d = elapsed(now, vs.last().spawn_time);
        if vs.last().finished() && d > a {
            d
        } else {
            a
        }
    }
}

/// Running minimum of crossing durations, folded over the finished vehicles of
/// `vs`; `recorded` says whether `acc` already holds a crossing time. The first
/// crossing folded in replaces `acc` when it does not.
pub open spec fn crossing_min(vs: Seq<Vehicle>, now: u64, acc: u64, recorded: bool) -> u64
    decreases vs.len(),
{
    if vs.len() == 0 {
        acc
    } else {
        let a = crossing_min(vs.drop_last(), now, acc, recorded);
        let seen = recorded || finished_count(vs.drop_last()) > 0;
        let d = elapsed(now, vs.last().spawn_time);
        if vs.last().finished() && (!seen || d < a) {
            d
        } else {
            a
        }
    }
}

/// Largest speed of the last tick over `vs`, zero for none.
pub open spec fn velocity_max(vs: Seq<Vehicle>) -> u64
    decreases vs.len(),
{
    if vs.len() == 0 {
        0
    } else if vs.last().velocity > velocity_max(vs.drop_last()) {
        vs.last().velocity
    } else {
        velocity_max(vs.drop_last())
    }
}

/// Smallest speed of the last tick over `vs`, zero for none.
pub open spec fn velocity_min(vs: Seq<Vehicle>) -> u64
    decreases vs.len(),
{
    if vs.len() == 0 {
        0
    } else if vs.len() == 1 || vs.last().velocity < velocity_min(vs.drop_last()) {
        vs.last().velocity
    } else {
        velocity_min(vs.drop_last())
    }
}

pub open spec fn close_call_total(vs: Seq<Vehicle>) -> nat
    decreases vs.len(),
{
    if vs.len() == 0 {
        0
    } else {
        close_call_total(vs.drop_last()) + vs.last().close_call_count as nat
    }
}

pub open spec fn saturating_add_u32(a: u32, b: nat) -> u32 {
    if a + b > u32::MAX {
        u32::MAX
    } else {
        (a + b) as u32
    }
}

/// One simulation tick at time `now`, with `bases` the base speeds drawn for the vehicles.
pub open spec fn tick_spec(m: WorldModel, now: u64, bases: Seq<u64>) -> WorldModel {
    let w = run_steps(m.vehicles, now, bases, m.vehicles.len());
    WorldModel {
        vehicles: kept(w),
        passed: saturating_add_u32(m.passed, finished_count(w)),
        max_crossing: crossing_max(w, now, m.max_crossing),
        min_crossing: crossing_min(w, now, m.min_crossing, m.passed > 0),
        max_velocity: velocity_max(kept(w)),
        min_velocity: velocity_min(kept(w)),
        ..m
    }
}

impl WorldModel {
    /// Every active vehicle's speed of the last tick, and so the speed
    /// statistics when a vehicle is active, lie between the slowed minimum and
    /// the outside maximum.
    pub open spec fn speeds_in_range(self) -> bool {
        &&& forall|i: int|
            0 <= i < self.vehicles.len() ==> MIN_SLOWED_SPEED <= (#[trigger] self.vehicles[i]).velocity
                <= MAX_OUTSIDE_SPEED
        &&& self.vehicles.len() > 0 ==> MIN_SLOWED_SPEED <= self.min_velocity <= MAX_OUTSIDE_SPEED
            && MIN_SLOWED_SPEED <= self.max_velocity <= MAX_OUTSIDE_SPEED
    }

    /// At most `capacity` vehicles; no crossing time before a vehicle has
    /// passed; every active vehicle is within bounds and records its entry time
    /// exactly while inside.
    pub open spec fn wf(self) -> bool {
        &&& self.vehicles.len() <= self.capacity <= MAX_VEHICLES
        &&& self.passed == 0 ==> self.min_crossing == 0 && self.max_crossing == 0
        &&& forall|i: int|
            0 <= i < self.vehicles.len() ==> !(#[trigger] self.vehicles[i]).finished()
                && self.vehicles[i].entry_consistent()
    }
}

/// Decimal digit `d` as a character.
pub open spec fn digit_char(d: int) -> char {
    if d == 0 {
        '0'
    } else if d == 1 {
        '1'
    } else if d == 2 {
        '2'
    } else if d == 3 {
        '3'
    } else if d == 4 {
        '4'
    } else if d == 5 {
        '5'
    } else if d == 6 {
        '6'
    } else if d == 7 {
        '7'
    } else if d == 8 {
        '8'
    } else {
        '9'
    }
}

/// Decimal notation of `n`, without leading zeros.
pub open spec fn decimal(n: nat) -> Seq<char>
    decreases n,
{
    if n < 10 {
        seq![digit_char(n as int)]
    } else {
        decimal(n / 10).push(digit_char((n % 10) as int))
    }
}

/// A duration in milliseconds as seconds with two decimals, the rest cut off.
pub open spec fn seconds_text(ms: u64) -> Seq<char> {
    decimal((ms / 1000) as nat) + seq![
        '.',
        digit_char(((ms % 1000) / 100) as int),
        digit_char(((ms % 100) / 10) as int),
    ]
}

/// Sub-units rounded to the nearest whole world unit, halves up.
pub open spec fn rounded_units(v: u64) -> u64 {
    (v / 1000 + if v % 1000 >= 500 {
        1u64
    } else {
        0u64
    }) as u64
}

fn digit_str(d: u64) -> (s: &'static str)
    requires
        d < 10,
    ensures
        s@ == seq![digit_char(d as int)],
{
    if d == 0 {
        proof { reveal_strlit("0"); }
        "0"
    } else if d == 1 {
        proof { reveal_strlit("1"); }
        "1"
    } else if d == 2 {
        proof { reveal_strlit("2"); }
        "2"
    } else if d == 3 {
        proof { reveal_strlit("3"); }
        "3"
    } else if d == 4 {
        proof { reveal_strlit("4"); }
        "4"
    } else if d == 5 {
        proof { reveal_strlit("5"); }
        "5"
    } else if d == 6 {
        proof { reveal_strlit("6"); }
        "6"
    } else if d == 7 {
        proof { reveal_strlit("7"); }
        "7"
    } else if d == 8 {
        proof { reveal_strlit("8"); }
        "8"
    } else {
        proof { reveal_strlit("9"); }
        "9"
    }
}

fn append_decimal(s: &mut String, n: u64)
    ensures
        final(s)@ == old(s)@ + decimal(n as nat),
    decreases n,
{
    if n >= 10 {
        append_decimal(s, n / 10);
    }
    s.append(digit_str(n % 10));
    assert(final(s)@ =~= old(s)@ + decimal(n as nat)) by {
        if n >= 10 {
            assert(decimal(n as nat) == decimal((n / 10) as nat).push(digit_char((n % 10) as int)));
        }
    }
}

/// Renders a duration in milliseconds as seconds with two decimals (1250 gives "1.25").
pub fn format_seconds(ms: u64) -> (r: String)
    ensures
        r@ == seconds_text(ms),
{
    let mut s = String::new();
    append_decimal(&mut s, ms / 1000);
    proof { reveal_strlit("."); }
    s.append(".");
    s.append(digit_str(ms % 1000 / 100));
    s.append(digit_str(ms % 100 / 10));
    assert(s@ =~= seconds_text(ms));
    s
}

/// Running the steps keeps the length and leaves the vehicles from `k` on untouched.
proof fn lemma_run_steps_frame(vs: Seq<Vehicle>, now: u64, bases: Seq<u64>, k: nat)
    requires
        k <= vs.len(),
    ensures
        run_steps(vs, now, bases, k).len() == vs.len(),
        forall|j: int| k <= j < vs.len() ==> #[trigger] run_steps(vs, now, bases, k)[j] == vs[j],
    decreases k,
{
    if k > 0 {
        lemma_run_steps_frame(vs, now, bases, (k - 1) as nat);
    }
}

/// After the steps every vehicle records its entry time exactly while inside.
proof fn lemma_run_steps_entry(vs: Seq<Vehicle>, now: u64, bases: Seq<u64>, k: nat)
    requires
        k <= vs.len(),
        forall|j: int| 0 <= j < vs.len() ==> (#[trigger] vs[j]).entry_consistent(),
    ensures
        forall|j: int|
            0 <= j < vs.len() ==> (#[trigger] run_steps(vs, now, bases, k)[j]).entry_consistent(),
    decreases k,
{
    if k > 0 {
        lemma_run_steps_frame(vs, now, bases, (k - 1) as nat);
        lemma_run_steps_entry(vs, now, bases, (k - 1) as nat);
        let w = run_steps(vs, now, bases, (k - 1) as nat);
        let i = k - 1;
        let r = w[i].step_spec(w.remove(i), now, bases[i]).0;
        assert(r.entry_consistent());
    }
}

/// With no finished vehicle, the crossing statistics keep their value.
proof fn lemma_no_finished_keeps_crossing(vs: Seq<Vehicle>, now: u64, max0: u64, min0: u64, recorded: bool)
    requires
        finished_count(vs) == 0,
    ensures
        crossing_max(vs, now, max0) == max0,
        crossing_min(vs, now, min0, recorded) == min0,
    decreases vs.len(),
{
    if vs.len() > 0 {
        lemma_no_finished_keeps_crossing(vs.drop_last(), now, max0, min0, recorded);
    }
}

/// After the steps, with every base speed in range, every vehicle's speed lies
/// between the slowed minimum and the outside maximum.
proof fn lemma_run_steps_velocity(vs: Seq<Vehicle>, now: u64, bases: Seq<u64>, k: nat)
    requires
        k <= vs.len(),
        bases.len() == vs.len(),
        forall|i: int| 0 <= i < bases.len() ==> MIN_SPEED <= #[trigger] bases[i] <= MAX_OUTSIDE_SPEED,
    ensures
        forall|j: int|
            0 <= j < k ==> MIN_SLOWED_SPEED <= (#[trigger] run_steps(vs, now, bases, k)[j]).velocity
                <= MAX_OUTSIDE_SPEED,
    decreases k,
{
    if k > 0 {
        lemma_run_steps_frame(vs, now, bases, (k - 1) as nat);
        lemma_run_steps_velocity(vs, now, bases, (k - 1) as nat);
        let w = run_steps(vs, now, bases, (k - 1) as nat);
        let i = k - 1;
        let r = w[i].step_spec(w.remove(i), now, bases[i]).0;
        assert(r.velocity == w[i].effective_speed(bases[i]));
    }
}

/// The smallest and largest speed of a non-empty sequence lie within any bounds
/// that hold for each of its vehicles.
proof fn lemma_velocity_range(vs: Seq<Vehicle>, lo: u64, hi: u64)
    requires
        vs.len() > 0,
        forall|i: int| 0 <= i < vs.len() ==> lo <= (#[trigger] vs[i]).velocity <= hi,
    ensures
        lo <= velocity_min(vs) <= hi,
        lo <= velocity_max(vs) <= hi,
    decreases vs.len(),
{
    assert(vs.last() == vs[vs.len() - 1]);
    if vs.len() > 1 {
        let rest = vs.drop_last();
        assert forall|i: int| 0 <= i < rest.len() implies lo <= (#[trigger] rest[i]).velocity <= hi by {
            assert(rest[i] == vs[i]);
        }
        lemma_velocity_range(rest, lo, hi);
    } else {
        assert(velocity_max(vs.drop_last()) == 0);
    }
}

/// `kept` holds exactly the vehicles of `vs` that are within bounds.
pub proof fn lemma_kept(vs: Seq<Vehicle>)
    ensures
        kept(vs).len() <= vs.len(),
        forall|x: Vehicle| #[trigger] kept(vs).contains(x) <==> vs.contains(x) && !x.finished(),
    decreases vs.len(),
{
    if vs.len() > 0 {
        let rest = vs.drop_last();
        let last = vs.last();
        let k = kept(rest);
        lemma_kept(rest);
        assert forall|x: Vehicle| #[trigger] kept(vs).contains(x) <==> vs.contains(x) && !x.finished() by {
            assert(k.contains(x) <==> rest.contains(x) && !x.finished());
            if vs.contains(x) {
                let i = choose|i: int| 0 <= i < vs.len() && vs[i] == x;
                if i < vs.len() - 1 {
                    assert(rest[i] == x);
                }
            }
            if rest.contains(x) {
                let i = choose|i: int| 0 <= i < rest.len() && rest[i] == x;
                assert(vs[i] == x);
            }
            assert(vs[vs.len() - 1] == last);
            if !last.finished() {
                let kp = k.push(last);
                assert(kept(vs) == kp);
                if kp.contains(x) {
                    let i = choose|i: int| 0 <= i < kp.len() && kp[i] == x;
                    if i < k.len() {
                        assert(k[i] == x);
                    }
                }
                if k.contains(x) {
                    let i = choose|i: int| 0 <= i < k.len() && k[i] == x;
                    assert(kp[i] == x);
                }
                assert(kp[k.len() as int] == last);
            } else {
                assert(kept(vs) == k);
            }
        }
    } else {
        assert(kept(vs) =~= Seq::empty());
    }
}

/// Steps every vehicle in order, each against all the others as they stand.
fn run_all(vs: &mut Vec<Vehicle>, now: u64, bases: &[u64])
    requires
        bases@.len() == old(vs)@.len(),
        forall|j: int| 0 <= j < bases@.len() ==> #[trigger] bases@[j] <= MAX_OUTSIDE_SPEED,
        forall|j: int| 0 <= j < old(vs)@.len() ==> (#[trigger] old(vs)@[j]).coords_fit(),
    ensures
        final(vs)@ == run_steps(old(vs)@, now, bases@, old(vs)@.len()),
{
    let n = vs.len();
    let ghost orig = vs@;
    let mut i: usize = 0;
    while i < n
        invariant
            n == orig.len(),
            bases@.len() == n,
            0 <= i <= n,
            vs@ == run_steps(orig, now, bases@, i as nat),
            forall|j: int| 0 <= j < bases@.len() ==> #[trigger] bases@[j] <= MAX_OUTSIDE_SPEED,
            forall|j: int| 0 <= j < orig.len() ==> (#[trigger] orig[j]).coords_fit(),
        decreases n - i,
    {
        proof {
            lemma_run_steps_frame(orig, now, bases@, i as nat);
        }
        let ghost cur = vs@;
        let mut others: Vec<Vehicle> = Vec::new();
        let mut j: usize = 0;
        while j < i
            invariant
                0 <= j <= i < n,
                vs@ == cur,
                cur.len() == n,
                others@ == cur.subrange(0, j as int),
            decreases i - j,
        {
            others.push(vs[j]);
            j += 1;
        }
        j = i + 1;
        while j < n
            invariant
                i < j <= n,
                vs@ == cur,
                cur.len() == n,
                others@ == cur.subrange(0, i as int) + cur.subrange(i + 1, j as int),
            decreases n - j,
        {
            others.push(vs[j]);
            proof {
                assert(cur.subrange(i + 1, j + 1) =~= cur.subrange(i + 1, j as int).push(cur[j as int]));
            }
            j += 1;
        }
        assert(others@ =~= cur.remove(i as int));
        let mut v = vs[i];
        v.step(others.as_slice(), now, bases[i]);
        vs.set(i, v);
        i += 1;
    }
}

/// Splits the stepped vehicles into those kept and the finished ones, folding
/// the finished into the crossing statistics.
fn tally(vs: &Vec<Vehicle>, now: u64, max0: u64, min0: u64, recorded: bool) -> (r: (
    Vec<Vehicle>,
    u64,
    u64,
    u64,
))
    ensures
        r.0@ == kept(vs@),
        r.1 == finished_count(vs@),
        r.2 == crossing_max(vs@, now, max0),
        r.3 == crossing_min(vs@, now, min0, recorded),
{
    let n = vs.len();
    let mut kept_vs: Vec<Vehicle> = Vec::new();
    let mut finished: u64 = 0;
    let mut max_c = max0;
    let mut min_c = min0;
    let mut i: usize = 0;
    while i < n
        invariant
            n == vs@.len(),
            0 <= i <= n,
            kept_vs@ == kept(vs@.subrange(0, i as int)),
            finished == finished_count(vs@.subrange(0, i as int)),
            finished <= i,
            max_c == crossing_max(vs@.subrange(0, i as int), now, max0),
            min_c == crossing_min(vs@.subrange(0, i as int), now, min0, recorded),
        decreases n - i,
    {
        let ghost pre = vs@.subrange(0, i + 1);
        assert(pre.drop_last() =~= vs@.subrange(0, i as int));
        assert(pre.last() == vs@[i as int]);
        let v = vs[i];
        if v.is_finished() {
            let seen = recorded || finished > 0;
            finished = finished + 1;
            let d = if now >= v.spawn_time {
                now - v.spawn_time
            } else {
                0
            };
            if d > max_c {
                max_c = d;
            }
            if !seen || d < min_c {
                min_c = d;
            }
        } else {
            kept_vs.push(v);
        }
        i += 1;
    }
    assert(vs@.subrange(0, n as int) =~= vs@);
    (kept_vs, finished, max_c, min_c)
}

/// Largest and smallest speed of the last tick over `vs`.
fn velocity_range(vs: &Vec<Vehicle>) -> (r: (u64, u64))
    ensures
        r.0 == velocity_max(vs@),
        r.1 == velocity_min(vs@),
{
    let n = vs.len();
    let mut hi: u64 = 0;
    let mut lo: u64 = 0;
    let mut i: usize = 0;
    while i < n
        invariant
            n == vs@.len(),
            0 <= i <= n,
            hi == velocity_max(vs@.subrange(0, i as int)),
            lo == velocity_min(vs@.subrange(0, i as int)),
        decreases n - i,
    {
        let ghost pre = vs@.subrange(0, i + 1);
        assert(pre.drop_last() =~= vs@.subrange(0, i as int));
        let v = vs[i].velocity;
        if v > hi {
            hi = v;
        }
        if i == 0 || v < lo {
            lo = v;
        }
        i += 1;
    }
    assert(vs@.subrange(0, n as int) =~= vs@);
    (hi, lo)
}

/// Two vehicles stand at least the stopping distance apart.
pub open spec fn apart(a: Vehicle, b: Vehicle) -> bool {
    dist2(a.x as int, a.y as int, b.x as int, b.y as int) >= STOPPING_DISTANCE * STOPPING_DISTANCE
}

proof fn lemma_apart_symmetric(a: Vehicle, b: Vehicle)
    ensures
        apart(a, b) == apart(b, a),
{
    let (ax, ay, bx, by) = (a.x as int, a.y as int, b.x as int, b.y as int);
    assert(dist2(ax, ay, bx, by) == dist2(bx, by, ax, ay)) by (nonlinear_arith);
}

/// A vehicle's step only changes its position when the new position is at
/// least the stopping distance away from every other vehicle.
pub proof fn lemma_step_moves_clear(v: Vehicle, others: Seq<Vehicle>, now: u64, base: u64)
    requires
        v.coords_fit(),
        base <= MAX_OUTSIDE_SPEED,
    ensures
        ({
            let r = v.step_spec(others, now, base).0;
            (r.x != v.x || r.y != v.y) ==> forall|i: int|
                0 <= i < others.len() ==> apart(r, #[trigger] others[i])
        }),
{
    let r = v.step_spec(others, now, base).0;
    if !v.must_yield(others, now) && (r.x != v.x || r.y != v.y) {
        let s = v.snapped();
        let speed = s.effective_speed(base);
        let nx = s.next_x(speed);
        let ny = s.next_y(speed);
        assert(!s.collides_any(nx, ny, others));
        assert(r.x == nx && r.y == ny);
        assert forall|i: int| 0 <= i < others.len() implies apart(r, #[trigger] others[i]) by {
            assert(!s.collides(nx, ny, others[i]));
        }
    }
}

/// Within one tick, a vehicle that changed position ends at least the stopping
/// distance away from where every other vehicle ends: two vehicles that end the
/// tick closer than that both stood still.
pub proof fn lemma_movers_keep_stopping_distance(vs: Seq<Vehicle>, now: u64, bases: Seq<u64>)
    requires
        forall|i: int| 0 <= i < vs.len() ==> (#[trigger] vs[i]).coords_fit(),
        forall|i: int| 0 <= i < bases.len() ==> #[trigger] bases[i] <= MAX_OUTSIDE_SPEED,
        bases.len() == vs.len(),
    ensures
        ({
            let w = run_steps(vs, now, bases, vs.len());
            forall|i: int, j: int|
                0 <= i < vs.len() && 0 <= j < vs.len() && i != j && (w[i].x != vs[i].x || w[i].y
                    != vs[i].y) ==> apart(#[trigger] w[i], #[trigger] w[j])
        }),
{
    lemma_movers_apart_prefix(vs, now, bases, vs.len());
}

proof fn lemma_movers_apart_prefix(vs: Seq<Vehicle>, now: u64, bases: Seq<u64>, k: nat)
    requires
        k <= vs.len(),
        forall|i: int| 0 <= i < vs.len() ==> (#[trigger] vs[i]).coords_fit(),
        forall|i: int| 0 <= i < bases.len() ==> #[trigger] bases[i] <= MAX_OUTSIDE_SPEED,
        bases.len() == vs.len(),
    ensures
        ({
            let w = run_steps(vs, now, bases, k);
            forall|a: int, b: int|
                0 <= a < k && 0 <= b < vs.len() && a != b && (w[a].x != vs[a].x || w[a].y
                    != vs[a].y) ==> apart(#[trigger] w[a], #[trigger] w[b])
        }),
    decreases k,
{
    if k > 0 {
        let i = k - 1;
        lemma_movers_apart_prefix(vs, now, bases, i as nat);
        lemma_run_steps_frame(vs, now, bases, i as nat);
        let w = run_steps(vs, now, bases, i as nat);
        let others = w.remove(i);
        let r = w[i].step_spec(others, now, bases[i]).0;
        let w2 = run_steps(vs, now, bases, k);
        assert(w2 == w.update(i, r));
        assert(w[i] == vs[i]);
        lemma_step_moves_clear(w[i], others, now, bases[i]);
        assert forall|a: int, b: int|
            0 <= a < k && 0 <= b < vs.len() && a != b && (w2[a].x != vs[a].x || w2[a].y
                != vs[a].y) implies apart(#[trigger] w2[a], #[trigger] w2[b]) by {
            assert(w2[a] == if a == i {
                r
            } else {
                w[a]
            });
            assert(w2[b] == if b == i {
                r
            } else {
                w[b]
            });
            lemma_apart_symmetric(w2[a], w2[b]);
            if a == i {
                let ob = if b < i {
                    b
                } else {
                    b - 1
                };
                assert(others[ob] == w[b]);
                assert(apart(r, others[ob]));
            } else if b == i {
                if r.x != w[i].x || r.y != w[i].y {
                    let oa = if a < i {
                        a
                    } else {
                        a - 1
                    };
                    assert(others[oa] == w[a]);
                    assert(apart(r, others[oa]));
                } else {
                    assert(apart(w[a], w[b]));
                }
            } else {
                assert(apart(w[a], w[b]));
            }
        }
    }
}

/// A spawn request on a full world changes nothing.
pub proof fn lemma_spawn_when_full(m: WorldModel, dir: u8, now: u64)
    requires
        m.vehicles.len() >= m.capacity,
    ensures
        spawn_spec(m, dir, now) == (m, SpawnOutcome::RejectedCapacity),
{
}

/// Of two spawn requests closer in time than the cooldown, at most one adds a
/// vehicle; when the first does, the second adds none.
pub proof fn lemma_spawns_within_cooldown(m: WorldModel, d1: u8, t1: u64, d2: u8, t2: u64)
    requires
        t1 <= t2,
        t2 - t1 < m.cooldown,
    ensures
        ({
            let (m1, o1) = spawn_spec(m, d1, t1);
            let (m2, o2) = spawn_spec(m1, d2, t2);
            &&& m2.vehicles.len() <= m.vehicles.len() + 1
            &&& o1 == SpawnOutcome::Spawned ==> o2 != SpawnOutcome::Spawned
                && m2.vehicles.len() == m.vehicles.len() + 1
        }),
{
    let (m1, o1) = spawn_spec(m, d1, t1);
    let (m2, o2) = spawn_spec(m1, d2, t2);
    if o1 == SpawnOutcome::Spawned {
        assert(m1.last_spawn == t1 && m1.cooldown == m.cooldown);
        assert(elapsed(t2, t1) < m1.cooldown);
        assert(m1.vehicles.len() == m.vehicles.len() + 1);
        assert(m2 == m1);
    } else {
        assert(m1 == m);
        assert(m2.vehicles.len() <= m1.vehicles.len() + 1);
    }
}

/// A tick removes exactly the vehicles that its steps put out of bounds; since
/// every vehicle was within bounds before, each leaves on the tick it first
/// crosses the world's edge.
pub proof fn lemma_removed_when_out(m: WorldModel, now: u64, bases: Seq<u64>)
    requires
        m.wf(),
    ensures
        ({
            let w = run_steps(m.vehicles, now, bases, m.vehicles.len());
            &&& forall|i: int| 0 <= i < m.vehicles.len() ==> !(#[trigger] m.vehicles[i]).finished()
            &&& forall|x: Vehicle|
                #[trigger] tick_spec(m, now, bases).vehicles.contains(x) <==> w.contains(x)
                    && !x.finished()
        }),
{
    let w = run_steps(m.vehicles, now, bases, m.vehicles.len());
    lemma_kept(w);
}

/// The simulation: the active vehicles, the spawn clock and the statistics.
pub struct World {
    vehicles: Vec<Vehicle>,
    last_vehicle_spawn_time: u64,
    vehicle_spawn_cooldown: u64,
    max_vehicles: usize,
    vehicle_passed: u32,
    max_velocity: u64,
    min_velocity: u64,
    max_crossing_time: u64,
    min_crossing_time: u64,
}

impl View for World {
    type V = WorldModel;

    closed spec fn view(&self) -> WorldModel {
        WorldModel {
            vehicles: self.vehicles@,
            last_spawn: self.last_vehicle_spawn_time,
            cooldown: self.vehicle_spawn_cooldown,
            capacity: self.max_vehicles,
            passed: self.vehicle_passed,
            max_velocity: self.max_velocity,
            min_velocity: self.min_velocity,
            max_crossing: self.max_crossing_time,
            min_crossing: self.min_crossing_time,
        }
    }
}

impl World {
    /// An empty world created at time `now`; the first spawn waits out the cooldown.
    pub fn new(now: u64) -> (r: World)
        ensures
            r@.wf(),
            r@ == (WorldModel {
                vehicles: Seq::empty(),
                last_spawn: now,
                cooldown: SPAWN_COOLDOWN_MS,
                capacity: MAX_VEHICLES,
                passed: 0,
                max_velocity: 0,
                min_velocity: 0,
                max_crossing: 0,
                min_crossing: 0,
            }),
    {
        let r = World {
            vehicles: Vec::new(),
            last_vehicle_spawn_time: now,
            vehicle_spawn_cooldown: SPAWN_COOLDOWN_MS,
            max_vehicles: MAX_VEHICLES,
            vehicle_passed: 0,
            max_velocity: 0,
            min_velocity: 0,
            max_crossing_time: 0,
            min_crossing_time: 0,
        };
        assert(r@.vehicles =~= Seq::empty());
        r
    }

    /// The active vehicles, in insertion order.
    pub fn vehicles(&self) -> (r: &[Vehicle])
        ensures
            r@ == self@.vehicles,
    {
        self.vehicles.as_slice()
    }

    /// Whether an active vehicle stands exactly at `(px, py)`.
    fn occupied(&self, px: i64, py: i64) -> (r: bool)
        ensures
            r == exists|i: int|
                0 <= i < self@.vehicles.len() && #[trigger] self@.vehicles[i].x == px
                    && self@.vehicles[i].y == py,
    {
        let n = self.vehicles.len();
        let mut i: usize = 0;
        while i < n
            invariant
                n == self@.vehicles.len(),
                0 <= i <= n,
                forall|j: int|
                    0 <= j < i ==> !(#[trigger] self@.vehicles[j].x == px && self@.vehicles[j].y
                        == py),
            decreases n - i,
        {
            if self.vehicles[i].x == px && self.vehicles[i].y == py {
                return true;
            }
            i += 1;
        }
        false
    }

    /// Close calls summed over the active vehicles.
    pub fn get_total_close_call_count(&self) -> (r: u64)
        requires
            self@.wf(),
        ensures
            r == close_call_total(self@.vehicles),
    {
        let n = self.vehicles.len();
        let mut total: u64 = 0;
        let mut i: usize = 0;
        while i < n
            invariant
                n == self@.vehicles.len(),
                n <= MAX_VEHICLES,
                0 <= i <= n,
                total == close_call_total(self@.vehicles.subrange(0, i as int)),
                total <= i * (u32::MAX as int),
            decreases n - i,
        {
            let ghost pre = self@.vehicles.subrange(0, i + 1);
            assert(pre.drop_last() =~= self@.vehicles.subrange(0, i as int));
            total = total + self.vehicles[i].close_call_count as u64;
            i += 1;
        }
        assert(self@.vehicles.subrange(0, n as int) =~= self@.vehicles);
        total
    }

    /// Shortest recorded crossing time, as seconds with two decimals ("0.00"
    /// before any vehicle has passed).
    pub fn min_vehicles_time(&self) -> (r: String)
        ensures
            r@ == seconds_text(self@.min_crossing),
    {
        format_seconds(self.min_crossing_time)
    }

    /// Longest recorded crossing time, as seconds with two decimals.
    pub fn max_vehicles_time(&self) -> (r: String)
        ensures
            r@ == seconds_text(self@.max_crossing),
    {
        format_seconds(self.max_crossing_time)
    }

    /// Largest speed of the last tick, in world units per tick, rounded.
    pub fn get_max_velocity(&self) -> (r: u64)
        ensures
            r == rounded_units(self@.max_velocity),
    {
        self.max_velocity / 1000 + if self.max_velocity % 1000 >= 500 {
            1
        } else {
            0
        }
    }

    /// Smallest speed of the last tick, in world units per tick, rounded.
    pub fn get_min_velocity(&self) -> (r: u64)
        ensures
            r == rounded_units(self@.min_velocity),
    {
        self.min_velocity / 1000 + if self.min_velocity % 1000 >= 500 {
            1
        } else {
            0
        }
    }

    /// Vehicles that have left the world so far.
    pub fn get_vehicles_passed(&self) -> (r: u32)
        ensures
            r == self@.passed,
    {
        self.vehicle_passed
    }

    /// One tick at time `now`, with `base_speeds[i]` the base speed drawn for the
    /// vehicle at index `i`: every vehicle takes its step in order; then each
    /// vehicle out of bounds is counted as passed, its crossing time folded into
    /// the running maximum and minimum, and removed; the speed statistics are
    /// taken over the vehicles that remain.
    pub fn tick(&mut self, now: u64, base_speeds: &[u64])
        requires
            old(self)@.wf(),
            base_speeds@.len() == old(self)@.vehicles.len(),
            forall|i: int| 0 <= i < base_speeds@.len() ==> #[trigger] base_speeds@[i] <= MAX_OUTSIDE_SPEED,
        ensures
            final(self)@.wf(),
            final(self)@ == tick_spec(old(self)@, now, base_speeds@),
            (forall|i: int| 0 <= i < base_speeds@.len() ==> MIN_SPEED <= #[trigger] base_speeds@[i])
                ==> final(self)@.speeds_in_range(),
    {
        let ghost m = self@;
        run_all(&mut self.vehicles, now, base_speeds);
        let (kept_vs, finished, max_c, min_c) = tally(
            &self.vehicles,
            now,
            self.max_crossing_time,
            self.min_crossing_time,
            self.vehicle_passed > 0,
        );
        let (v_max, v_min) = velocity_range(&kept_vs);
        self.vehicle_passed = if finished > (u32::MAX - self.vehicle_passed) as u64 {
            u32::MAX
        } else {
            self.vehicle_passed + finished as u32
        };
        self.max_crossing_time = max_c;
        self.min_crossing_time = min_c;
        self.max_velocity = v_max;
        self.min_velocity = v_min;
        self.vehicles = kept_vs;
        proof {
            let w = run_steps(m.vehicles, now, base_speeds@, m.vehicles.len());
            lemma_run_steps_frame(m.vehicles, now, base_speeds@, m.vehicles.len());
            lemma_run_steps_entry(m.vehicles, now, base_speeds@, m.vehicles.len());
            lemma_kept(w);
            assert(self@.vehicles.len() <= m.capacity);
            if self@.passed == 0 {
                lemma_no_finished_keeps_crossing(w, now, m.max_crossing, m.min_crossing, m.passed > 0);
            }
            assert forall|i: int| 0 <= i < self@.vehicles.len() implies !(
            #[trigger] self@.vehicles[i]).finished() && self@.vehicles[i].entry_consistent() by {
                assert(kept(w).contains(self@.vehicles[i]));
                let j = choose|j: int| 0 <= j < w.len() && w[j] == self@.vehicles[i];
            }
            if forall|i: int| 0 <= i < base_speeds@.len() ==> MIN_SPEED <= #[trigger] base_speeds@[i] {
                lemma_run_steps_velocity(m.vehicles, now, base_speeds@, m.vehicles.len());
                assert forall|i: int| 0 <= i < self@.vehicles.len() implies MIN_SLOWED_SPEED
                    <= (#[trigger] self@.vehicles[i]).velocity <= MAX_OUTSIDE_SPEED by {
                    assert(kept(w).contains(self@.vehicles[i]));
                    let j = choose|j: int| 0 <= j < w.len() && w[j] == self@.vehicles[i];
                }
                if self@.vehicles.len() > 0 {
                    lemma_velocity_range(self@.vehicles, MIN_SLOWED_SPEED, MAX_OUTSIDE_SPEED);
                }
            }
        }
    }

    /// One tick at time `now`, with a base speed drawn at random for each vehicle.
    pub fn update(&mut self, now: u64)
        requires
            old(self)@.wf(),
        ensures
            final(self)@.wf(),
            final(self)@.speeds_in_range(),
            exists|bases: Seq<u64>|
                bases.len() == old(self)@.vehicles.len() && (forall|i: int|
                    0 <= i < bases.len() ==> MIN_SPEED <= #[trigger] bases[i]
                        <= old(self)@.vehicles[i].max_base_speed()) && final(self)@ == tick_spec(
                    old(self)@,
                    now,
                    bases,
                ),
    {
        let n = self.vehicles.len();
        let mut bases: Vec<u64> = Vec::new();
        let mut i: usize = 0;
        while i < n
            invariant
                n == self@.vehicles.len(),
                0 <= i <= n,
                bases@.len() == i,
                forall|j: int|
                    0 <= j < i ==> MIN_SPEED <= #[trigger] bases@[j]
                        <= self@.vehicles[j].max_base_speed(),
            decreases n - i,
        {
            let hi = if self.vehicles[i].is_in_intersection() {
                MAX_INSIDE_SPEED
            } else {
                MAX_OUTSIDE_SPEED
            };
            bases.push(random_between(MIN_SPEED, hi));
            i += 1;
        }
        self.tick(now, bases.as_slice());
    }

    /// Spawns a vehicle for an approach drawn at random, under the same gates as `spawn_dir`.
    pub fn auto_spawn(&mut self, now: u64) -> (r: SpawnOutcome)
        requires
            old(self)@.wf(),
        ensures
            final(self)@.wf(),
            exists|dir: u8| dir < 4 && (final(self)@, r) == spawn_spec(old(self)@, dir, now),
    {
        let dir = random_between(0, 3) as u8;
        self.spawn_dir(dir, now)
    }

    /// Spawns a vehicle for approach `dir` at time `now`, unless the world is
    /// full, the cooldown since the last spawn has not passed, or the spawn point
    /// is occupied.
    pub fn spawn_dir(&mut self, dir: u8, now: u64) -> (r: SpawnOutcome)
        requires
            old(self)@.wf(),
            dir < 4,
        ensures
            final(self)@.wf(),
            (final(self)@, r) == spawn_spec(old(self)@, dir, now),
    {
        let n = self.vehicles.len();
        if n >= self.max_vehicles {
            return SpawnOutcome::RejectedCapacity;
        }
        let waited = if now >= self.last_vehicle_spawn_time {
            now - self.last_vehicle_spawn_time
        } else {
            0
        };
        if waited < self.vehicle_spawn_cooldown {
            return SpawnOutcome::RejectedCooldown;
        }
        let k = (n % 3) as i32;
        let (sx, sy): (i32, i32) = if dir == FROM_NORTH {
            (300 + LANE_WIDTH * k, 0)
        } else if dir == FROM_EAST {
            (800, 200 + LANE_WIDTH * k)
        } else if dir == FROM_SOUTH {
            (420 + LANE_WIDTH * k, 600)
        } else {
            (0, 320 + LANE_WIDTH * k)
        };
        let px = sx as i64 * SCALE;
        let py = sy as i64 * SCALE;
        if self.occupied(px, py) {
            return SpawnOutcome::RejectedOccupied;
        }
        let lane = if k == 0 {
            Lane::Middle
        } else if k == 1 {
            Lane::Right
        } else {
            Lane::Left
        };
        let v = Vehicle::new(sx, sy, dir, lane, now);
        self.vehicles.push(v);
        self.last_vehicle_spawn_time = now;
        assert(self@.vehicles[n as int] == v);
        SpawnOutcome::Spawned
    }
}

} // verus!
