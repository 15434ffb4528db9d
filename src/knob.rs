use vstd::prelude::*;

verus! {

/// Full scale of a 12-bit knob reading.
pub const KNOB_RANGE: i32 = 4096;

/// Half of [`KNOB_RANGE`]: no single step turns the knob further than this.
pub const KNOB_HALF_RANGE: i32 = 2048;

/// Direction of a knob turn within one polling cycle.
#[derive(Clone, Copy, Debug, PartialEq, Eq, Structural)]
pub enum KnobTurn {
    /// No turn this cycle.
    Idle,
    Left,
    Right,
}

impl Default for KnobTurn {
    fn default() -> (r: Self)
        ensures
            r == KnobTurn::Idle,
    {
        KnobTurn::Idle
    }
}

/// The shortest signed rotation from `last` to `now` on a 12-bit circle.
pub open spec fn wrap_delta(now: int, last: int) -> int {
    let d = now - last;
    if d > KNOB_HALF_RANGE {
        d - KNOB_RANGE
    } else if d < -KNOB_HALF_RANGE {
        d + KNOB_RANGE
    } else {
        d
    }
}

pub open spec fn abs(x: int) -> int {
    if x < 0 {
        -x
    } else {
        x
    }
}

/// The direction of a committed rotation.
pub open spec fn turn_of(delta: int) -> KnobTurn {
    if delta < 0 {
        KnobTurn::Left
    } else {
        KnobTurn::Right
    }
}

/// Signed shortest rotation between two readings.
fn shortest_delta(now: u16, last: u16) -> (r: i32)
    ensures
        r == wrap_delta(now as int, last as int),
{
    let d: i32 = now as i32 - last as i32;
    if d > KNOB_HALF_RANGE {
        d - KNOB_RANGE
    } else if d < -KNOB_HALF_RANGE {
        d + KNOB_RANGE
    } else {
        d
    }
}

/// The abstract state of a [`KnobFilter`].
pub struct KnobFilterState {
    /// The reading at the last committed turn.
    pub last: int,
    /// The direction reported last.
    pub turn: KnobTurn,
    /// Milliseconds left in the throttle window.
    pub timer: int,
}

/// One call of the turn filter: the state after it and the direction reported.
///
/// A rotation of at least `threshold` counts is committed and reported at
/// once and opens the throttle window. A smaller rotation commits nothing:
/// while the window runs the previous direction is repeated, after it
/// `Idle` is reported.
pub open spec fn filter_step(
    s: KnobFilterState,
    raw: int,
    elapsed: int,
    threshold: int,
    throttle: int,
) -> (KnobFilterState, KnobTurn) {
    let d = wrap_delta(raw, s.last);
    if abs(d) < threshold {
        if s.timer != 0 {
            (
                KnobFilterState {
                    timer: if s.timer > elapsed {
                        s.timer - elapsed
                    } else {
                        0
                    },
                    ..s
                },
                s.turn,
            )
        } else {
            (KnobFilterState { turn: KnobTurn::Idle, ..s }, KnobTurn::Idle)
        }
    } else {
        (KnobFilterState { last: raw, turn: turn_of(d), timer: throttle }, turn_of(d))
    }
}

/// Turn decoder for one knob, with a noise threshold and a throttle window.
pub struct KnobFilter<const THRESHOLD_VALUE: u16, const THROTTLE_DURATION_MS: u16> {
    last_raw_value: u16,
    filtered: KnobTurn,
    timer: u16,
}

impl<const THRESHOLD_VALUE: u16, const THROTTLE_DURATION_MS: u16> View for KnobFilter<
    THRESHOLD_VALUE,
    THROTTLE_DURATION_MS,
> {
    type V = KnobFilterState;

    closed spec fn view(&self) -> KnobFilterState {
        KnobFilterState {
            last: self.last_raw_value as int,
            turn: self.filtered,
            timer: self.timer as int,
        }
    }
}

impl<const THRESHOLD_VALUE: u16, const THROTTLE_DURATION_MS: u16> KnobFilter<
    THRESHOLD_VALUE,
    THROTTLE_DURATION_MS,
> {
    /// A filter seeded with the first reading, reporting no turn.
    pub fn new(initial: u16) -> (r: Self)
        ensures
            r@ == (KnobFilterState { last: initial as int, turn: KnobTurn::Idle, timer: 0 }),
    {
        KnobFilter { last_raw_value: initial, filtered: KnobTurn::Idle, timer: 0 }
    }

    /// Feeds one conditioned reading, `elapsed_ms` after the previous call.
    pub fn filter(&mut self, raw_value: u16, elapsed_ms: u16) -> (r: KnobTurn)
        ensures
            (final(self)@, r) == filter_step(
                old(self)@,
                raw_value as int,
                elapsed_ms as int,
                THRESHOLD_VALUE as int,
                THROTTLE_DURATION_MS as int,
            ),
    {
        let delta = shortest_delta(raw_value, self.last_raw_value);
        let magnitude: i32 = if delta < 0 {
            -delta
        } else {
            delta
        };
        if magnitude < THRESHOLD_VALUE as i32 {
            // Keep reporting the last turn while the throttle window runs.
            if self.timer != 0 {
                self.timer = self.timer.saturating_sub(elapsed_ms);
                return self.filtered;
            }
            self.filtered = KnobTurn::Idle;
            return KnobTurn::Idle;
        }
        self.last_raw_value = raw_value;
        self.timer = THROTTLE_DURATION_MS;
        self.filtered = if delta < 0 {
            KnobTurn::Left
        } else {
            KnobTurn::Right
        };
        self.filtered
    }
}

/// Between two 12-bit readings the decoded delta is the shortest rotation:
/// at most half a turn either way, and equal to the raw difference up to
/// whole turns. A step across the top of the range is a small delta.
pub proof fn lemma_wrap_is_shortest(now: u16, last: u16)
    requires
        now < KNOB_RANGE,
        last < KNOB_RANGE,
    ensures
        -KNOB_HALF_RANGE <= wrap_delta(now as int, last as int) <= KNOB_HALF_RANGE,
        wrap_delta(now as int, last as int) == now - last || wrap_delta(now as int, last as int)
            == now - last + KNOB_RANGE || wrap_delta(now as int, last as int) == now - last
            - KNOB_RANGE,
{
}

/// A rotation below the threshold never moves the committed reading nor
/// lengthens the throttle window, and once that window has run out it is
/// reported as no turn.
pub proof fn lemma_below_threshold(
    s: KnobFilterState,
    raw: u16,
    elapsed: u16,
    threshold: u16,
    throttle: u16,
)
    requires
        abs(wrap_delta(raw as int, s.last)) < threshold,
        s.timer >= 0,
    ensures
        ({
            let (t, turn) = filter_step(s, raw as int, elapsed as int, threshold as int, throttle as int);
            &&& t.last == s.last
            &&& t.timer <= s.timer
            &&& s.timer == 0 ==> turn == KnobTurn::Idle
        }),
{
}

/// Rotations of at most this many counts are not turns, for [`KnobState`].
pub const KNOB_STATE_DEAD_ZONE: i32 = 16;

/// Turn decoder for one knob without throttling: every rotation beyond a
/// fixed dead zone is a turn.
pub struct KnobState {
    last: u16,
}

impl View for KnobState {
    type V = int;

    closed spec fn view(&self) -> int {
        self.last as int
    }
}

impl KnobState {
    /// A decoder seeded with the first reading.
    pub fn new(initial: u16) -> (r: Self)
        ensures
            r@ == initial as int,
    {
        KnobState { last: initial }
    }

    /// Feeds one reading and returns the turn since the last committed one.
    pub fn update(&mut self, now: u16) -> (r: KnobTurn)
        ensures
            abs(wrap_delta(now as int, old(self)@)) <= KNOB_STATE_DEAD_ZONE ==> r == KnobTurn::Idle
                && final(self)@ == old(self)@,
            abs(wrap_delta(now as int, old(self)@)) > KNOB_STATE_DEAD_ZONE ==> r == turn_of(
                wrap_delta(now as int, old(self)@),
            ) && final(self)@ == now as int,
    {
        let delta = shortest_delta(now, self.last);
        if -KNOB_STATE_DEAD_ZONE <= delta && delta <= KNOB_STATE_DEAD_ZONE {
            return KnobTurn::Idle;
        }
        self.last = now;
        if delta < 0 {
            KnobTurn::Left
        } else {
            KnobTurn::Right
        }
    }
}

} // verus!
