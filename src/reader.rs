use vstd::prelude::*;
use crate::debounce::{debounce_step, ButtonDebouncer, DebounceState};
use crate::knob::{filter_step, KnobFilter, KnobFilterState, KnobTurn};
use crate::sampling::{average_medians, conditioned};
use crate::timer::{advanced, elapsed_ms, ElapsedTimer};

verus! {

/// Release debounce window of every button, in milliseconds.
pub const DEBOUNCE_MS: u16 = 5;

/// Knob noise floor, in ADC counts.
pub const KNOB_THRESHOLD: u16 = 32;

/// Knob throttle window, in milliseconds.
pub const KNOB_THROTTLE_MS: u16 = 10;

/// The level of each of the seven buttons.
#[derive(Clone, Copy, Debug, PartialEq, Eq, Structural)]
pub struct ButtonInputRead {
    pub button1: bool,
    pub button2: bool,
    pub button3: bool,
    pub button4: bool,
    pub fx1: bool,
    pub fx2: bool,
    pub start: bool,
}

impl Default for ButtonInputRead {
    /// Every button released.
    fn default() -> (r: Self)
        ensures
            r == idle_buttons(),
    {
        ButtonInputRead {
            button1: false,
            button2: false,
            button3: false,
            button4: false,
            fx1: false,
            fx2: false,
            start: false,
        }
    }
}

pub open spec fn idle_buttons() -> ButtonInputRead {
    ButtonInputRead {
        button1: false,
        button2: false,
        button3: false,
        button4: false,
        fx1: false,
        fx2: false,
        start: false,
    }
}

/// The logical input of one polling cycle: seven debounced buttons and the
/// turn of each knob.
#[derive(Clone, Copy, Debug, PartialEq, Eq, Structural)]
pub struct InputSnapshot {
    pub buttons: ButtonInputRead,
    pub left_knob: KnobTurn,
    pub right_knob: KnobTurn,
}

/// Nothing pressed, no knob turning.
pub open spec fn idle_snapshot() -> InputSnapshot {
    InputSnapshot { buttons: idle_buttons(), left_knob: KnobTurn::Idle, right_knob: KnobTurn::Idle }
}

impl Default for InputSnapshot {
    fn default() -> (r: Self)
        ensures
            r == idle_snapshot(),
    {
        InputSnapshot {
            buttons: ButtonInputRead::default(),
            left_knob: KnobTurn::Idle,
            right_knob: KnobTurn::Idle,
        }
    }
}

/// The abstract state of a [`ButtonInputReader`].
pub struct ButtonsState {
    pub button1: DebounceState,
    pub button2: DebounceState,
    pub button3: DebounceState,
    pub button4: DebounceState,
    pub fx1: DebounceState,
    pub fx2: DebounceState,
    pub start: DebounceState,
}

/// Every button debounced for one cycle, with the same elapsed time.
pub open spec fn buttons_step(s: ButtonsState, raw: ButtonInputRead, elapsed: int) -> (
    ButtonsState,
    ButtonInputRead,
) {
    let w = DEBOUNCE_MS as int;
    let b1 = debounce_step(s.button1, raw.button1, elapsed, w);
    let b2 = debounce_step(s.button2, raw.button2, elapsed, w);
    let b3 = debounce_step(s.button3, raw.button3, elapsed, w);
    let b4 = debounce_step(s.button4, raw.button4, elapsed, w);
    let f1 = debounce_step(s.fx1, raw.fx1, elapsed, w);
    let f2 = debounce_step(s.fx2, raw.fx2, elapsed, w);
    let st = debounce_step(s.start, raw.start, elapsed, w);
    (
        ButtonsState {
            button1: b1.0,
            button2: b2.0,
            button3: b3.0,
            button4: b4.0,
            fx1: f1.0,
            fx2: f2.0,
            start: st.0,
        },
        ButtonInputRead {
            button1: b1.1,
            button2: b2.1,
            button3: b3.1,
            button4: b4.1,
            fx1: f1.1,
            fx2: f2.1,
            start: st.1,
        },
    )
}

/// The seven button debouncers.
pub struct ButtonInputReader {
    pub button1: ButtonDebouncer<DEBOUNCE_MS>,
    pub button2: ButtonDebouncer<DEBOUNCE_MS>,
    pub button3: ButtonDebouncer<DEBOUNCE_MS>,
    pub button4: ButtonDebouncer<DEBOUNCE_MS>,
    pub fx1: ButtonDebouncer<DEBOUNCE_MS>,
    pub fx2: ButtonDebouncer<DEBOUNCE_MS>,
    pub start: ButtonDebouncer<DEBOUNCE_MS>,
}

/// A debouncer at rest at `level`.
pub open spec fn settled(level: bool) -> DebounceState {
    DebounceState { debounced: level, last_raw: level, timer: 0 }
}

/// Debouncers at rest at the given levels.
pub open spec fn seeded(initial: ButtonInputRead) -> ButtonsState {
    ButtonsState {
        button1: settled(initial.button1),
        button2: settled(initial.button2),
        button3: settled(initial.button3),
        button4: settled(initial.button4),
        fx1: settled(initial.fx1),
        fx2: settled(initial.fx2),
        start: settled(initial.start),
    }
}

impl View for ButtonInputReader {
    type V = ButtonsState;

    open spec fn view(&self) -> ButtonsState {
        ButtonsState {
            button1: self.button1@,
            button2: self.button2@,
            button3: self.button3@,
            button4: self.button4@,
            fx1: self.fx1@,
            fx2: self.fx2@,
            start: self.start@,
        }
    }
}

impl ButtonInputReader {
    /// Debouncers seeded with the first raw levels.
    pub fn new(initial: &ButtonInputRead) -> (r: Self)
        ensures
            r@ == seeded(*initial),
    {
        ButtonInputReader {
            button1: ButtonDebouncer::new(initial.button1),
            button2: ButtonDebouncer::new(initial.button2),
            button3: ButtonDebouncer::new(initial.button3),
            button4: ButtonDebouncer::new(initial.button4),
            fx1: ButtonDebouncer::new(initial.fx1),
            fx2: ButtonDebouncer::new(initial.fx2),
            start: ButtonDebouncer::new(initial.start),
        }
    }

    /// Debounces one raw level per button, `elapsed_ms` after the previous call.
    pub fn read(&mut self, raw: &ButtonInputRead, elapsed_ms: u16) -> (r: ButtonInputRead)
        ensures
            (final(self)@, r) == buttons_step(old(self)@, *raw, elapsed_ms as int),
    {
        let button1 = self.button1.debounce(raw.button1, elapsed_ms);
        let button2 = self.button2.debounce(raw.button2, elapsed_ms);
        let button3 = self.button3.debounce(raw.button3, elapsed_ms);
        let button4 = self.button4.debounce(raw.button4, elapsed_ms);
        let fx1 = self.fx1.debounce(raw.fx1, elapsed_ms);
        let fx2 = self.fx2.debounce(raw.fx2, elapsed_ms);
        let start = self.start.debounce(raw.start, elapsed_ms);
        ButtonInputRead { button1, button2, button3, button4, fx1, fx2, start }
    }
}

/// Whether a burst has a shape that [`average_medians`] accepts.
pub open spec fn valid_burst(s: Seq<u16>) -> bool {
    s.len() % 2 == 0 && 6 <= s.len() <= 0x2_0002
}

/// One knob's filter fed with its conditioned reading.
pub open spec fn knob_step(s: KnobFilterState, burst: Seq<u16>, ch: int, elapsed: int) -> (
    KnobFilterState,
    KnobTurn,
) {
    filter_step(
        s,
        conditioned(burst, ch),
        elapsed,
        KNOB_THRESHOLD as int,
        KNOB_THROTTLE_MS as int,
    )
}

/// The turn decoders of both knobs, fed from one interleaved burst
/// (left channel first).
pub struct KnobInputReader {
    pub left_filter: KnobFilter<KNOB_THRESHOLD, KNOB_THROTTLE_MS>,
    pub right_filter: KnobFilter<KNOB_THRESHOLD, KNOB_THROTTLE_MS>,
}

impl KnobInputReader {
    /// Decoders seeded with the first readings.
    pub fn new(initial_left: u16, initial_right: u16) -> (r: Self)
        ensures
            r.left_filter@ == (KnobFilterState {
                last: initial_left as int,
                turn: KnobTurn::Idle,
                timer: 0,
            }),
            r.right_filter@ == (KnobFilterState {
                last: initial_right as int,
                turn: KnobTurn::Idle,
                timer: 0,
            }),
    {
        KnobInputReader {
            left_filter: KnobFilter::new(initial_left),
            right_filter: KnobFilter::new(initial_right),
        }
    }

    /// Conditions one burst and decodes the turn of each knob.
    pub fn read(&mut self, burst: &[u16], elapsed_ms: u16) -> (r: (KnobTurn, KnobTurn))
        requires
            valid_burst(burst@),
        ensures
            (final(self).left_filter@, r.0) == knob_step(
                old(self).left_filter@,
                burst@,
                0,
                elapsed_ms as int,
            ),
            (final(self).right_filter@, r.1) == knob_step(
                old(self).right_filter@,
                burst@,
                1,
                elapsed_ms as int,
            ),
    {
        let (left, right) = average_medians(burst);
        let l = self.left_filter.filter(left, elapsed_ms);
        let r = self.right_filter.filter(right, elapsed_ms);
        (l, r)
    }
}

/// The abstract state of an [`InputReader`].
pub struct ReaderState {
    pub timer: int,
    pub buttons: ButtonsState,
    pub left: KnobFilterState,
    pub right: KnobFilterState,
    pub last: InputSnapshot,
    pub started: bool,
}

/// The snapshot that a completed cycle builds, and the state after it.
pub open spec fn cycle(s: ReaderState, now_us: int, raw: ButtonInputRead, burst: Seq<u16>) -> (
    ReaderState,
    InputSnapshot,
) {
    let e = elapsed_ms(s.timer, now_us);
    let b = buttons_step(s.buttons, raw, e);
    let l = knob_step(s.left, burst, 0, e);
    let r = knob_step(s.right, burst, 1, e);
    let snap = InputSnapshot { buttons: b.1, left_knob: l.1, right_knob: r.1 };
    (
        ReaderState {
            timer: advanced(s.timer, now_us),
            buttons: b.0,
            left: l.0,
            right: r.0,
            last: snap,
            started: true,
        },
        snap,
    )
}

/// Whether a snapshot is published: on the first cycle, and whenever it
/// differs from the one before.
pub open spec fn publishes(s: ReaderState, snap: InputSnapshot) -> bool {
    !s.started || snap != s.last
}

/// One polling cycle: the debounced buttons, conditioned and decoded knobs,
/// and the snapshot, published only when it changed.
pub struct InputReader {
    pub timer: ElapsedTimer,
    pub buttons: ButtonInputReader,
    pub knobs: KnobInputReader,
    /// The snapshot of the last completed cycle.
    pub last: InputSnapshot,
    /// Whether a cycle has completed yet.
    pub started: bool,
}

impl View for InputReader {
    type V = ReaderState;

    open spec fn view(&self) -> ReaderState {
        ReaderState {
            timer: self.timer@,
            buttons: self.buttons@,
            left: self.knobs.left_filter@,
            right: self.knobs.right_filter@,
            last: self.last,
            started: self.started,
        }
    }
}

impl InputReader {
    /// A reader started at `now_us`, seeded with the first raw readings.
    pub fn new(now_us: u64, buttons: &ButtonInputRead, left_knob: u16, right_knob: u16) -> (r:
        Self)
        ensures
            r@.timer == now_us,
            r@.buttons == seeded(*buttons),
            r@.left == (KnobFilterState { last: left_knob as int, turn: KnobTurn::Idle, timer: 0 }),
            r@.right == (KnobFilterState {
                last: right_knob as int,
                turn: KnobTurn::Idle,
                timer: 0,
            }),
            r@.last == idle_snapshot(),
            !r@.started,
    {
        InputReader {
            timer: ElapsedTimer::new(now_us),
            buttons: ButtonInputReader::new(buttons),
            knobs: KnobInputReader::new(left_knob, right_knob),
            last: InputSnapshot::default(),
            started: false,
        }
    }

    /// Runs one cycle at `now_us` on the raw button levels and the knob
    /// burst, and returns the snapshot when it is to be published.
    ///
    /// `burst` is `None` when the analog transfer failed: the cycle is then
    /// abandoned and nothing changes.
    pub fn read(&mut self, now_us: u64, raw: &ButtonInputRead, burst: Option<&[u16]>) -> (r:
        Option<InputSnapshot>)
        requires
            old(self)@.timer <= now_us,
            burst matches Some(b) ==> valid_burst(b@),
        ensures
            burst is None ==> r is None && *final(self) == *old(self),
            burst matches Some(b) ==> ({
                let (st, snap) = cycle(old(self)@, now_us as int, *raw, b@);
                &&& final(self)@ == st
                &&& r == if publishes(old(self)@, snap) {
                    Some(snap)
                } else {
                    None
                }
            }),
    {
        let samples = match burst {
            None => {
                return None;
            },
            Some(b) => b,
        };
        let elapsed = self.timer.next_elapsed_ms(now_us);
        let buttons = self.buttons.read(raw, elapsed);
        let (left_knob, right_knob) = self.knobs.read(samples, elapsed);
        let snap = InputSnapshot { buttons, left_knob, right_knob };
        let publish = !self.started || snap != self.last;
        self.started = true;
        self.last = snap;
        if publish {
            Some(snap)
        } else {
            None
        }
    }
}

/// A cycle that builds the same snapshot as the cycle before it publishes
/// nothing: two identical snapshots in a row reach the encoder once.
pub proof fn lemma_repeat_suppressed(
    s: ReaderState,
    now1: u64,
    raw1: ButtonInputRead,
    burst1: Seq<u16>,
    now2: u64,
    raw2: ButtonInputRead,
    burst2: Seq<u16>,
)
    ensures
        ({
            let (s1, snap1) = cycle(s, now1 as int, raw1, burst1);
            let (s2, snap2) = cycle(s1, now2 as int, raw2, burst2);
            snap2 == snap1 ==> !publishes(s1, snap2)
        }),
{
}

/// The first completed cycle always publishes its snapshot.
pub proof fn lemma_first_cycle_publishes(s: ReaderState, snap: InputSnapshot)
    requires
        !s.started,
    ensures
        publishes(s, snap),
{
}

} // verus!
