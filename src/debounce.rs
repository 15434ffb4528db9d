use vstd::prelude::*;

verus! {

/// The abstract state of a [`ButtonDebouncer`].
pub struct DebounceState {
    /// The level currently reported.
    pub debounced: bool,
    /// The raw level seen on the previous call.
    pub last_raw: bool,
    /// Milliseconds left before a release may be committed.
    pub timer: int,
}

/// One call of the debouncer: the state after it and the level it reports.
///
/// Presses pass through at once; while pressed, every change of the raw
/// level restarts the release window, and a release is committed only once
/// the window has run out.
pub open spec fn debounce_step(s: DebounceState, raw: bool, elapsed: int, window: int) -> (
    DebounceState,
    bool,
) {
    let t = if s.timer > elapsed {
        s.timer - elapsed
    } else {
        0
    };
    if s.debounced && s.last_raw != raw {
        (DebounceState { debounced: true, last_raw: raw, timer: window }, true)
    } else if raw == s.debounced {
        (DebounceState { timer: t, ..s }, raw)
    } else if raw {
        (DebounceState { debounced: true, last_raw: true, timer: t }, true)
    } else if t > 0 {
        (DebounceState { timer: t, ..s }, true)
    } else {
        (DebounceState { debounced: false, last_raw: s.last_raw, timer: t }, false)
    }
}

/// Asymmetric debouncer for one button.
///
/// A press is reported on the very call that sees it; a release is reported
/// only after `DEBOUNCE_MS` milliseconds without any change of the raw level.
pub struct ButtonDebouncer<const DEBOUNCE_MS: u16> {
    release_last_raw_value: bool,
    debounced: bool,
    timer: u16,
}

impl<const DEBOUNCE_MS: u16> View for ButtonDebouncer<DEBOUNCE_MS> {
    type V = DebounceState;

    closed spec fn view(&self) -> DebounceState {
        DebounceState {
            debounced: self.debounced,
            last_raw: self.release_last_raw_value,
            timer: self.timer as int,
        }
    }
}

impl<const DEBOUNCE_MS: u16> ButtonDebouncer<DEBOUNCE_MS> {
    /// A debouncer that starts out reporting `initial`, with no release pending.
    pub fn new(initial: bool) -> (r: Self)
        ensures
            r@ == (DebounceState { debounced: initial, last_raw: initial, timer: 0 }),
    {
        ButtonDebouncer { release_last_raw_value: initial, debounced: initial, timer: 0 }
    }

    /// Feeds one raw level, `elapsed_ms` after the previous call, and returns
    /// the debounced level.
    pub fn debounce(&mut self, raw_state: bool, elapsed_ms: u16) -> (r: bool)
        ensures
            (final(self)@, r) == debounce_step(
                old(self)@,
                raw_state,
                elapsed_ms as int,
                DEBOUNCE_MS as int,
            ),
    {
        if self.timer != 0 {
            self.timer = self.timer.saturating_sub(elapsed_ms);
        }
        // A change of the raw level while pressed restarts the release window.
        if self.debounced && self.release_last_raw_value != raw_state {
            self.timer = DEBOUNCE_MS;
            self.release_last_raw_value = raw_state;
            return true;
        }
        match (raw_state, self.debounced) {
            (true, true) | (false, false) => raw_state,
            (true, false) => {
                self.debounced = true;
                self.release_last_raw_value = true;
                true
            },
            (false, true) => {
                if self.timer > 0 {
                    return true;
                }
                self.debounced = false;
                false
            },
        }
    }
}

/// A press is reported on the very call that sees it, whatever the state
/// and however much time has passed.
pub proof fn lemma_press_is_immediate(s: DebounceState, elapsed: u16, window: u16)
    ensures
        debounce_step(s, true, elapsed as int, window as int).1,
{
}

/// The state after feeding a sequence of (raw level, elapsed ms) calls.
pub open spec fn run(s: DebounceState, steps: Seq<(bool, u16)>, window: int) -> DebounceState
    decreases steps.len(),
{
    if steps.len() == 0 {
        s
    } else {
        let k = steps.last();
        debounce_step(run(s, steps.drop_last(), window), k.0, k.1 as int, window).0
    }
}

/// The level reported by the last call of a non-empty sequence.
pub open spec fn last_output(s: DebounceState, steps: Seq<(bool, u16)>, window: int) -> bool {
    let k = steps.last();
    debounce_step(run(s, steps.drop_last(), window), k.0, k.1 as int, window).1
}

/// The raw level of the last call, or `initial` before any.
pub open spec fn last_raw_of(initial: bool, steps: Seq<(bool, u16)>) -> bool {
    if steps.len() == 0 {
        initial
    } else {
        steps.last().0
    }
}

/// Milliseconds for which the raw level has held still: the time elapsed
/// over the calls after the last one that changed it (`initial` being the
/// level before the first call).
pub open spec fn quiet_ms(initial: bool, steps: Seq<(bool, u16)>) -> int
    decreases steps.len(),
{
    if steps.len() == 0 {
        0
    } else if steps.last().0 != last_raw_of(initial, steps.drop_last()) {
        0
    } else {
        quiet_ms(initial, steps.drop_last()) + steps.last().1
    }
}

/// What holds after every prefix of calls that starts from a steady press.
spec fn release_inv(st: DebounceState, steps: Seq<(bool, u16)>, window: int) -> bool {
    let q = quiet_ms(true, steps);
    &&& st.last_raw == last_raw_of(true, steps)
    &&& !st.debounced ==> !st.last_raw && q >= window
    &&& st.debounced && !st.last_raw ==> q < window && st.timer == window - q
}

proof fn lemma_release_inv(s: DebounceState, steps: Seq<(bool, u16)>, window: int)
    requires
        s.debounced,
        s.last_raw,
        window > 0,
    ensures
        release_inv(run(s, steps, window), steps, window),
    decreases steps.len(),
{
    if steps.len() > 0 {
        lemma_release_inv(s, steps.drop_last(), window);
    }
}

/// Chatter rejection: starting from a steady press, the debouncer reports
/// "released" after a call exactly when the raw level is released and has
/// held still for the whole window, so every flicker during a release
/// restarts the wait.
pub proof fn lemma_release_waits_for_quiet(
    s: DebounceState,
    steps: Seq<(bool, u16)>,
    window: u16,
)
    requires
        s.debounced,
        s.last_raw,
        window > 0,
        steps.len() > 0,
    ensures
        last_output(s, steps, window as int) == (steps.last().0 || quiet_ms(true, steps)
            < window),
{
    lemma_release_inv(s, steps.drop_last(), window as int);
}

} // verus!
