use vstd::arithmetic::div_mod::{
    lemma_div_is_ordered, lemma_fundamental_div_mod, lemma_hoist_over_denominator,
};
use vstd::prelude::*;

verus! {

/// Microseconds in one millisecond.
pub const MICROS_PER_MILLI: u64 = 1000;

/// Whole milliseconds between two instants, clamped to 16 bits.
pub open spec fn elapsed_ms(last_us: int, now_us: int) -> int {
    let ms = (now_us - last_us) / MICROS_PER_MILLI as int;
    if ms > 0xffff {
        0xffff
    } else {
        ms
    }
}

/// The reference point after an advance to `now_us`: the last whole
/// millisecond at or before it, or unchanged when not one has passed.
pub open spec fn advanced(last_us: int, now_us: int) -> int {
    if elapsed_ms(last_us, now_us) > 0 {
        now_us - now_us % MICROS_PER_MILLI as int
    } else {
        last_us
    }
}

/// Milliseconds elapsed between polling cycles.
///
/// Instants are microseconds on a monotonic clock. Each advance moves the
/// reference point to the last whole millisecond at or before the current
/// instant, so the fractions of a millisecond left over are never dropped.
pub struct ElapsedTimer {
    last: u64,
}

impl View for ElapsedTimer {
    type V = int;

    closed spec fn view(&self) -> int {
        self.last as int
    }
}

impl ElapsedTimer {
    /// A timer whose reference point is `initial_us`.
    pub fn new(initial_us: u64) -> (r: Self)
        ensures
            r@ == initial_us as int,
    {
        ElapsedTimer { last: initial_us }
    }

    /// The whole milliseconds since the reference point; advances the
    /// reference point when at least one has passed.
    pub fn next_elapsed_ms(&mut self, now_us: u64) -> (r: u16)
        requires
            old(self)@ <= now_us,
        ensures
            r == elapsed_ms(old(self)@, now_us as int),
            final(self)@ == advanced(old(self)@, now_us as int),
    {
        let ms: u64 = (now_us - self.last) / MICROS_PER_MILLI;
        let elapsed: u16 = if ms > 0xffff {
            0xffff
        } else {
            ms as u16
        };
        if elapsed > 0 {
            self.last = now_us - now_us % MICROS_PER_MILLI;
        }
        elapsed
    }
}

/// The reference point never passes the current instant, and never moves
/// back, so the next call may be made at the same instant or any later one.
pub proof fn lemma_timer_never_ahead(last_us: u64, now_us: u64)
    requires
        last_us <= now_us,
    ensures
        last_us <= advanced(last_us as int, now_us as int) <= now_us,
{
}

/// The reference point and the total of the reported milliseconds after a
/// run of calls at the given instants.
pub open spec fn timer_run(last_us: int, instants: Seq<u64>) -> (int, int)
    decreases instants.len(),
{
    if instants.len() == 0 {
        (last_us, 0)
    } else {
        let (l, total) = timer_run(last_us, instants.drop_last());
        let now = instants.last() as int;
        (advanced(l, now), total + elapsed_ms(l, now))
    }
}

/// The instant of the last call, or `start_us` before any.
pub open spec fn last_instant(start_us: int, instants: Seq<u64>) -> int {
    if instants.len() == 0 {
        start_us
    } else {
        instants.last() as int
    }
}

/// Calls at non-decreasing instants, none more than 65535 ms after the one
/// before (so that no report is clamped).
pub open spec fn steady_instants(start_us: int, instants: Seq<u64>) -> bool {
    &&& instants.len() > 0 ==> start_us <= instants[0] && instants[0] - start_us <= 65_535_000
    &&& forall|i: int|
        0 < i < instants.len() ==> instants[i - 1] <= #[trigger] instants[i] && instants[i]
            - instants[i - 1] <= 65_535_000
}

proof fn lemma_advance_from_boundary(p: int, now: int)
    requires
        0 <= p <= now,
        now - p <= 65_535_000,
    ensures
        elapsed_ms(1000 * (p / 1000), now) == now / 1000 - p / 1000,
        advanced(1000 * (p / 1000), now) == 1000 * (now / 1000),
{
    let q = p / 1000;
    lemma_fundamental_div_mod(p, 1000);
    lemma_fundamental_div_mod(now, 1000);
    lemma_hoist_over_denominator(now - 1000 * q, q, 1000);
    assert(now - 1000 * q + q * 1000 == now);
    lemma_div_is_ordered(now, p + 65_535_000, 1000);
    lemma_hoist_over_denominator(p, 65535, 1000);
}

/// The reported milliseconds never drift: over any run of calls, started on
/// a whole millisecond, they add up to exactly the whole milliseconds that
/// passed, and the reference point stays on the last whole millisecond.
pub proof fn lemma_no_drift(start_us: u64, instants: Seq<u64>)
    requires
        start_us % MICROS_PER_MILLI == 0,
        steady_instants(start_us as int, instants),
    ensures
        timer_run(start_us as int, instants).1 == last_instant(start_us as int, instants) / 1000
            - start_us / 1000,
        timer_run(start_us as int, instants).0 == 1000 * (last_instant(start_us as int, instants)
            / 1000),
    decreases instants.len(),
{
    lemma_fundamental_div_mod(start_us as int, 1000);
    if instants.len() > 0 {
        let d = instants.drop_last();
        assert(steady_instants(start_us as int, d)) by {
            assert forall|i: int| 0 < i < d.len() implies d[i - 1] <= #[trigger] d[i] && d[i]
                - d[i - 1] <= 65_535_000 by {
                assert(d[i] == instants[i] && d[i - 1] == instants[i - 1]);
            }
        }
        lemma_no_drift(start_us, d);
        let p = last_instant(start_us as int, d);
        if d.len() > 0 {
            assert(instants[instants.len() - 2] == d.last());
        }
        lemma_advance_from_boundary(p, instants.last() as int);
    }
}

} // verus!
