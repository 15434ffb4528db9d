use vstd::prelude::*;

verus! {

/// Samples per knob channel in one burst.
pub const KNOB_SAMPLES: usize = 32;

/// Length of one interleaved two-channel burst.
pub const KNOB_BUFFER_LEN: usize = 64;

/// The middle value of three.
pub open spec fn median3(a: int, b: int, c: int) -> int {
    let lo = if a <= b {
        a
    } else {
        b
    };
    let hi = if a <= b {
        b
    } else {
        a
    };
    if c <= lo {
        lo
    } else if c >= hi {
        hi
    } else {
        c
    }
}

/// Median of three samples, by comparisons only.
pub fn median(a: u16, b: u16, c: u16) -> (r: u16)
    ensures
        r == median3(a as int, b as int, c as int),
{
    if a >= b {
        if b >= c {
            b
        } else if a >= c {
            c
        } else {
            a
        }
    } else if a >= c {
        a
    } else if b >= c {
        c
    } else {
        b
    }
}

/// A median of three never leaves the range of the two samples beside the
/// middle one, and a middle sample outside that range gives way to the
/// nearer of the two.
pub proof fn lemma_median_rejects_spike(a: u16, spike: u16, b: u16)
    ensures
        ({
            let m = median3(a as int, spike as int, b as int);
            let lo = if a <= b {
                a as int
            } else {
                b as int
            };
            let hi = if a <= b {
                b as int
            } else {
                a as int
            };
            &&& lo <= m <= hi
            &&& spike > hi ==> m == hi
            &&& spike < lo ==> m == lo
        }),
{
}

/// Number of median windows in an interleaved burst of `len` samples.
pub open spec fn window_count(len: int) -> int {
    len / 2 - 2
}

/// The median of window `i` of channel `ch` (0 or 1) of an interleaved burst.
pub open spec fn window_median(s: Seq<u16>, ch: int, i: int) -> int {
    median3(s[2 * i + ch] as int, s[2 * i + 2 + ch] as int, s[2 * i + 4 + ch] as int)
}

/// Sum of the medians of the first `k` windows of channel `ch`.
pub open spec fn median_sum(s: Seq<u16>, ch: int, k: int) -> int
    decreases k,
{
    if k <= 0 {
        0
    } else {
        median_sum(s, ch, k - 1) + window_median(s, ch, k - 1)
    }
}

/// The conditioned reading of channel `ch`: the mean of its window medians.
pub open spec fn conditioned(s: Seq<u16>, ch: int) -> int {
    median_sum(s, ch, window_count(s.len() as int)) / window_count(s.len() as int)
}

/// Whether every sample is a 12-bit value.
pub open spec fn all_12bit(s: Seq<u16>) -> bool {
    forall|i: int| 0 <= i < s.len() ==> #[trigger] s[i] < 4096
}

/// Buffer for one interleaved two-channel knob burst.
pub struct KnobBuffer(pub [u16; KNOB_BUFFER_LEN]);

impl KnobBuffer {
    /// A zeroed burst buffer.
    pub fn new() -> (r: Self)
        ensures
            r.0@.len() == KNOB_BUFFER_LEN,
            forall|i: int| 0 <= i < KNOB_BUFFER_LEN ==> r.0@[i] == 0,
    {
        KnobBuffer([0u16; KNOB_BUFFER_LEN])
    }
}

/// Reduces an interleaved two-channel burst to one reading per channel:
/// a median of three over each sliding window, averaged over the windows.
pub fn average_medians(samples: &[u16]) -> (r: (u16, u16))
    requires
        samples@.len() % 2 == 0,
        6 <= samples@.len() <= 0x2_0002,
    ensures
        r.0 == conditioned(samples@, 0),
        r.1 == conditioned(samples@, 1),
        all_12bit(samples@) ==> r.0 < 4096 && r.1 < 4096,
{
    let n: usize = samples.len() / 2 - 2;
    let mut left: u32 = 0;
    let mut right: u32 = 0;
    let mut i: usize = 0;
    while i < n
        invariant
            n == window_count(samples@.len() as int),
            2 * n + 4 == samples@.len(),
            n <= 0xffff,
            i <= n,
            left == median_sum(samples@, 0, i as int),
            right == median_sum(samples@, 1, i as int),
            left <= i * 0xffff,
            right <= i * 0xffff,
            all_12bit(samples@) ==> left <= i * 4095 && right <= i * 4095,
        decreases n - i,
    {
        let k = 2 * i;
        let ml = median(samples[k], samples[k + 2], samples[k + 4]);
        let mr = median(samples[k + 1], samples[k + 3], samples[k + 5]);
        assert(all_12bit(samples@) ==> ml < 4096 && mr < 4096) by {
            if all_12bit(samples@) {
                assert(samples@[k as int] < 4096);
                assert(samples@[k + 2] < 4096);
                assert(samples@[k + 4] < 4096);
                assert(samples@[k + 1] < 4096);
                assert(samples@[k + 3] < 4096);
                assert(samples@[k + 5] < 4096);
            }
        }
        assert(i * 0xffff + 0xffff <= 0xffff_ffff) by (nonlinear_arith)
            requires
                i < n,
                n <= 0xffff,
        ;
        left = left + ml as u32;
        right = right + mr as u32;
        i = i + 1;
    }
    proof {
        lemma_mean_bounded(left as int, n as int, 0xffff);
        lemma_mean_bounded(right as int, n as int, 0xffff);
        if all_12bit(samples@) {
            lemma_mean_bounded(left as int, n as int, 4095);
            lemma_mean_bounded(right as int, n as int, 4095);
        }
    }
    ((left / n as u32) as u16, (right / n as u32) as u16)
}

/// A sum of `n` values, each at most `m`, has a mean of at most `m`.
proof fn lemma_mean_bounded(sum: int, n: int, m: int)
    requires
        0 <= sum <= n * m,
        n > 0,
        m >= 0,
    ensures
        sum / n <= m,
{
    assert(sum / n <= m) by (nonlinear_arith)
        requires
            0 <= sum <= n * m,
            n > 0,
    ;
}

} // verus!
