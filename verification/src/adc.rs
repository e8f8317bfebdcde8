use vstd::prelude::*;
use crate::timing::{millis_to_ticks, micros_to_ticks, ticks_from_millis, ticks_from_micros};

verus! {

/// Largest sample of the 12-bit converter.
pub const ADC_MAX: u32 = 4095;

/// Internal reference voltage of the converter, in millivolts.
pub const VREFINT_MV: u32 = 1210;

/// Samples in one block handed out by the DMA ring.
pub const DMA_BUF_SIZE: usize = 50;

/// Length of the DMA ring: a block is half of it.
pub const RING_SIZE: usize = 100;

/// At most this many leading samples of a block are reported.
pub const HEAD_LEN: usize = 10;

/// Pause between two block reads, in milliseconds.
pub const BLOCK_POLL_MS: u64 = 100;

/// Sum of a sequence of samples.
pub open spec fn sum_of(s: Seq<u16>) -> nat
    decreases s.len(),
{
    if s.len() == 0 {
        0
    } else {
        sum_of(s.drop_last()) + s.last() as nat
    }
}

/// Integer mean of a nonempty sequence of samples, rounded down.
pub open spec fn mean_of(s: Seq<u16>) -> nat
    recommends
        s.len() > 0,
{
    sum_of(s) / s.len()
}

/// The leading samples that a block report shows.
pub open spec fn head_of(s: Seq<u16>) -> Seq<u16> {
    if s.len() <= HEAD_LEN {
        s
    } else {
        s.take(HEAD_LEN as int)
    }
}

/// A prefix never sums to more than the whole.
proof fn lemma_sum_prefix_le(s: Seq<u16>, i: int)
    requires
        0 <= i <= s.len(),
    ensures
        sum_of(s.take(i)) <= sum_of(s),
    decreases s.len(),
{
    if i < s.len() {
        assert(s.drop_last().take(i) =~= s.take(i));
        lemma_sum_prefix_le(s.drop_last(), i);
    } else {
        assert(s.take(i) =~= s);
    }
}

/// Sum of a prefix one element longer.
proof fn lemma_sum_take_step(s: Seq<u16>, i: int)
    requires
        0 <= i < s.len(),
    ensures
        sum_of(s.take(i + 1)) == sum_of(s.take(i)) + s[i] as nat,
{
    assert(s.take(i + 1).drop_last() =~= s.take(i));
}

/// Sums of samples bounded by `lo` and `hi` lie between `len * lo` and
/// `len * hi`.
proof fn lemma_sum_bounds(s: Seq<u16>, lo: nat, hi: nat)
    requires
        forall|k: int| 0 <= k < s.len() ==> lo <= #[trigger] s[k] <= hi,
    ensures
        s.len() * lo <= sum_of(s) <= s.len() * hi,
    decreases s.len(),
{
    if s.len() > 0 {
        let t = s.drop_last();
        assert forall|k: int| 0 <= k < t.len() implies lo <= #[trigger] t[k] <= hi by {
            assert(t[k] == s[k]);
        }
        lemma_sum_bounds(t, lo, hi);
        assert(lo <= s[s.len() - 1] <= hi);
        assert(sum_of(s) == sum_of(t) + s.last() as nat);
        assert(s.len() * lo == t.len() * lo + lo) by (nonlinear_arith)
            requires
                s.len() == t.len() + 1,
        ;
        assert(s.len() * hi == t.len() * hi + hi) by (nonlinear_arith)
            requires
                s.len() == t.len() + 1,
        ;
    } else {
        let n = s.len();
        assert(n * lo == 0 && n * hi == 0) by (nonlinear_arith)
            requires
                n == 0,
        ;
    }
}

/// The mean of samples lies between the smallest and the largest bound of
/// the samples: for every nonempty `s` whose elements all lie in
/// `[lo, hi]`, `lo <= mean_of(s) <= hi`.
pub proof fn law_mean_within_bounds(s: Seq<u16>, lo: nat, hi: nat)
    requires
        s.len() > 0,
        forall|k: int| 0 <= k < s.len() ==> lo <= #[trigger] s[k] <= hi,
    ensures
        lo <= mean_of(s) <= hi,
{
    lemma_sum_bounds(s, lo, hi);
    let n = s.len();
    let t = sum_of(s);
    assert(lo <= t / n <= hi) by (nonlinear_arith)
        requires
            n > 0,
            n * lo <= t <= n * hi,
    ;
}

/// Every sum of `n` samples is at most `n * 65535`.
proof fn lemma_sum_max(s: Seq<u16>)
    ensures
        sum_of(s) <= s.len() * 65535,
{
    lemma_sum_bounds(s, 0, 65535);
}

/// What the DMA task reports of one block: its length, the mean of its
/// samples and its first few samples.
pub struct BlockReport {
    pub n: usize,
    pub avg_raw: u16,
    pub head: Vec<u16>,
}

/// `rep` is the report of the block `s`.
pub open spec fn reports(rep: BlockReport, s: Seq<u16>) -> bool {
    &&& rep.n == s.len()
    &&& rep.avg_raw == mean_of(s)
    &&& rep.head@ == head_of(s)
}

/// Sum of the samples of a slice, as the DMA task accumulates it in a `u32`.
fn sum_u32(data: &[u16]) -> (r: u32)
    requires
        sum_of(data@) <= u32::MAX,
    ensures
        r == sum_of(data@),
{
    let mut sum: u32 = 0;
    let mut i: usize = 0;
    while i < data.len()
        invariant
            i <= data@.len(),
            sum == sum_of(data@.take(i as int)),
            sum_of(data@) <= u32::MAX,
        decreases data@.len() - i,
    {
        proof {
            lemma_sum_take_step(data@, i as int);
            lemma_sum_prefix_le(data@, i + 1);
        }
        sum = sum + data[i] as u32;
        i = i + 1;
    }
    assert(data@.take(data@.len() as int) =~= data@);
    sum
}

/// Summarises a block of samples: the count, the mean rounded down and the
/// leading samples. The sum is held in a `u32`, which `requires` keeps from
/// overflowing, as it does the count.
pub fn summarize_block(data: &[u16]) -> (r: BlockReport)
    requires
        0 < data@.len() <= u32::MAX,
        sum_of(data@) <= u32::MAX,
    ensures
        reports(r, data@),
{
    let sum = sum_u32(data);
    let n = data.len();
    proof {
        lemma_sum_max(data@);
        let t = sum_of(data@);
        let m = data@.len();
        assert(t / m <= 65535) by (nonlinear_arith)
            requires
                m > 0,
                t <= m * 65535,
        ;
    }
    let avg_raw: u16 = (sum / (n as u32)) as u16;
    let k: usize = if n < HEAD_LEN {
        n
    } else {
        HEAD_LEN
    };
    let mut head: Vec<u16> = Vec::new();
    let mut i: usize = 0;
    while i < k
        invariant
            k <= data@.len(),
            i <= k,
            head@ =~= data@.take(i as int),
        decreases k - i,
    {
        head.push(data[i]);
        i = i + 1;
    }
    assert(head@ =~= head_of(data@));
    BlockReport { n, avg_raw, head }
}

/// The ring-buffered converter lost samples (it was overrun).
#[derive(Clone, Copy, Debug, PartialEq, Eq, Structural)]
pub struct Overrun;

/// What the DMA task does after a block read.
pub enum DmaStep {
    /// Report the block.
    Report(BlockReport),
    /// Warn and restart the conversion.
    Restart,
}

/// The decision of the DMA task on the outcome of one read: a block of `n`
/// samples, the first `n` of `out`, is reported; an overrun restarts the
/// converter.
pub fn on_dma_read(result: Result<usize, Overrun>, out: &[u16]) -> (r: DmaStep)
    requires
        result matches Ok(n) ==> {
            &&& 0 < n <= out@.len()
            &&& n <= u32::MAX
            &&& sum_of(out@.take(n as int)) <= u32::MAX
        },
    ensures
        match result {
            Ok(n) => r matches DmaStep::Report(rep) && reports(rep, out@.take(n as int)),
            Err(_) => r is Restart,
        },
{
    match result {
        Ok(n) => {
            let mut block: Vec<u16> = Vec::new();
            let mut i: usize = 0;
            while i < n
                invariant
                    n <= out@.len(),
                    i <= n,
                    block@ =~= out@.take(i as int),
                decreases n - i,
            {
                block.push(out[i]);
                i = i + 1;
            }
            DmaStep::Report(summarize_block(block.as_slice()))
        },
        Err(_) => DmaStep::Restart,
    }
}

/// Ticks of the pause between two block reads.
pub fn block_poll_ticks() -> (r: u64)
    ensures
        r == ticks_from_millis(BLOCK_POLL_MS as nat),
{
    match millis_to_ticks(BLOCK_POLL_MS) {
        Some(t) => t,
        None => 0,
    }
}

/// Accumulates `times` single conversions and yields their mean, as the
/// blocking converter demo averages readings taken a few milliseconds apart.
pub struct SampleAverager {
    acc: u32,
    taken: u8,
    times: u8,
    samples: Ghost<Seq<u16>>,
}

impl SampleAverager {
    /// The samples added so far.
    pub closed spec fn samples(&self) -> Seq<u16> {
        self.samples@
    }

    /// The number of samples to average.
    pub closed spec fn times(&self) -> nat {
        self.times as nat
    }

    /// The accumulator is the sum of the samples taken, and no more than
    /// `times` samples are taken.
    pub closed spec fn wf(&self) -> bool {
        &&& self.acc == sum_of(self.samples@)
        &&& self.taken == self.samples@.len()
        &&& self.taken <= self.times
    }

    /// An averager of `times` samples, with none taken yet.
    pub fn new(times: u8) -> (r: Self)
        ensures
            r.wf(),
            r.samples() == Seq::<u16>::empty(),
            r.times() == times,
    {
        SampleAverager { acc: 0, taken: 0, times, samples: Ghost(Seq::empty()) }
    }

    /// Whether all `times` samples are taken.
    pub fn is_complete(&self) -> (r: bool)
        requires
            self.wf(),
        ensures
            r == (self.samples().len() == self.times()),
    {
        self.taken == self.times
    }

    /// Adds one conversion result.
    pub fn add_sample(&mut self, v: u16)
        requires
            old(self).wf(),
            old(self).samples().len() < old(self).times(),
        ensures
            final(self).wf(),
            final(self).samples() == old(self).samples().push(v),
            final(self).times() == old(self).times(),
    {
        let ghost s = self.samples@.push(v);
        proof {
            assert(s.drop_last() =~= self.samples@);
            lemma_sum_max(s);
            assert(s.len() * 65535 <= 255 * 65535) by (nonlinear_arith)
                requires
                    s.len() <= 255,
            ;
        }
        self.acc = self.acc + v as u32;
        self.taken = self.taken + 1;
        self.samples = Ghost(s);
    }

    /// The mean of the `times` samples, rounded down, as `acc / times`.
    pub fn average(&self) -> (r: u16)
        requires
            self.wf(),
            self.samples().len() == self.times(),
            self.times() > 0,
        ensures
            r == mean_of(self.samples()),
    {
        proof {
            lemma_sum_max(self.samples@);
            let t = sum_of(self.samples@);
            let m = self.samples@.len();
            assert(t / m <= 65535) by (nonlinear_arith)
                requires
                    m > 0,
                    t <= m * 65535,
            ;
        }
        (self.acc / (self.times as u32)) as u16
    }
}

/// Millivolts of a raw sample against the reference sample:
/// `sample * VREFINT_MV / vrefint_sample`, rounded down.
pub open spec fn millivolts(sample: int, vrefint_sample: int) -> int {
    sample * VREFINT_MV / vrefint_sample
}

/// Converts a raw sample to millivolts against the internal reference:
/// `sample * VREFINT_MV / vrefint_sample`, rounded down. A zero reference
/// sample is a division by zero, left out by `requires`.
pub fn convert_to_millivolts(sample: u16, vrefint_sample: u16) -> (r: u32)
    requires
        vrefint_sample != 0,
    ensures
        r == millivolts(sample as int, vrefint_sample as int),
{
    assert(sample * 1210 <= 65535 * 1210) by (nonlinear_arith)
        requires
            sample <= 65535,
    ;
    (sample as u32 * VREFINT_MV) / (vrefint_sample as u32)
}

/// Supply voltage estimated from the reference sample: the millivolts of a
/// full-scale reading.
pub fn estimated_vdda_mv(vrefint_sample: u16) -> (r: u32)
    requires
        vrefint_sample != 0,
    ensures
        r == millivolts(ADC_MAX as int, vrefint_sample as int),
{
    convert_to_millivolts(ADC_MAX as u16, vrefint_sample)
}

/// The reference sample itself converts to the reference voltage: for
/// every nonzero `vrefint_sample`, converting it gives `VREFINT_MV`.
pub proof fn law_reference_converts_to_vrefint(vrefint_sample: u16)
    requires
        vrefint_sample != 0,
    ensures
        millivolts(vrefint_sample as int, vrefint_sample as int) == VREFINT_MV,
{
    let v = vrefint_sample as int;
    assert(v * 1210 / v == 1210) by (nonlinear_arith)
        requires
            v > 0,
    ;
}

/// A larger sample never converts to fewer millivolts.
pub proof fn law_conversion_monotone(a: u16, b: u16, vrefint_sample: u16)
    requires
        vrefint_sample != 0,
        a <= b,
    ensures
        millivolts(a as int, vrefint_sample as int) <= millivolts(b as int, vrefint_sample as int),
{
    let v = vrefint_sample as int;
    let x = a * 1210;
    let y = b * 1210;
    assert(x <= y) by (nonlinear_arith)
        requires
            a <= b,
            x == a * 1210,
            y == b * 1210,
    ;
    vstd::arithmetic::div_mod::lemma_div_is_ordered(x, y, v);
}

/// `embassy_stm32::adc::VrefInt::start_time_us()`: the microseconds the
/// internal reference needs to settle; the source for this chip family
/// returns the constant 10.
#[verifier::external_body]
fn embassy_vrefint_start_time_us() -> (us: u32)
    ensures
        us == 10,
{
    embassy_stm32::adc::VrefInt::start_time_us()
}

/// Ticks to wait after enabling the internal reference before sampling it.
pub fn vrefint_start_ticks() -> (r: u64)
    ensures
        r == ticks_from_micros(10),
{
    let us = embassy_vrefint_start_time_us();
    match micros_to_ticks(us as u64) {
        Some(t) => t,
        None => 0,
    }
}

} // verus!
