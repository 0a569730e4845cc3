//! The spectral analyzer's state and bookkeeping.
//!
//! Audio samples and derived magnitudes are carried as the bit patterns of
//! the IEEE 754 single-precision values they denote; the analyzer never does
//! arithmetic on them. What it owns is the part of the pipeline that decides:
//! which samples are retained, which window the transform runs over, which
//! bins of the transform's output belong to the audible band, which bins get
//! the one-sided correction, and how the loudness estimate is carried from
//! frame to frame. The transform itself and the floating-point reductions run
//! in the embedding and hand their results back through [`Analyzer::set_spectrum`]
//! and [`Analyzer::smooth_loudness`].

use vstd::prelude::*;
use crate::parameter::{Parameter, PARAMETER_MAX, PARAMETER_MIN};

verus! {

/// How many retained samples an update keeps ahead of the fresh ones.
pub const RETENTION: usize = 128;

/// Lower edge of the audible band in hertz.
pub const BAND_LOW_HZ: usize = 20;

/// Upper edge of the audible band in hertz.
pub const BAND_HIGH_HZ: usize = 15000;

/// A single-precision bit pattern with an exponent short of all ones: a
/// finite value, neither an infinity nor a not-a-number.
pub open spec fn spec_is_finite_bits(b: u32) -> bool {
    (b >> 23) & 0xff != 0xff
}

pub fn is_finite_bits(b: u32) -> (r: bool)
    ensures
        r == spec_is_finite_bits(b),
{
    (b >> 23) & 0xff != 0xff
}

/// A degenerate loudness (infinite or not-a-number) is reset to zero rather
/// than propagated.
pub open spec fn spec_normalize_loudness(b: u32) -> u32 {
    if spec_is_finite_bits(b) {
        b
    } else {
        0
    }
}

pub fn normalize_loudness(b: u32) -> (r: u32)
    ensures
        r == spec_normalize_loudness(b),
        spec_is_finite_bits(r),
{
    proof {
        assert(0u32 >> 23 == 0) by (bit_vector);
        assert(0u32 & 0xff != 0xff) by (bit_vector);
    }
    if is_finite_bits(b) {
        b
    } else {
        0
    }
}

/// How many of the oldest retained samples an update evicts: everything
/// beyond the retention cap, but never any of the samples that arrived in
/// this update.
pub open spec fn spec_evicted(retained: Seq<u32>, fresh: Seq<u32>) -> int {
    let total = retained.len() + fresh.len();
    let excess = if total > RETENTION {
        total - RETENTION
    } else {
        0
    };
    if excess < retained.len() {
        excess
    } else {
        retained.len() as int
    }
}

/// The sample window after one update: the fresh samples appended, then the
/// evicted prefix dropped.
pub open spec fn spec_ingest(retained: Seq<u32>, fresh: Seq<u32>) -> Seq<u32> {
    (retained + fresh).skip(spec_evicted(retained, fresh))
}

/// Feeding no new samples leaves a window within the retention cap exactly
/// as it was, so a spectrum recomputed from it is the previous spectrum.
pub proof fn lemma_ingest_quiescent(retained: Seq<u32>)
    requires
        retained.len() <= RETENTION,
    ensures
        spec_ingest(retained, Seq::<u32>::empty()) == retained,
{
    assert(spec_ingest(retained, Seq::<u32>::empty()) =~= retained);
}

/// The window never outgrows the retention cap by more than one update's
/// arrivals.
pub proof fn lemma_ingest_bound(retained: Seq<u32>, fresh: Seq<u32>)
    ensures
        spec_ingest(retained, fresh).len() <= if RETENTION > fresh.len() {
            RETENTION as int
        } else {
            fresh.len() as int
        },
{
}

/// Which output bins of an `n`-point transform the spectrum keeps, given the
/// stream's sample rate: those whose implied frequency `bin * rate / n` lies
/// in the audible band, restricted to the one-sided half.
#[derive(Clone, Copy, Debug, PartialEq, Eq, Structural)]
pub struct SpectrumPlan {
    /// First bin kept.
    pub first: usize,
    /// First bin past the kept range; no less than `first`.
    pub end: usize,
    /// The index of the Nyquist bin, `n / 2`.
    pub half: usize,
}

impl SpectrumPlan {
    /// Bin selection for an `n`-point transform at `sample_rate`.
    pub fn compute(n: usize, sample_rate: u32) -> (r: SpectrumPlan)
        requires
            sample_rate >= 1,
            n * BAND_HIGH_HZ <= usize::MAX,
        ensures
            r.half == n as int / 2,
            r.first == BAND_LOW_HZ * n / (sample_rate as int),
            ({
                let cutoff = BAND_HIGH_HZ * n / (sample_rate as int);
                let top: int = if cutoff < r.half as int {
                    cutoff
                } else {
                    r.half as int
                };
                r.end == if top > r.first as int {
                    top
                } else {
                    r.first as int
                }
            }),
            r.first <= r.end,
            r.half <= n,
            // A band outside the transform's range selects nothing; whenever
            // bins are selected they lie within the one-sided half.
            r.first < r.end ==> r.end <= r.half,
    {
        let rate = sample_rate as usize;
        let half = n / 2;
        proof {
            assert(n * BAND_LOW_HZ <= n * BAND_HIGH_HZ) by (nonlinear_arith)
                requires
                    n >= 0,
            ;
            assert(BAND_LOW_HZ * n == n * BAND_LOW_HZ && BAND_HIGH_HZ * n == n * BAND_HIGH_HZ)
                by (nonlinear_arith);
        }
        let first = BAND_LOW_HZ * n / rate;
        let cutoff = BAND_HIGH_HZ * n / rate;
        let top = if cutoff < half {
            cutoff
        } else {
            half
        };
        let end = if top > first {
            top
        } else {
            first
        };
        SpectrumPlan { first, end, half }
    }
}

/// Whether bin `i` of an `n`-point transform receives the one-sided
/// correction: every kept bin is doubled to stand in for its discarded
/// conjugate, except the zero-frequency bin and the Nyquist bin `half`,
/// which have no conjugate partner.
pub fn doubled(i: usize, half: usize) -> (r: bool)
    ensures
        r == (i != 0 && i != half),
{
    i != 0 && i != half
}

/// Rolling analyzer state across frames.
pub struct Analyzer {
    /// Derived magnitude spectrum (bit patterns), overwritten every frame.
    frequencies: Vec<u32>,
    /// Smoothed loudness estimate (bit pattern), always finite.
    rms: u32,
    /// Retained sample window (bit patterns), newest last.
    samples: Vec<u32>,
}

impl Analyzer {
    pub closed spec fn spec_samples(self) -> Seq<u32> {
        self.samples@
    }

    pub closed spec fn spec_frequencies(self) -> Seq<u32> {
        self.frequencies@
    }

    pub closed spec fn spec_rms(self) -> u32 {
        self.rms
    }

    /// The loudness estimate is always a finite value.
    pub open spec fn wf(self) -> bool {
        spec_is_finite_bits(self.spec_rms())
    }

    pub fn new() -> (r: Analyzer)
        ensures
            r.wf(),
            r.spec_samples().len() == 0,
            r.spec_frequencies().len() == 0,
            r.spec_rms() == 0,
    {
        proof {
            assert((0u32 >> 23) & 0xff != 0xff) by (bit_vector);
        }
        Analyzer { frequencies: Vec::new(), rms: 0, samples: Vec::new() }
    }

    pub fn samples(&self) -> (r: &Vec<u32>)
        ensures
            r@ == self.spec_samples(),
    {
        &self.samples
    }

    pub fn frequencies(&self) -> (r: &Vec<u32>)
        ensures
            r@ == self.spec_frequencies(),
    {
        &self.frequencies
    }

    pub fn rms(&self) -> (r: u32)
        ensures
            r == self.spec_rms(),
    {
        self.rms
    }

    /// Absorb the samples drained from the stream this frame. A finished
    /// stream clears the window rather than freezing it; otherwise the fresh
    /// samples are appended and the oldest beyond the retention cap evicted.
    pub fn ingest(&mut self, fresh: &Vec<u32>, done: bool)
        requires
            old(self).spec_samples().len() + fresh.len() <= usize::MAX,
        ensures
            final(self).spec_frequencies() == old(self).spec_frequencies(),
            final(self).spec_rms() == old(self).spec_rms(),
            final(self).wf() == old(self).wf(),
            done ==> final(self).spec_samples() == Seq::<u32>::empty(),
            !done ==> final(self).spec_samples() == spec_ingest(
                old(self).spec_samples(),
                fresh@,
            ),
    {
        if done {
            self.samples = Vec::new();
            return;
        }

        let ghost retained = self.samples@;
        let retained_len = self.samples.len();

        let mut idx: usize = 0;
        while idx < fresh.len()
            invariant
                idx <= fresh.len(),
                retained.len() + fresh.len() <= usize::MAX,
                self.samples@ == retained + fresh@.take(idx as int),
                self.frequencies@ == old(self).spec_frequencies(),
                self.rms == old(self).spec_rms(),
                retained_len == retained.len(),
            decreases fresh.len() - idx,
        {
            self.samples.push(fresh[idx]);
            proof {
                assert(retained + fresh@.take(idx as int) + seq![fresh@[idx as int]] =~= retained
                    + fresh@.take(idx + 1));
            }
            idx += 1;
        }

        proof {
            assert(fresh@.take(fresh.len() as int) =~= fresh@);
        }

        let total = self.samples.len();
        let excess = if total > RETENTION {
            total - RETENTION
        } else {
            0
        };
        let evicted = if excess < retained_len {
            excess
        } else {
            retained_len
        };

        if evicted > 0 {
            let mut kept: Vec<u32> = Vec::new();
            let mut j = evicted;
            while j < total
                invariant
                    evicted <= j <= total,
                    total == self.samples.len(),
                    kept@ == self.samples@.subrange(evicted as int, j as int),
                    self.samples@ == retained + fresh@,
                    self.frequencies@ == old(self).spec_frequencies(),
                    self.rms == old(self).spec_rms(),
                decreases total - j,
            {
                kept.push(self.samples[j]);
                proof {
                    assert(self.samples@.subrange(evicted as int, j as int).push(
                        self.samples@[j as int],
                    ) =~= self.samples@.subrange(evicted as int, j + 1));
                }
                j += 1;
            }
            proof {
                assert(kept@ =~= (retained + fresh@).skip(evicted as int));
            }
            self.samples = kept;
        } else {
            proof {
                assert((retained + fresh@).skip(0) =~= retained + fresh@);
            }
        }
    }

    /// The transform's input: the retained window truncated to even length.
    pub fn window(&self) -> (w: Vec<u32>)
        ensures
            w@ == self.spec_samples().take(
                (self.spec_samples().len() - self.spec_samples().len() % 2) as int,
            ),
            w@.len() % 2 == 0,
    {
        let even = self.samples.len() - self.samples.len() % 2;
        let mut w: Vec<u32> = Vec::new();
        let mut i: usize = 0;
        while i < even
            invariant
                i <= even,
                even <= self.samples.len(),
                w@ == self.samples@.take(i as int),
            decreases even - i,
        {
            w.push(self.samples[i]);
            proof {
                assert(self.samples@.take(i as int).push(self.samples@[i as int])
                    =~= self.samples@.take(i + 1));
            }
            i += 1;
        }
        w
    }

    /// Store the magnitude spectrum derived for this frame.
    pub fn set_spectrum(&mut self, magnitudes: Vec<u32>)
        ensures
            final(self).spec_frequencies() == magnitudes@,
            final(self).spec_samples() == old(self).spec_samples(),
            final(self).spec_rms() == old(self).spec_rms(),
            final(self).wf() == old(self).wf(),
    {
        self.frequencies = magnitudes;
    }

    /// Fold this frame's instantaneous loudness into the running estimate
    /// with smoothing coefficient `alpha`, which weights the blend
    /// `alpha * instantaneous + (1 - alpha) * previous`. At the endpoints the
    /// blend is exact: the maximum coefficient adopts the instantaneous
    /// value, the minimum keeps the previous one. A degenerate value is reset
    /// to zero.
    pub fn smooth_loudness(&mut self, alpha: Parameter, instantaneous: u32, blended: u32)
        requires
            alpha.wf(),
            old(self).wf(),
        ensures
            final(self).wf(),
            final(self).spec_samples() == old(self).spec_samples(),
            final(self).spec_frequencies() == old(self).spec_frequencies(),
            alpha.spec_value() == PARAMETER_MAX ==> final(self).spec_rms()
                == spec_normalize_loudness(instantaneous),
            alpha.spec_value() == PARAMETER_MIN ==> final(self).spec_rms() == old(self).spec_rms(),
            PARAMETER_MIN < alpha.spec_value() < PARAMETER_MAX ==> final(self).spec_rms()
                == spec_normalize_loudness(blended),
    {
        let a = alpha.value();
        if a == PARAMETER_MAX {
            self.rms = normalize_loudness(instantaneous);
        } else if a == PARAMETER_MIN {
            // Nothing to fold in: the previous estimate stands.
        } else {
            self.rms = normalize_loudness(blended);
        }
    }
}

} // verus!
