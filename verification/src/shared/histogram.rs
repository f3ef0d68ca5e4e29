//! Latency and jitter histograms, kept by the `hdrhistogram` crate.
//!
//! A histogram is a collection of samples that answers with levels: numbers that stand for
//! every sample of about the same size. What it holds is named by [`recorded`], how finely it
//! tells samples apart by [`digits_of`]; the levels it answers with are functions of these two.

use hdrhistogram::Histogram;
use vstd::multiset::Multiset;
use vstd::prelude::*;

verus! {

/// A histogram of `hdrhistogram` that grows with its samples and tells apart values from 1
/// upwards. The histogram inside is reached by the functions below alone.
#[verifier::external_body]
pub struct SampleHistogram {
    inner: Histogram<u64>,
}

/// The samples that a histogram was given.
pub uninterp spec fn recorded(h: SampleHistogram) -> Multiset<u64>;

/// The number of significant decimal digits that a histogram was made with.
pub uninterp spec fn digits_of(h: SampleHistogram) -> u8;

/// What `Histogram::value_at_percentile` answers for these samples at this resolution.
pub uninterp spec fn percentile_level(samples: Multiset<u64>, digits: u8, percentile: u8) -> u64;

/// What `Histogram::max` answers for these samples at this resolution.
pub uninterp spec fn max_level(samples: Multiset<u64>, digits: u8) -> u64;

/// What `Histogram::mean` answers for these samples at this resolution, without its fraction.
pub uninterp spec fn mean_level(samples: Multiset<u64>, digits: u8) -> u64;

/// The samples after one more, as long as their number can be counted.
pub open spec fn noted(samples: Multiset<u64>, value: u64) -> Multiset<u64> {
    if samples.len() < u64::MAX {
        samples.insert(value)
    } else {
        samples
    }
}

/// No sample is above the level.
pub open spec fn covers(level: u64, samples: Multiset<u64>) -> bool {
    forall|v: u64| #[trigger] samples.count(v) > 0 ==> v <= level
}

/// The level is above some sample by at most a thousandth of that sample.
pub open spec fn near_some(level: u64, samples: Multiset<u64>) -> bool {
    exists|v: u64| #[trigger] samples.count(v) > 0 && v <= level && (level - v) * 1000 <= v
}

/// At least `percentile` of a hundred samples are not above the level.
pub open spec fn reaches(level: u64, samples: Multiset<u64>, percentile: u8) -> bool {
    samples.filter(|v: u64| v <= level).len() * 100 >= percentile * samples.len()
}

/// The most samples up to which the rounding inside a percentile cannot lose one.
pub const EXACT_COUNT: u64 = 0x100_0000_0000;

/// So few samples that rounding does not matter, and none at the end of the range, whose level
/// is one below it.
pub open spec fn exact(samples: Multiset<u64>) -> bool {
    samples.len() <= EXACT_COUNT && samples.count(u64::MAX) == 0
}

/// `Histogram::new`: an empty histogram that grows with its samples and keeps `digits`
/// significant digits. It fails only for more than five digits.
#[verifier::external_body]
fn histogram_new(digits: u8) -> (h: SampleHistogram)
    requires
        digits <= 5,
    ensures
        recorded(h) == Multiset::<u64>::empty(),
        digits_of(h) == digits,
{
    SampleHistogram { inner: Histogram::new(digits).unwrap() }
}

/// `Histogram::record`: adds one sample. A histogram that grows takes every value, so the
/// result of the call is dropped; the count of samples must not reach the end of its range.
#[verifier::external_body]
fn histogram_record(h: &mut SampleHistogram, value: u64)
    requires
        recorded(*old(h)).len() < u64::MAX,
    ensures
        recorded(*final(h)) == recorded(*old(h)).insert(value),
        digits_of(*final(h)) == digits_of(*old(h)),
{
    let _ = h.inner.record(value);
}

/// `Histogram::len`: the number of samples.
#[verifier::external_body]
fn histogram_len(h: &SampleHistogram) -> (r: u64)
    ensures
        r == recorded(*h).len(),
{
    h.inner.len()
}

/// `Histogram::value_at_percentile`: a level that depends on the samples and the resolution
/// alone. It is zero where there are no samples. Above the percentile zero it is the level of
/// one of the samples, and as many samples as the percentile says are not above it; both are
/// claimed up to a count at which the rounding of the percentile does not matter, and without
/// samples at the end of the range.
#[verifier::external_body]
fn histogram_percentile(h: &SampleHistogram, percentile: u8) -> (r: u64)
    requires
        percentile <= 100,
    ensures
        r == percentile_level(recorded(*h), digits_of(*h), percentile),
        recorded(*h).len() == 0 ==> r == 0,
        percentile > 0 && exact(recorded(*h)) ==> reaches(r, recorded(*h), percentile),
        percentile > 0 && digits_of(*h) == 3 && recorded(*h).len() > 0 && exact(recorded(*h))
            ==> near_some(r, recorded(*h)),
{
    h.inner.value_at_percentile(percentile.into())
}

/// `Histogram::max`: a level that no sample exceeds, and that exceeds one of the samples by
/// at most a thousandth of it where three digits are kept. It is zero where there are none.
#[verifier::external_body]
fn histogram_max(h: &SampleHistogram) -> (r: u64)
    ensures
        r == max_level(recorded(*h), digits_of(*h)),
        recorded(*h).len() == 0 ==> r == 0,
        covers(r, recorded(*h)),
        digits_of(*h) == 3 && recorded(*h).len() > 0 ==> near_some(r, recorded(*h)),
{
    h.inner.max()
}

/// `Histogram::mean`: a level that depends on the samples and the resolution alone, here
/// without its fraction. It is zero where there are no samples.
#[verifier::external_body]
fn histogram_mean(h: &SampleHistogram) -> (r: u64)
    ensures
        r == mean_level(recorded(*h), digits_of(*h)),
        recorded(*h).len() == 0 ==> r == 0,
{
    h.inner.mean() as u64
}

impl SampleHistogram {
    /// The samples and the resolution of the histogram.
    pub open spec fn view(&self) -> (Multiset<u64>, u8) {
        (recorded(*self), digits_of(*self))
    }

    /// An empty histogram that keeps three significant digits.
    pub fn new() -> (h: Self)
        ensures
            h@ == (Multiset::<u64>::empty(), 3u8),
    {
        histogram_new(3)
    }

    /// Adds one sample.
    pub fn note(&mut self, value: u64)
        ensures
            final(self)@ == (noted(old(self)@.0, value), old(self)@.1),
    {
        if histogram_len(self) < u64::MAX {
            histogram_record(self, value);
        }
    }

    /// The level that half of the samples do not exceed.
    pub fn median(&self) -> (r: u64)
        ensures
            r == percentile_level(self@.0, self@.1, 50),
            self@.0.len() == 0 ==> r == 0,
            exact(self@.0) ==> reaches(r, self@.0, 50),
            self@.1 == 3 && self@.0.len() > 0 && exact(self@.0) ==> near_some(r, self@.0),
    {
        histogram_percentile(self, 50)
    }

    /// The level that ninety-nine of a hundred samples do not exceed.
    pub fn p99(&self) -> (r: u64)
        ensures
            r == percentile_level(self@.0, self@.1, 99),
            self@.0.len() == 0 ==> r == 0,
            exact(self@.0) ==> reaches(r, self@.0, 99),
            self@.1 == 3 && self@.0.len() > 0 && exact(self@.0) ==> near_some(r, self@.0),
    {
        histogram_percentile(self, 99)
    }

    /// The level of the largest sample.
    pub fn max(&self) -> (r: u64)
        ensures
            r == max_level(self@.0, self@.1),
            self@.0.len() == 0 ==> r == 0,
            covers(r, self@.0),
            self@.1 == 3 && self@.0.len() > 0 ==> near_some(r, self@.0),
    {
        histogram_max(self)
    }

    /// The mean of the samples, or zero where there are none.
    pub fn mean(&self) -> (r: u64)
        ensures
            r == if self@.0.len() > 0 {
                mean_level(self@.0, self@.1)
            } else {
                0
            },
    {
        if histogram_len(self) > 0 {
            histogram_mean(self)
        } else {
            0
        }
    }
}

} // verus!
