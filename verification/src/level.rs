//! The peak detector: the level of a buffer is its largest sample magnitude.

use vstd::prelude::*;
use crate::binary32::{abs, exceeds, greater_than, is_nan, is_negative, magnitude, scaled_magnitude, ZERO};
use crate::binary32::{lemma_magnitude_order_iff};

verus! {

/// The pattern of 1.0, the top of the range of well-formed samples.
pub const FULL_SCALE: u32 = 0x3f80_0000;

/// The peak after one more sample: the sample's magnitude where that is the
/// greater number, else the peak as it was. A NaN sample changes nothing.
pub open spec fn raised(peak: u32, sample: u32) -> u32 {
    if exceeds(magnitude(sample), peak) {
        magnitude(sample)
    } else {
        peak
    }
}

/// The peak level of a buffer: zero raised by each sample in turn.
pub open spec fn peak_of(samples: Seq<u32>) -> u32
    decreases samples.len(),
{
    if samples.len() == 0 {
        ZERO
    } else {
        raised(peak_of(samples.drop_last()), samples.last())
    }
}

/// The peak level is the greatest magnitude in the buffer.
///
/// It is a number and not negative; no sample that is a number has a greater
/// magnitude; and unless it is zero, it is the magnitude of one of them.
pub proof fn lemma_peak_is_greatest(samples: Seq<u32>)
    ensures
        !is_nan(peak_of(samples)),
        !is_negative(peak_of(samples)),
        forall|i: int|
            0 <= i < samples.len() && !is_nan(samples[i]) ==> scaled_magnitude(#[trigger] samples[i])
                <= scaled_magnitude(peak_of(samples)),
        peak_of(samples) == ZERO || exists|i: int|
            0 <= i < samples.len() && !is_nan(#[trigger] samples[i]) && peak_of(samples)
                == magnitude(samples[i]),
    decreases samples.len(),
{
    if samples.len() > 0 {
        let front: Seq<u32> = samples.drop_last();
        let last: u32 = samples.last();
        lemma_peak_is_greatest(front);
        lemma_magnitude_order_iff(last, peak_of(front));
        assert(magnitude(magnitude(last)) == magnitude(last));
        assert(magnitude(peak_of(front)) == peak_of(front));
        assert forall|i: int| 0 <= i < samples.len() && !is_nan(samples[i]) implies scaled_magnitude(
            #[trigger] samples[i],
        ) <= scaled_magnitude(peak_of(samples)) by {
            if i < front.len() {
                assert(front[i] == samples[i]);
            }
        }
        if peak_of(samples) != ZERO {
            if exceeds(magnitude(last), peak_of(front)) {
                let k: int = samples.len() - 1;
                assert(!is_nan(samples[k]) && peak_of(samples) == magnitude(samples[k]));
            } else {
                let k: int = choose|k: int|
                    0 <= k < front.len() && !is_nan(#[trigger] front[k]) && peak_of(front)
                        == magnitude(front[k]);
                assert(front[k] == samples[k]);
                assert(!is_nan(samples[k]) && peak_of(samples) == magnitude(samples[k]));
            }
        }
    }
}

/// Only one pattern is the greatest magnitude of a buffer: any pattern with
/// the three properties that `lemma_peak_is_greatest` states is the peak level.
pub proof fn lemma_peak_is_unique(samples: Seq<u32>, level: u32)
    requires
        !is_nan(level),
        !is_negative(level),
        forall|i: int|
            0 <= i < samples.len() && !is_nan(samples[i]) ==> scaled_magnitude(#[trigger] samples[i])
                <= scaled_magnitude(level),
        level == ZERO || exists|i: int|
            0 <= i < samples.len() && !is_nan(#[trigger] samples[i]) && level == magnitude(
                samples[i],
            ),
    ensures
        level == peak_of(samples),
{
    let peak: u32 = peak_of(samples);
    lemma_peak_is_greatest(samples);
    lemma_magnitude_order_iff(level, peak);
    lemma_magnitude_order_iff(peak, level);
    assert(magnitude(level) == level);
    assert(magnitude(peak) == peak);
    if level != ZERO {
        let i: int = choose|i: int|
            0 <= i < samples.len() && !is_nan(#[trigger] samples[i]) && level == magnitude(
                samples[i],
            );
        assert(scaled_magnitude(samples[i]) <= scaled_magnitude(peak));
        lemma_magnitude_order_iff(samples[i], peak);
    }
    if peak != ZERO {
        let j: int = choose|j: int|
            0 <= j < samples.len() && !is_nan(#[trigger] samples[j]) && peak == magnitude(
                samples[j],
            );
        assert(scaled_magnitude(samples[j]) <= scaled_magnitude(level));
        lemma_magnitude_order_iff(samples[j], level);
    }
}

/// Samples within full scale give a level within full scale.
pub proof fn lemma_peak_within_full_scale(samples: Seq<u32>)
    requires
        forall|i: int| 0 <= i < samples.len() ==> magnitude(#[trigger] samples[i]) <= FULL_SCALE,
    ensures
        peak_of(samples) <= FULL_SCALE,
{
    lemma_peak_is_greatest(samples);
}

/// Computes the peak level of a buffer.
pub fn peak_level(samples: &[u32]) -> (level: u32)
    ensures
        level == peak_of(samples@),
{
    let mut level: u32 = ZERO;
    let mut i: usize = 0;
    while i < samples.len()
        invariant
            i <= samples.len(),
            level == peak_of(samples@.take(i as int)),
        decreases samples.len() - i,
    {
        let m: u32 = abs(samples[i]);
        if greater_than(m, level) {
            level = m;
        }
        proof {
            assert(samples@.take(i + 1).drop_last() == samples@.take(i as int));
        }
        i += 1;
    }
    proof {
        assert(samples@.take(i as int) == samples@);
    }
    level
}

} // verus!
