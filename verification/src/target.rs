//! Drawing the note that the player has to find.
//!
//! A sample of 32 random bits is read as the fraction `sample / 2^32` of the
//! unit interval. The fraction is scaled to the width of the range and cut
//! down to a whole number of semitones above the lowest note. Cutting down
//! means that the upper bound of the range is never reached.

use vstd::prelude::*;
use crate::config::NoteRange;

verus! {

/// The number of distinct samples: a sample is a fraction with this denominator.
pub const SAMPLE_SPAN: u64 = 0x1_0000_0000;

/// The target that a sample selects from a range.
pub open spec fn target_of(range: NoteRange, sample: u32) -> int {
    range.min() + (sample * (range.max() - range.min())) / (SAMPLE_SPAN as int)
}

/// Every sample selects a note of the range, and never its upper bound unless
/// the range holds nothing else.
pub proof fn lemma_target_in_range(range: NoteRange, sample: u32)
    requires
        range.wf(),
    ensures
        range.holds(target_of(range, sample)),
        range.min() <= target_of(range, sample) <= range.max(),
{
    let width: int = range.max() - range.min();
    let scaled: int = sample * width;
    assert(0 <= scaled) by (nonlinear_arith)
        requires
            scaled == sample * width,
            0 <= sample,
            0 <= width,
    ;
    if width > 0 {
        assert(scaled < 0x1_0000_0000 * width) by (nonlinear_arith)
            requires
                scaled == sample * width,
                0 <= sample < 0x1_0000_0000,
                0 < width,
        ;
        assert(scaled / 0x1_0000_0000 < width) by (nonlinear_arith)
            requires
                scaled < 0x1_0000_0000 * width,
        ;
    } else {
        assert(scaled == 0) by (nonlinear_arith)
            requires
                scaled == sample * width,
                width == 0,
        ;
    }
}

/// Selects the target for a given sample.
pub fn target_for_sample(range: &NoteRange, sample: u32) -> (target: u8)
    ensures
        target == target_of(*range, sample),
        range.holds(target as int),
{
    proof {
        use_type_invariant(range);
        lemma_target_in_range(*range, sample);
    }
    let floor: u8 = range.min_note();
    let width: u8 = range.max_note() - floor;
    assert(sample * width <= 0xFFFF_FFFF * 0xFF) by (nonlinear_arith)
        requires
            0 <= sample <= 0xFFFF_FFFF,
            0 <= width <= 0xFF,
    ;
    let above: u64 = (sample as u64 * width as u64) / SAMPLE_SPAN;
    floor + above as u8
}

/// Draws 32 random bits by `rand::random`, from the thread-local generator of
/// the `rand` crate. Nothing is claimed of the bits: any value may come back,
/// and two draws need not agree. The generator seeds itself from the operating
/// system when a thread first uses it, and `rand` panics if that fails.
#[verifier::external_body]
pub(crate) fn random_sample() -> (sample: u32) {
    rand::random::<u32>()
}

/// Draws a target at random. Whatever is drawn, the target lies in the range
/// and below its upper bound; where the bounds coincide it is that one note.
pub fn generate_target(range: &NoteRange) -> (target: u8)
    ensures
        range.holds(target as int),
        exists|sample: u32| target == target_of(*range, sample),
{
    let sample = random_sample();
    target_for_sample(range, sample)
}

} // verus!
