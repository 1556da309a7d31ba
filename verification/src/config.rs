//! The range of notes from which targets are drawn.

use vstd::prelude::*;
use crate::error::GameError;

verus! {

/// Lowest target note unless configured otherwise.
pub const DEFAULT_MIN_NOTE: u8 = 36;

/// Upper bound of the target notes unless configured otherwise.
pub const DEFAULT_MAX_NOTE: u8 = 96;

/// How long a target note sounds, in milliseconds, unless configured otherwise.
pub const DEFAULT_PLAY_DURATION_MS: u64 = 150;

/// A validated pair of bounds, lowest note first. It is checked once, when it
/// is made, and cannot change afterwards.
#[derive(Clone, Copy, Debug)]
pub struct NoteRange {
    min_note: u8,
    max_note: u8,
}

impl NoteRange {
    /// The lowest note of the range.
    pub closed spec fn min(self) -> u8 {
        self.min_note
    }

    /// The upper bound of the range.
    pub closed spec fn max(self) -> u8 {
        self.max_note
    }

    /// The bounds are in order. Holds of every range that `new` hands out.
    #[verifier::type_invariant]
    pub open spec fn wf(self) -> bool {
        self.min() <= self.max()
    }

    /// Whether `note` can come up as a target. The upper bound itself never
    /// does, except where the two bounds coincide and leave no other note.
    pub open spec fn holds(self, note: int) -> bool {
        if self.min() == self.max() {
            note == self.min()
        } else {
            self.min() <= note < self.max()
        }
    }

    /// Validates a pair of bounds. An empty range, with the lowest note above
    /// the highest, is refused.
    pub fn new(min_note: u8, max_note: u8) -> (made: Result<NoteRange, GameError>)
        ensures
            min_note <= max_note ==> made is Ok && made->Ok_0.min() == min_note
                && made->Ok_0.max() == max_note,
            min_note > max_note ==> made == Err::<NoteRange, GameError>(
                GameError::ConfigurationError,
            ),
    {
        if min_note > max_note {
            Err(GameError::ConfigurationError)
        } else {
            Ok(NoteRange { min_note, max_note })
        }
    }

    /// The lowest note of the range.
    pub fn min_note(&self) -> (note: u8)
        ensures
            note == self.min(),
    {
        self.min_note
    }

    /// The upper bound of the range.
    pub fn max_note(&self) -> (note: u8)
        ensures
            note == self.max(),
    {
        self.max_note
    }
}

} // verus!
