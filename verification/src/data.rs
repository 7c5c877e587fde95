//! The data carried between review events: the per-item scheduling state,
//! the tunable update parameters, and the user's judgement of one review.

use vstd::prelude::*;

verus! {

/// User evaluation of a review event. Did it feel too hard, just difficult
/// enough or too easy?
#[derive(Clone, Debug)]
pub enum UserReview {
    /// The forgetting curve decreases faster than expected; the difficulty of
    /// the item should be raised.
    TooHard,
    /// The forgetting curve decreases just enough; the difficulty keeps its
    /// value.
    JustEnough,
    /// The forgetting curve decreases slower than expected; the difficulty of
    /// the item should be lowered.
    TooEasy,
}

/// The default number of days until the first review.
pub const DEFAULT_INTERVAL: i32 = 1;

/// Bit pattern of the single-precision value `10.0`, the default difficulty.
pub const DEFAULT_DIFFICULTY_BITS: u32 = 0x4120_0000;

/// Bit pattern of the single-precision value `100.0`, the default memory
/// strength. The default quotient of difficulty over memory strength is thus
/// `0.1`, close to `-ln(0.9)`, so that the first computed interval lands near
/// one day for typical target probabilities.
pub const DEFAULT_MEMORY_STRENGTH_BITS: u32 = 0x42c8_0000;

/// Bit pattern of the single-precision value `1.0`: an adjusting factor that
/// applies no correction at all.
pub const UNIT_ADJUSTING_FACTOR_BITS: u32 = 0x3f80_0000;

/// Bit pattern of the single-precision value `1.1`, the default factor by
/// which a review that felt too hard raises the difficulty.
pub const DEFAULT_DIFFICULTY_CHANGE_BITS: u32 = 0x3f8c_cccd;

/// Bit pattern of the single-precision value `1.6`, the default factor by
/// which every review reinforces the memory strength.
pub const DEFAULT_MEMORY_STRENGTH_CHANGE_BITS: u32 = 0x3fcc_cccd;

/// Whether a bit pattern denotes a positive finite single-precision value:
/// the sign bit is clear, the exponent field is not all ones (which would
/// denote an infinity or a not-a-number payload), and the value is not zero.
pub open spec fn is_positive_finite(bits: u32) -> bool {
    0 < bits < 0x7f80_0000
}

/// Per-item state that drives the item's review schedule.
///
/// The three real-valued fields are IEEE 754 single-precision bit patterns.
/// The scheduling functions move them around but never interpret them; the
/// caller evaluates the forgetting-curve formulas on the values they denote.
#[derive(Clone, Debug)]
pub struct SchedulingData {
    /// The number of days between the last review event and the next one.
    pub interval: i32,
    /// How difficult the item is: a larger value makes the forgetting curve
    /// decay faster per unit of memory strength.
    pub difficulty: u32,
    /// How well the memory of this item has established itself: a larger
    /// value makes the forgetting curve decay slower.
    pub memory_strength: u32,
    /// How the quotient of difficulty over memory strength is rescaled when
    /// the observed recall rate is not the targeted one.
    pub adjusting_factor: u32,
    /// How many times this item has been reviewed.
    pub times_reviewed: i32,
    /// How many times this item has been reviewed successfully.
    pub times_recalled: i32,
}

impl SchedulingData {
    /// The validity domain of the model: the difficulty, the memory strength
    /// and the adjusting factor denote positive finite values, and the
    /// counters are non-negative. Outside this domain the forgetting-curve
    /// formulas divide by zero or take undefined logarithms; the scheduling
    /// functions do not police the domain, they only preserve it.
    pub open spec fn wf(self) -> bool {
        &&& is_positive_finite(self.difficulty)
        &&& is_positive_finite(self.memory_strength)
        &&& is_positive_finite(self.adjusting_factor)
        &&& 0 <= self.times_reviewed
        &&& 0 <= self.times_recalled
    }
}

impl Default for SchedulingData {
    /// A fresh, never reviewed item: one day until the first review, the
    /// default difficulty and memory strength, no calibration, no history.
    fn default() -> (d: Self)
        ensures
            d.interval == DEFAULT_INTERVAL,
            d.difficulty == DEFAULT_DIFFICULTY_BITS,
            d.memory_strength == DEFAULT_MEMORY_STRENGTH_BITS,
            d.adjusting_factor == UNIT_ADJUSTING_FACTOR_BITS,
            d.times_reviewed == 0,
            d.times_recalled == 0,
            d.wf(),
    {
        SchedulingData {
            interval: DEFAULT_INTERVAL,
            difficulty: DEFAULT_DIFFICULTY_BITS,
            memory_strength: DEFAULT_MEMORY_STRENGTH_BITS,
            adjusting_factor: UNIT_ADJUSTING_FACTOR_BITS,
            times_reviewed: 0,
            times_recalled: 0,
        }
    }
}

/// Tunable parameters that shape how one review event updates the state.
///
/// Both fields are IEEE 754 single-precision bit patterns.
#[derive(Clone, Debug)]
pub struct UpdateParameters {
    /// The factor by which the difficulty is multiplied when the user finds
    /// the item too hard; when the item is too easy the difficulty is instead
    /// multiplied by the complement to two of this factor, so one value
    /// drives the increase and the decrease symmetrically around one.
    pub difficulty_change_factor: u32,
    /// The factor by which the memory strength is multiplied on every
    /// review.
    pub memory_strength_change_factor: u32,
}

impl Default for UpdateParameters {
    /// Raise or lower the difficulty by ten percent, reinforce the memory
    /// strength by sixty percent.
    fn default() -> (p: Self)
        ensures
            p.difficulty_change_factor == DEFAULT_DIFFICULTY_CHANGE_BITS,
            p.memory_strength_change_factor == DEFAULT_MEMORY_STRENGTH_CHANGE_BITS,
    {
        UpdateParameters {
            difficulty_change_factor: DEFAULT_DIFFICULTY_CHANGE_BITS,
            memory_strength_change_factor: DEFAULT_MEMORY_STRENGTH_CHANGE_BITS,
        }
    }
}

} // verus!
