//! The two state transitions of the model: applying one review event and
//! recalibrating the adjusting factor.

use vstd::prelude::*;

use rand::Rng;

use crate::data::SchedulingData;
use crate::data::UserReview;
use crate::data::is_positive_finite;

verus! {

/// Carrier declaration for the thread-local generator of the `rand` crate,
/// so that a handle to it can be passed between the wrappers below.
#[verifier::external_type_specification]
#[verifier::external_body]
pub struct ExThreadRng(rand::rngs::ThreadRng);

/// Relies on `rand::thread_rng`: hands out the thread-local random number
/// generator. Nothing is assumed of the handle itself.
#[verifier::external_body]
fn fresh_thread_rng() -> rand::rngs::ThreadRng {
    rand::thread_rng()
}

/// Relies on `rand::Rng::gen_range` over `low..high`: the draw is uniform
/// over the half-open range, so every outcome lies in it. The call panics on
/// an empty range, which the precondition rules out. Nothing relates one
/// draw to another.
#[verifier::external_body]
fn draw_in_range(rng: &mut rand::rngs::ThreadRng, low: i32, high: i32) -> (r: i32)
    requires
        low < high,
    ensures
        low <= r < high,
{
    rng.gen_range(low..high)
}

/// A tenth of the base interval, rounded towards zero: the half-width of the
/// window from which the jittered interval is drawn.
pub open spec fn jitter_range(base_interval: int) -> int
    recommends
        0 <= base_interval,
{
    base_interval / 10
}

/// The random jitter step: perturb a computed review interval by a value
/// drawn uniformly from `[-range, range - 1]`, where `range` is a tenth of
/// the interval. Items created in the same session would otherwise all land
/// on exactly the same future day; the jitter spreads their review dates
/// out.
///
/// The window must not be empty, so the base interval must be at least ten
/// days, and the top of the window must still fit in the interval type.
pub fn jittered_interval(base_interval: i32) -> (r: i32)
    requires
        10 <= base_interval,
        base_interval + jitter_range(base_interval as int) - 1 <= i32::MAX,
    ensures
        base_interval - jitter_range(base_interval as int) <= r,
        r <= base_interval + jitter_range(base_interval as int) - 1,
{
    let random_range: i32 = base_interval / 10;
    let mut rng = fresh_thread_rng();
    let draw: i32 = draw_in_range(&mut rng, 0, random_range * 2);
    let random_change: i32 = draw - random_range;
    base_interval + random_change
}

/// The numeric half of one review event, evaluated by the caller on the
/// single-precision values that the state's bit patterns denote:
///
/// - `raised_difficulty`: the difficulty multiplied by the difficulty change
///   factor;
/// - `lowered_difficulty`: the difficulty multiplied by the complement to
///   two of the difficulty change factor;
/// - `reinforced_strength`: the memory strength multiplied by the memory
///   strength change factor;
/// - `base_interval`: the un-jittered number of days until the next review,
///   `ln(probability) / (-forgetting_rate)` truncated towards zero, where
///   the forgetting rate is the quotient of the difficulty before the review
///   over the memory strength before the review, divided by the adjusting
///   factor.
///
/// [`schedule`] decides which of the candidate difficulties the new state
/// keeps and jitters the base interval; it never inspects the bit patterns.
#[derive(Clone, Copy, Debug)]
pub struct ReviewUpdate {
    /// The difficulty for the case that the review felt too hard.
    pub raised_difficulty: u32,
    /// The difficulty for the case that the review felt too easy.
    pub lowered_difficulty: u32,
    /// The reinforced memory strength, kept whatever the review felt like.
    pub reinforced_strength: u32,
    /// The un-jittered number of days until the next review.
    pub base_interval: i32,
}

/// The difficulty that one review event leaves behind: the raised candidate
/// when the review felt too hard, the unchanged current difficulty when it
/// felt just difficult enough, the lowered candidate when it felt too easy.
pub open spec fn chosen_difficulty(
    current: u32,
    review: UserReview,
    raised: u32,
    lowered: u32,
) -> u32 {
    match review {
        UserReview::TooHard => raised,
        UserReview::JustEnough => current,
        UserReview::TooEasy => lowered,
    }
}

/// Apply one review event: keep the difficulty candidate that matches the
/// user's judgement, take over the reinforced memory strength, jitter the
/// base interval, count the review, and carry the adjusting factor over
/// untouched — it is moved only by [`update_adjusting_factor`].
///
/// Both counters go up by one whatever the judgement was: counting every
/// review as a successful recall is a deliberate simplification of the
/// model, kept as it is.
///
/// The jitter window over the base interval must be non-empty and fit in
/// the interval type, and the counters must not be saturated, since this
/// function does not wrap them around.
pub fn schedule(
    item_data: SchedulingData,
    user_review: UserReview,
    update: ReviewUpdate,
) -> (r: SchedulingData)
    requires
        10 <= update.base_interval,
        update.base_interval + jitter_range(update.base_interval as int) - 1 <= i32::MAX,
        item_data.times_reviewed < i32::MAX,
        item_data.times_recalled < i32::MAX,
    ensures
        update.base_interval - jitter_range(update.base_interval as int) <= r.interval,
        r.interval <= update.base_interval + jitter_range(update.base_interval as int) - 1,
        r.difficulty == chosen_difficulty(
            item_data.difficulty,
            user_review,
            update.raised_difficulty,
            update.lowered_difficulty,
        ),
        r.memory_strength == update.reinforced_strength,
        r.adjusting_factor == item_data.adjusting_factor,
        r.times_reviewed == item_data.times_reviewed + 1,
        r.times_recalled == item_data.times_recalled + 1,
        item_data.wf() && is_positive_finite(update.raised_difficulty)
            && is_positive_finite(update.lowered_difficulty)
            && is_positive_finite(update.reinforced_strength) ==> r.wf(),
{
    let new_difficulty: u32 = match user_review {
        UserReview::TooHard => update.raised_difficulty,
        UserReview::JustEnough => item_data.difficulty,
        UserReview::TooEasy => update.lowered_difficulty,
    };
    let next_interval: i32 = jittered_interval(update.base_interval);
    SchedulingData {
        interval: next_interval,
        difficulty: new_difficulty,
        memory_strength: update.reinforced_strength,
        adjusting_factor: item_data.adjusting_factor,
        times_reviewed: item_data.times_reviewed + 1,
        times_recalled: item_data.times_recalled + 1,
    }
}

/// The state that recalibration leaves behind: the same state with only the
/// adjusting factor replaced.
pub open spec fn with_adjusting_factor(d: SchedulingData, factor: u32) -> SchedulingData {
    SchedulingData {
        interval: d.interval,
        difficulty: d.difficulty,
        memory_strength: d.memory_strength,
        adjusting_factor: factor,
        times_reviewed: d.times_reviewed,
        times_recalled: d.times_recalled,
    }
}

/// Install a recalibrated adjusting factor and touch nothing else.
///
/// The caller derives the factor from the item's accumulated history: it is
/// `ln(target_probability) / ln(actual_probability)`, where the actual
/// probability is the quotient of the times the item was recalled over the
/// times it was reviewed. Scaling the forgetting rate by this log ratio
/// makes the next computed interval converge towards one that would have
/// produced the target probability. The quotient, the logarithms and their
/// domain are the caller's affair; whatever bit pattern comes in, this
/// function only replaces the factor field with it.
pub fn update_adjusting_factor(
    item_data: SchedulingData,
    new_adjusting_factor: u32,
) -> (r: SchedulingData)
    ensures
        r == with_adjusting_factor(item_data, new_adjusting_factor),
        r.interval == item_data.interval,
        r.difficulty == item_data.difficulty,
        r.memory_strength == item_data.memory_strength,
        r.adjusting_factor == new_adjusting_factor,
        r.times_reviewed == item_data.times_reviewed,
        r.times_recalled == item_data.times_recalled,
{
    SchedulingData {
        interval: item_data.interval,
        difficulty: item_data.difficulty,
        memory_strength: item_data.memory_strength,
        adjusting_factor: new_adjusting_factor,
        times_reviewed: item_data.times_reviewed,
        times_recalled: item_data.times_recalled,
    }
}

/// Recalibration is idempotent: installing the same adjusting factor twice
/// leaves exactly the state that installing it once leaves, so repeating a
/// recalibration with unchanged history changes nothing.
pub proof fn lemma_recalibration_idempotent(d: SchedulingData, factor: u32)
    ensures
        with_adjusting_factor(with_adjusting_factor(d, factor), factor)
            == with_adjusting_factor(d, factor),
{
}

} // verus!
