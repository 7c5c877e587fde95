//! A spaced-repetition scheduling core built around an exponential
//! forgetting-curve model.
//!
//! The crate tracks, for one learnable item, the state that drives its review
//! schedule: the current review interval in days, a difficulty and a memory
//! strength whose quotient is the decay constant of the item's forgetting
//! curve, a calibration factor that rescales that quotient when the observed
//! recall rate drifts from the target, and two review counters.
//!
//! The real-valued model parameters are carried as IEEE 754 single-precision
//! bit patterns (`u32`). The scheduling logic never interprets those bits
//! arithmetically: it selects, threads through and replaces them, and every
//! such step is verified. The transcendental arithmetic of the curve itself
//! (logarithms and quotients) is left to the caller, which evaluates the
//! formulas on its own floating-point values and hands the resulting bit
//! patterns in; the [`schedule`] and [`update_adjusting_factor`] contracts
//! then pin down exactly where each value ends up, and [`schedule`] adds the
//! bounded random jitter that spreads out review dates of items created
//! together.

mod data;
mod sched;

pub use data::SchedulingData;
pub use data::UpdateParameters;
pub use data::UserReview;
pub use data::is_positive_finite;
pub use data::DEFAULT_INTERVAL;
pub use data::DEFAULT_DIFFICULTY_BITS;
pub use data::DEFAULT_MEMORY_STRENGTH_BITS;
pub use data::UNIT_ADJUSTING_FACTOR_BITS;
pub use data::DEFAULT_DIFFICULTY_CHANGE_BITS;
pub use data::DEFAULT_MEMORY_STRENGTH_CHANGE_BITS;
pub use sched::schedule;
pub use sched::update_adjusting_factor;
pub use sched::jittered_interval;
pub use sched::jitter_range;
pub use sched::ReviewUpdate;
pub use sched::chosen_difficulty;
pub use sched::with_adjusting_factor;
pub use sched::lemma_recalibration_idempotent;
