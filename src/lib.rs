//! Current wall-clock time since the Unix epoch, in whole seconds,
//! milliseconds, microseconds or nanoseconds.
//!
//! Every reading of the clock becomes an [`EpochDuration`]; the unit
//! conversions are exact truncating divisions of its nanosecond count.

mod clock;
mod duration;
mod laws;

pub use clock::{
    duration_since_epoch, now_as_micros, now_as_millis, now_as_nanos, now_as_secs, ClockError,
};
pub use duration::{whole_micros, whole_millis, whole_secs, EpochDuration};
pub use laws::{
    lemma_conversions_monotonic, lemma_millis_within_second, lemma_nanos_within_later_millis,
    lemma_secs_within_later_millis,
};
