use std::time::{Duration, SystemTime, SystemTimeError};
use vstd::prelude::*;

use crate::duration::{whole_micros, whole_millis, whole_secs, EpochDuration};

verus! {

#[verifier::external_type_specification]
#[verifier::external_body]
pub struct ExSystemTime(std::time::SystemTime);

#[verifier::external_type_specification]
#[verifier::external_body]
pub struct ExSystemTimeError(std::time::SystemTimeError);

/// Relies on `SystemTime::now`: a reading of the host's wall clock. Nothing is
/// known of its value.
pub assume_specification[ std::time::SystemTime::now ]() -> std::time::SystemTime;

/// Relies on `Duration::as_secs`: the whole seconds of a duration, any `u64`.
pub assume_specification[ core::time::Duration::as_secs ](d: &core::time::Duration) -> u64;

/// Relies on `Duration::subsec_nanos`: the fractional part of a duration in
/// nanoseconds, always less than one billion.
pub assume_specification[ core::time::Duration::subsec_nanos ](d: &core::time::Duration) -> (r:
    u32)
    ensures
        r < 1_000_000_000,
;

/// Relies on `SystemTime::duration_since` with `UNIX_EPOCH` as the earlier
/// time: the span from the epoch to `t`, or an error when `t` lies before it.
#[verifier::external_body]
fn elapsed_since_unix_epoch(t: &SystemTime) -> Result<Duration, SystemTimeError> {
    t.duration_since(std::time::UNIX_EPOCH)
}

/// Why the clock could not be read as a span since the epoch.
#[derive(Clone, Copy, Debug, PartialEq, Eq, Structural)]
pub enum ClockError {
    /// The host clock reports a time earlier than the Unix epoch.
    BeforeEpoch,
}

/// Reads the host's wall clock as the span elapsed since the Unix epoch.
///
/// A clock set before the epoch is reported as `ClockError::BeforeEpoch`
/// for the caller to handle, rather than ending the process.
pub fn duration_since_epoch() -> (r: Result<EpochDuration, ClockError>)
    ensures
        r matches Ok(d) ==> d.wf() && d@ >= 0,
{
    let now = SystemTime::now();
    match elapsed_since_unix_epoch(&now) {
        Ok(span) => {
            let secs = span.as_secs();
            let nanos = span.subsec_nanos();
            Ok(EpochDuration::new(secs, nanos).unwrap())
        },
        Err(_) => Err(ClockError::BeforeEpoch),
    }
}

/// Whole seconds since the Unix epoch; the fraction is dropped.
pub fn now_as_secs() -> (r: Result<u64, ClockError>)
    ensures
        r matches Ok(s) ==> exists|d: EpochDuration| d.wf() && s == #[trigger] whole_secs(d@),
{
    match duration_since_epoch() {
        Ok(d) => {
            let s = d.as_secs();
            assert(d.wf() && s == whole_secs(d@));
            Ok(s)
        },
        Err(e) => Err(e),
    }
}

/// Whole milliseconds since the Unix epoch; the sub-millisecond part is
/// dropped.
pub fn now_as_millis() -> (r: Result<u128, ClockError>)
    ensures
        r matches Ok(m) ==> exists|d: EpochDuration| d.wf() && m == #[trigger] whole_millis(d@),
{
    match duration_since_epoch() {
        Ok(d) => {
            let m = d.as_millis();
            assert(d.wf() && m == whole_millis(d@));
            Ok(m)
        },
        Err(e) => Err(e),
    }
}

/// Whole microseconds since the Unix epoch; the sub-microsecond part is
/// dropped.
pub fn now_as_micros() -> (r: Result<u128, ClockError>)
    ensures
        r matches Ok(m) ==> exists|d: EpochDuration| d.wf() && m == #[trigger] whole_micros(d@),
{
    match duration_since_epoch() {
        Ok(d) => {
            let m = d.as_micros();
            assert(d.wf() && m == whole_micros(d@));
            Ok(m)
        },
        Err(e) => Err(e),
    }
}

/// Nanoseconds since the Unix epoch.
pub fn now_as_nanos() -> (r: Result<u128, ClockError>)
    ensures
        r matches Ok(n) ==> exists|d: EpochDuration| d.wf() && n == #[trigger] d@,
{
    match duration_since_epoch() {
        Ok(d) => {
            let n = d.as_nanos();
            assert(d.wf() && n == d@);
            Ok(n)
        },
        Err(e) => Err(e),
    }
}

} // verus!
