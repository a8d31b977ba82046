use std::time::{Duration, SystemTime, UNIX_EPOCH};

use time_now::{
    duration_since_epoch, now_as_micros, now_as_millis, now_as_nanos, now_as_secs, EpochDuration,
};

#[test]
fn duration_since_epoch_works() {
    let _result = duration_since_epoch();
}

#[test]
fn now_as_micros_works() {
    let _result = now_as_micros();
}

#[test]
fn now_as_millis_works() {
    let _result = now_as_millis();
}

#[test]
fn now_as_nanos_works() {
    let _result = now_as_nanos();
}

#[test]
fn now_as_secs_works() {
    let _result = now_as_secs();
}

#[test]
fn reading_is_ok_on_a_sane_clock() {
    let d = duration_since_epoch().unwrap();
    assert!(d.subsec_nanos() < 1_000_000_000);
    assert!(d.as_secs() >= 1_704_067_200);
}

#[test]
fn reading_lies_between_two_std_readings() {
    let before = SystemTime::now().duration_since(UNIX_EPOCH).unwrap();
    let d = duration_since_epoch().unwrap();
    let after = SystemTime::now().duration_since(UNIX_EPOCH).unwrap();
    let mine = Duration::new(d.as_secs(), d.subsec_nanos());
    assert!(before <= mine);
    assert!(mine <= after);
    assert!(d.as_nanos() >= before.as_nanos());
    assert!(d.as_nanos() <= after.as_nanos());
}

#[test]
fn secs_scaled_do_not_exceed_later_millis() {
    let s = now_as_secs().unwrap();
    let m = now_as_millis().unwrap();
    assert!((s as u128) * 1_000 <= m);
}

#[test]
fn nanos_cut_to_millis_do_not_exceed_later_millis() {
    let n = now_as_nanos().unwrap();
    let m = now_as_millis().unwrap();
    assert!(n / 1_000_000 <= m);
}

#[test]
fn repeated_readings_do_not_decrease() {
    let s1 = now_as_secs().unwrap();
    let s2 = now_as_secs().unwrap();
    assert!(s1 <= s2);
    let m1 = now_as_millis().unwrap();
    let m2 = now_as_millis().unwrap();
    assert!(m1 <= m2);
    let u1 = now_as_micros().unwrap();
    let u2 = now_as_micros().unwrap();
    assert!(u1 <= u2);
    let n1 = now_as_nanos().unwrap();
    let n2 = now_as_nanos().unwrap();
    assert!(n1 <= n2);
    let d1 = duration_since_epoch().unwrap();
    let d2 = duration_since_epoch().unwrap();
    assert!(d1.as_nanos() <= d2.as_nanos());
}

#[test]
fn start_of_2024_in_each_unit() {
    let d = EpochDuration::new(1_704_067_200, 0).unwrap();
    assert_eq!(d.as_secs(), 1_704_067_200);
    assert_eq!(d.subsec_nanos(), 0);
    assert_eq!(d.as_millis(), 1_704_067_200_000);
    assert_eq!(d.as_micros(), 1_704_067_200_000_000);
    assert_eq!(d.as_nanos(), 1_704_067_200_000_000_000);
    assert!(d.as_millis() >= 1_704_067_200_000 && d.as_millis() < 1_704_067_201_000);
}

#[test]
fn last_nanosecond_of_a_second_truncates() {
    let d = EpochDuration::new(1_704_067_200, 999_999_999).unwrap();
    assert_eq!(d.as_secs(), 1_704_067_200);
    assert_eq!(d.as_millis(), 1_704_067_200_999);
    assert_eq!(d.as_micros(), 1_704_067_200_999_999);
    assert_eq!(d.as_nanos(), 1_704_067_200_999_999_999);
    assert!(d.as_millis() < 1_704_067_201_000);
}

#[test]
fn units_of_a_mixed_span() {
    let d = EpochDuration::new(1, 1_999).unwrap();
    assert_eq!(d.as_secs(), 1);
    assert_eq!(d.as_millis(), 1_000);
    assert_eq!(d.as_micros(), 1_000_001);
    assert_eq!(d.as_nanos(), 1_000_001_999);
}

#[test]
fn zero_span() {
    let d = EpochDuration::new(0, 0).unwrap();
    assert_eq!(d.as_secs(), 0);
    assert_eq!(d.subsec_nanos(), 0);
    assert_eq!(d.as_millis(), 0);
    assert_eq!(d.as_micros(), 0);
    assert_eq!(d.as_nanos(), 0);
}

#[test]
fn nanoseconds_carry_into_seconds() {
    let d = EpochDuration::new(5, 2_500_000_000).unwrap();
    assert_eq!(d.as_secs(), 7);
    assert_eq!(d.subsec_nanos(), 500_000_000);
    assert_eq!(d.as_millis(), 7_500);
    assert_eq!(d.as_nanos(), 7_500_000_000);
}

#[test]
fn largest_span() {
    let d = EpochDuration::new(u64::MAX, 999_999_999).unwrap();
    assert_eq!(d.as_secs(), u64::MAX);
    assert_eq!(d.as_millis(), (u64::MAX as u128) * 1_000 + 999);
    assert_eq!(d.as_micros(), (u64::MAX as u128) * 1_000_000 + 999_999);
    assert_eq!(d.as_nanos(), (u64::MAX as u128) * 1_000_000_000 + 999_999_999);
}

#[test]
fn carry_past_the_largest_span_is_refused() {
    assert_eq!(EpochDuration::new(u64::MAX, 1_000_000_000), None);
    assert_eq!(EpochDuration::new(u64::MAX - 1, 1_000_000_000).map(|d| d.as_secs()), Some(u64::MAX));
}

#[test]
fn fractional_seconds_lie_within_one_second() {
    let d = duration_since_epoch().unwrap();
    let whole = d.as_secs();
    let exact = Duration::new(whole, d.subsec_nanos()).as_secs_f64();
    let diff = exact - whole as f64;
    assert!(diff >= 0.0 && diff < 1.0);
}
