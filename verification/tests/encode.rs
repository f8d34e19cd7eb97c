use lisp_time::decode::lisp_time_struct;
use lisp_time::encode::{current_time, encode_lisp_time, make_lisp_time};
use lisp_time::lisp::{LispObject, MOST_NEGATIVE_FIXNUM, MOST_POSITIVE_FIXNUM};
use lisp_time::time::{
    check_time_validity, hi_time, invalid_time, lisp_to_timespec, lo_time, time_overflow, LispTime,
    TimeError, Timespec,
};

fn fixnum(n: i64) -> LispObject {
    LispObject::from_fixnum(n)
}

fn fixnums(items: Vec<i64>) -> LispObject {
    let mut val = LispObject::Nil;
    for item in items.into_iter().rev() {
        val = LispObject::cons(fixnum(item), val);
    }
    val
}

fn digits(hi: i64, lo: i32, us: i32, ps: i32) -> LispTime {
    LispTime { hi, lo, us, ps }
}

fn samples() -> Vec<LispTime> {
    vec![
        digits(0, 0, 0, 0),
        digits(1, 2, 3, 4),
        digits(22888, 12032, 123_456, 789_000),
        digits(-1, 65535, 999_999, 999_999),
        digits(MOST_POSITIVE_FIXNUM, 65535, 999_999, 999_999),
        digits(MOST_NEGATIVE_FIXNUM, 0, 0, 0),
    ]
}

#[test]
fn encoding_keeps_the_first_digits() {
    let t = digits(1, 2, 3, 4);
    assert_eq!(encode_lisp_time(t, 2), fixnums(vec![1, 2]));
    assert_eq!(encode_lisp_time(t, 3), fixnums(vec![1, 2, 3]));
    assert_eq!(encode_lisp_time(t, 4), fixnums(vec![1, 2, 3, 4]));
}

#[test]
fn encoding_with_another_length_keeps_all_digits() {
    let t = digits(1, 2, 3, 4);
    assert_eq!(encode_lisp_time(t, 0), fixnums(vec![1, 2, 3, 4]));
    assert_eq!(encode_lisp_time(t, 5), fixnums(vec![1, 2, 3, 4]));
    assert_eq!(encode_lisp_time(t, -1), fixnums(vec![1, 2, 3, 4]));
}

#[test]
fn encoding_does_not_round() {
    let t = digits(0, 7, 999_999, 999_999);
    assert_eq!(encode_lisp_time(t, 2), fixnums(vec![0, 7]));
    assert_eq!(encode_lisp_time(t, 3), fixnums(vec![0, 7, 999_999]));
}

#[test]
fn decoding_an_encoded_value_with_all_digits() {
    let now = Timespec { tv_sec: 7, tv_nsec: 7 };
    for t in samples() {
        assert_eq!(lisp_time_struct(&encode_lisp_time(t, 4), now), Ok((t, 4)));
    }
}

#[test]
fn decoding_an_encoded_value_with_three_digits() {
    let now = Timespec { tv_sec: 7, tv_nsec: 7 };
    for t in samples() {
        let kept = digits(t.hi, t.lo, t.us, 0);
        assert_eq!(lisp_time_struct(&encode_lisp_time(t, 3), now), Ok((kept, 3)));
    }
}

#[test]
fn decoding_an_encoded_value_with_two_digits() {
    let now = Timespec { tv_sec: 7, tv_nsec: 7 };
    for t in samples() {
        let kept = digits(t.hi, t.lo, 0, 0);
        assert_eq!(lisp_time_struct(&encode_lisp_time(t, 2), now), Ok((kept, 2)));
    }
}

#[test]
fn halves_of_the_seconds() {
    assert_eq!(hi_time(0), 0);
    assert_eq!(lo_time(0), 0);
    assert_eq!(hi_time(65535), 0);
    assert_eq!(lo_time(65535), 65535);
    assert_eq!(hi_time(65536), 1);
    assert_eq!(lo_time(65536), 0);
    assert_eq!(hi_time(1_500_000_000), 22888);
    assert_eq!(lo_time(1_500_000_000), 12032);
    assert_eq!(hi_time(-1), -1);
    assert_eq!(lo_time(-1), 65535);
    assert_eq!(hi_time(-65537), -2);
    assert_eq!(lo_time(-65537), 65535);
    assert_eq!(hi_time(i64::MAX), 140_737_488_355_327);
    assert_eq!(lo_time(i64::MAX), 65535);
    assert_eq!(hi_time(i64::MIN), -140_737_488_355_328);
    assert_eq!(lo_time(i64::MIN), 0);
}

#[test]
fn list_of_a_clock_reading() {
    let ts = Timespec { tv_sec: 1_500_000_000, tv_nsec: 123_456_789 };
    assert_eq!(make_lisp_time(ts), fixnums(vec![22888, 12032, 123_456, 789_000]));
    assert_eq!(current_time(ts), fixnums(vec![22888, 12032, 123_456, 789_000]));
}

#[test]
fn list_of_a_reading_before_the_epoch() {
    let ts = Timespec { tv_sec: -1, tv_nsec: 0 };
    assert_eq!(make_lisp_time(ts), fixnums(vec![-1, 65535, 0, 0]));
}

#[test]
fn list_of_an_invalid_reading_holds_negative_picoseconds() {
    let ts = Timespec { tv_sec: 0, tv_nsec: -1 };
    assert_eq!(make_lisp_time(ts), fixnums(vec![0, 0, 0, -1000]));
    let ts = Timespec { tv_sec: 0, tv_nsec: -2001 };
    assert_eq!(make_lisp_time(ts), fixnums(vec![0, 0, -2, -1000]));
}

#[test]
fn list_of_a_reading_decodes_to_its_time_value() {
    let now = Timespec { tv_sec: 7, tv_nsec: 7 };
    let ts = Timespec { tv_sec: 1_500_000_000, tv_nsec: 123_456_789 };
    assert_eq!(lisp_time_struct(&make_lisp_time(ts), now), Ok((LispTime::from_timespec(ts), 4)));
    let ts = Timespec { tv_sec: -5, tv_nsec: 999_999_999 };
    assert_eq!(lisp_time_struct(&make_lisp_time(ts), now), Ok((LispTime::from_timespec(ts), 4)));
}

#[test]
fn time_value_of_a_reading() {
    let ts = Timespec { tv_sec: 65536 + 5, tv_nsec: 1_001 };
    assert_eq!(LispTime::from_timespec(ts), digits(1, 5, 1, 1000));
    let ts = Timespec { tv_sec: 0, tv_nsec: -1 };
    assert_eq!(LispTime::from_timespec(ts), digits(-1, 65535, 999_999, 999_000));
    let ts = Timespec { tv_sec: 0, tv_nsec: 2_000_000_000 };
    assert_eq!(LispTime::from_timespec(ts), digits(0, 2, 0, 0));
    let ts = Timespec { tv_sec: i64::MAX, tv_nsec: i64::MAX };
    assert_eq!(LispTime::from_timespec(ts), digits(140_737_488_496_065, 32003, 854_775, 807_000));
}

#[test]
fn reading_of_a_time_value() {
    assert_eq!(
        lisp_to_timespec(digits(22888, 12032, 123_456, 789_000)),
        Timespec { tv_sec: 1_500_000_000, tv_nsec: 123_456_789 }
    );
    assert_eq!(lisp_to_timespec(digits(0, 0, 0, 0)), Timespec { tv_sec: 0, tv_nsec: 0 });
}

#[test]
fn reading_drops_what_is_below_a_nanosecond() {
    assert_eq!(
        lisp_to_timespec(digits(0, 1, 2, 3_999)),
        Timespec { tv_sec: 1, tv_nsec: 2_003 }
    );
    assert_eq!(
        lisp_to_timespec(digits(0, 1, 999_999, 999_999)),
        Timespec { tv_sec: 1, tv_nsec: 999_999_999 }
    );
}

#[test]
fn reading_of_a_value_before_the_epoch_is_invalid() {
    assert_eq!(
        lisp_to_timespec(digits(-1, 65535, 0, 0)),
        Timespec { tv_sec: 0, tv_nsec: -1 }
    );
}

#[test]
fn reading_of_a_value_whose_seconds_are_too_wide_is_invalid() {
    assert_eq!(
        lisp_to_timespec(digits(0x7fff_ffff_ffff, 65535, 0, 0)),
        Timespec { tv_sec: i64::MAX, tv_nsec: 0 }
    );
    assert_eq!(
        lisp_to_timespec(digits(0x8000_0000_0000, 0, 0, 0)),
        Timespec { tv_sec: 0, tv_nsec: -1 }
    );
    assert_eq!(
        lisp_to_timespec(digits(MOST_POSITIVE_FIXNUM, 0, 0, 0)),
        Timespec { tv_sec: 0, tv_nsec: -1 }
    );
}

#[test]
fn reading_survives_the_way_through_a_time_value() {
    let ts = Timespec { tv_sec: 1_500_000_000, tv_nsec: 123_456_789 };
    assert_eq!(lisp_to_timespec(LispTime::from_timespec(ts)), ts);
    let ts = Timespec { tv_sec: 0, tv_nsec: 999_999_999 };
    assert_eq!(lisp_to_timespec(LispTime::from_timespec(ts)), ts);
    let ts = Timespec { tv_sec: i64::MAX, tv_nsec: 0 };
    assert_eq!(lisp_to_timespec(LispTime::from_timespec(ts)), ts);
}

#[test]
fn status_codes() {
    assert_eq!(check_time_validity(1), Ok(()));
    assert_eq!(check_time_validity(4), Ok(()));
    assert_eq!(check_time_validity(0), Err(TimeError::TypeMismatch));
    assert_eq!(check_time_validity(-1), Err(TimeError::OutOfRange));
    assert_eq!(check_time_validity(i32::MIN), Err(TimeError::OutOfRange));
    assert_eq!(TimeError::TypeMismatch.validity(), 0);
    assert_eq!(TimeError::OutOfRange.validity(), -1);
    assert_eq!(TimeError::Overflow.validity(), -1);
    assert_eq!(check_time_validity(TimeError::TypeMismatch.validity()), Err(TimeError::TypeMismatch));
}

#[test]
fn errors_and_their_messages() {
    assert_eq!(time_overflow(), TimeError::Overflow);
    assert_eq!(invalid_time(), TimeError::TypeMismatch);
    assert_eq!(time_overflow().message(), "Specified time is not representable");
    assert_eq!(TimeError::OutOfRange.message(), "Specified time is not representable");
    assert_eq!(invalid_time().message(), "Invalid time specification");
}

#[test]
fn fixnum_bounds() {
    assert_eq!(MOST_POSITIVE_FIXNUM, 2_305_843_009_213_693_951);
    assert_eq!(MOST_NEGATIVE_FIXNUM, -2_305_843_009_213_693_952);
    assert!(!LispObject::fixnum_overflow(MOST_POSITIVE_FIXNUM));
    assert!(!LispObject::fixnum_overflow(MOST_NEGATIVE_FIXNUM));
    assert!(LispObject::fixnum_overflow(MOST_POSITIVE_FIXNUM + 1));
    assert!(LispObject::fixnum_overflow(MOST_NEGATIVE_FIXNUM - 1));
    assert!(!LispObject::fixnum_overflow(0));
}
