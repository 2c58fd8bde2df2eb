//! Numbers, instants and texts.
use chrono::{DateTime, TimeDelta};
use energy_price::binary64::{
    Binary64, HUNDRED, INFINITE, MINUS_ONE_TWENTIETH, ONE, ONE_TWENTIETH, SIGN_BIT, THOUSAND,
    TWENTY_SIX_POINT_ELEVEN, ZERO,
};
use energy_price::text::{blank, decimal_text, ends_with, same, starts_with, trim_end};
use energy_price::utc::{UtcTime, MAX_SECS, MIN_SECS};

fn b(value: f64) -> Binary64 {
    Binary64 {
        bits: value.to_bits(),
    }
}

#[test]
fn constants_are_the_bits_of_their_numbers() {
    for (bits, value) in [
        (ZERO, 0.0),
        (ONE_TWENTIETH, 0.05),
        (MINUS_ONE_TWENTIETH, -0.05),
        (ONE, 1.0),
        (TWENTY_SIX_POINT_ELEVEN, 26.11),
        (HUNDRED, 100.0),
        (THOUSAND, 1000.0),
        (INFINITE, f64::INFINITY),
        (SIGN_BIT, -0.0),
    ] {
        assert_eq!(bits, f64::to_bits(value));
    }
}

#[test]
fn numbers_compare_as_the_machine_compares_them() {
    let samples = [
        0.0,
        -0.0,
        1.0,
        -1.0,
        0.05,
        -0.05,
        1000.0,
        -1000.0,
        1000.1,
        -1000.1,
        f64::MIN_POSITIVE,
        -f64::MIN_POSITIVE,
        f64::from_bits(1),
        f64::MAX,
        f64::MIN,
        f64::INFINITY,
        f64::NEG_INFINITY,
        f64::NAN,
        -f64::NAN,
    ];
    for x in samples {
        assert_eq!(b(x).is_nan(), x.is_nan());
        assert_eq!(b(x).is_finite(), x.is_finite());
        assert_eq!(b(x).negated().bits, (-x).to_bits());
        assert_eq!(
            b(x).is_plausible_power(),
            x.is_finite() && x.abs() <= 1000.0,
            "{x}"
        );
        for y in samples {
            assert_eq!(b(x).less_than(b(y)), x < y, "{x} {y}");
            assert_eq!(b(x).at_most(b(y)), x <= y, "{x} {y}");
            assert_eq!(b(x) == b(y), x == y, "{x} {y}");
            let least = f64::from_bits(b(x).min(b(y)).bits);
            if x.is_nan() && y.is_nan() {
                assert!(least.is_nan());
            } else {
                assert_eq!(least, x.min(y), "{x} {y}");
            }
        }
        let floored = f64::from_bits(b(x).floored_at_zero().bits);
        assert_eq!(floored, x.max(0.0), "{x}");
    }
}

#[test]
fn the_calendar_is_the_one_of_the_clock() {
    let first = DateTime::<chrono::Utc>::MIN_UTC;
    let last = DateTime::<chrono::Utc>::MAX_UTC;
    assert_eq!(first.timestamp(), MIN_SECS);
    assert_eq!(last.timestamp(), MAX_SECS);
    for secs in [MIN_SECS - 1, MIN_SECS, -61, -60, -1, 0, 59, 60, MAX_SECS, MAX_SECS + 1] {
        for nanos in [0, 999_999_999, 1_000_000_000, 1_999_999_999, 2_000_000_000] {
            let theirs = DateTime::from_timestamp(secs, nanos);
            let ours = UtcTime::from_timestamp(secs, nanos);
            assert_eq!(ours.is_some(), theirs.is_some(), "{secs} {nanos}");
            if let (Some(ours), Some(theirs)) = (ours, theirs) {
                assert_eq!(ours.timestamp(), theirs.timestamp());
                assert_eq!(ours.subsec_nanos(), theirs.timestamp_subsec_nanos());
            }
        }
    }
}

#[test]
fn delays_and_spans_are_those_of_the_clock() {
    let samples: Vec<(i64, u32)> = vec![
        (MIN_SECS, 0),
        (-1, 999_999_999),
        (-1, 1_500_000_000),
        (0, 0),
        (0, 200_000_000),
        (59, 1_999_999_999),
        (60, 0),
        (86_399, 1_500_000_000),
        (86_400, 200_000_000),
        (1_788_220_800, 250_900_000),
        (MAX_SECS - 60, 5),
        (MAX_SECS, 999_999_999),
    ];
    let theirs = |(secs, nanos): (i64, u32)| DateTime::from_timestamp(secs, nanos).unwrap();
    let ours = |(secs, nanos): (i64, u32)| UtcTime::from_timestamp(secs, nanos).unwrap();
    for &x in &samples {
        for seconds in [1u32, 30, 60, 1800, 21_600, u32::MAX] {
            let expected = theirs(x).checked_add_signed(TimeDelta::seconds(seconds.into()));
            let found = ours(x).delayed(seconds);
            assert_eq!(
                found.map(|at| (at.timestamp(), at.subsec_nanos())),
                expected.map(|at| (at.timestamp(), at.timestamp_subsec_nanos())),
                "{x:?} {seconds}"
            );
        }
        for &y in &samples {
            let expected = theirs(y) - theirs(x);
            assert_eq!(ours(y).millis_since(ours(x)), expected.num_milliseconds());
            let nanos = i128::from(expected.num_seconds()) * 1_000_000_000
                + i128::from(expected.subsec_nanos());
            assert_eq!(ours(y).nanos_since(ours(x)), nanos, "{x:?} {y:?}");
            assert_eq!(ours(x).before(ours(y)), theirs(x) < theirs(y));
            assert_eq!(ours(x).same_as(ours(y)), theirs(x) == theirs(y));
        }
    }
}

#[test]
fn instants_are_read_with_their_offset() {
    let at = UtcTime::parse("2026-09-01T01:30:00.25+01:00").unwrap();
    assert_eq!(at.timestamp(), 1_788_222_600);
    assert_eq!(at.subsec_nanos(), 250_000_000);
    assert_eq!(UtcTime::parse("2026-09-01T00:30:00.25Z"), Some(at));
    for bad in ["", "2026-09-01", "2026-09-01T00:30:00", "2026-13-01T00:00:00Z"] {
        assert!(UtcTime::parse(bad).is_none(), "{bad}");
    }
}

#[test]
fn boundaries_are_found_on_both_sides_of_the_epoch() {
    let at = |secs| UtcTime::from_timestamp(secs, 7).unwrap();
    assert_eq!(at(1801).floor_half_hour().timestamp(), 1800);
    assert_eq!(at(-1).floor_half_hour().timestamp(), -1800);
    assert_eq!(at(-1).next_half_hour().timestamp(), 0);
    assert_eq!(at(61).minute_after(2).timestamp(), 180);
    assert_eq!(at(-61).minute_after(1).timestamp(), -60);
    assert_eq!(at(5).predecessor().subsec_nanos(), 6);
    let whole = UtcTime::from_timestamp(5, 0).unwrap();
    assert_eq!(whole.predecessor().timestamp(), 4);
    assert_eq!(whole.predecessor().subsec_nanos(), 999_999_999);
    assert_eq!(at(1).earlier(at(2)), at(1));
    assert_eq!(at(1).later(at(2)), at(2));
}

#[test]
fn texts_are_compared_character_by_character() {
    assert!(same("caf\u{e9}", "caf\u{e9}"));
    assert!(!same("cafe", "caf\u{e9}"));
    assert!(starts_with("https://x", "https://") && !starts_with("http://x", "https://"));
    assert!(ends_with("E-1R-VAR-C", "-C") && !ends_with("C", "-C"));
    assert!(blank("") && blank(" \n\u{a0}\u{2003}") && !blank(" x "));
    assert_eq!(trim_end("a//b//", '/'), "a//b");
    assert_eq!(trim_end("//", '/'), "");
    for n in [0, 7, -7, 10, 1_788_220_800, i64::MAX, i64::MIN] {
        assert_eq!(decimal_text(n), n.to_string());
    }
    for code in 0..=0x3100u32 {
        if let Some(c) = char::from_u32(code) {
            assert_eq!(blank(&c.to_string()), c.is_whitespace(), "{code:x}");
        }
    }
}
