use keyed_lock::clock::{
    TimeOfDay, MAX_SPAN_MILLIS, MILLIS_PER_DAY, MILLIS_PER_SEC, NANOS_PER_MILLI, NANOS_PER_SEC,
    SECS_PER_DAY,
};

fn at(secs: u32, frac: u32) -> TimeOfDay {
    TimeOfDay::new(secs, frac).unwrap()
}

fn expected_millis(from: (u32, u32), to: (u32, u32)) -> i64 {
    let leap: i64 = if to.0 > from.0 && from.1 >= 1_000_000_000 {
        1
    } else if to.0 < from.0 && to.1 >= 1_000_000_000 {
        -1
    } else {
        0
    };
    let nanos = (to.0 as i64 - from.0 as i64 + leap) * 1_000_000_000 + (to.1 as i64 - from.1 as i64);
    if nanos >= 0 {
        nanos / 1_000_000
    } else {
        -((-nanos) / 1_000_000)
    }
}

#[test]
fn constants_have_their_values() {
    assert_eq!(SECS_PER_DAY, 86_400);
    assert_eq!(NANOS_PER_SEC, 1_000_000_000);
    assert_eq!(NANOS_PER_MILLI, 1_000_000);
    assert_eq!(MAX_SPAN_MILLIS, 86_401_000);
    assert_eq!(MILLIS_PER_DAY, 86_400_000);
    assert_eq!(MILLIS_PER_SEC, 1_000);
}

fn expected_elapsed(from: (u32, u32), to: (u32, u32)) -> i64 {
    let span = expected_millis(from, to);
    if span >= 0 {
        span
    } else if from.0 == 86_399 && from.1 >= 1_000_000_000 {
        span + 86_401_000
    } else {
        span + 86_400_000
    }
}

#[test]
fn elapsed_time_within_a_day_is_the_span() {
    assert_eq!(at(10, 0).elapsed_until(&at(10, 500_000_000)), 500);
    assert_eq!(at(0, 0).elapsed_until(&at(86_399, 999_999_999)), 86_399_999);
    assert_eq!(at(10, 0).elapsed_until(&at(10, 0)), 0);
    assert_eq!(at(10, 0).elapsed_until(&at(10, 999_999)), 0);
}

#[test]
fn elapsed_time_over_midnight_counts_into_the_next_day() {
    assert_eq!(at(86_399, 0).elapsed_until(&at(0, 0)), 1_000);
    assert_eq!(at(86_399, 900_000_000).elapsed_until(&at(0, 400_000_000)), 500);
    assert_eq!(at(86_399, 999_999_999).elapsed_until(&at(0, 0)), 1);
    assert_eq!(at(0, 1_000_000).elapsed_until(&at(0, 0)), 86_399_999);
    assert_eq!(at(43_200, 0).elapsed_until(&at(43_199, 0)), 86_399_000);
    assert_eq!(at(10, 500_000_000).elapsed_until(&at(10, 0)), 86_399_500);
}

#[test]
fn elapsed_time_from_the_leap_second_that_ends_the_day() {
    assert_eq!(at(86_399, 1_500_000_000).elapsed_until(&at(0, 0)), 500);
    assert_eq!(at(86_399, 1_500_000_000).elapsed_until(&at(0, 600_000_000)), 1_100);
    assert_eq!(at(86_399, 1_000_000_000).elapsed_until(&at(0, 0)), 1_000);
    assert_eq!(at(86_399, 1_999_999_999).elapsed_until(&at(0, 0)), 1);
    assert_eq!(at(86_399, 1_200_000_000).elapsed_until(&at(86_399, 1_700_000_000)), 500);
    assert_eq!(at(86_399, 1_700_000_000).elapsed_until(&at(86_399, 1_200_000_000)), 86_400_500);
}

#[test]
fn elapsed_time_is_never_negative() {
    let secs = [0u32, 1, 59, 60, 119, 3_599, 43_200, 86_339, 86_398, 86_399];
    let fracs = [0u32, 1, 999_999, 1_000_000, 999_999_999, 1_000_000_000, 1_500_000_000, 1_999_999_999];
    let mut times = Vec::new();
    for s in secs {
        for f in fracs {
            if let Some(t) = TimeOfDay::new(s, f) {
                times.push(((s, f), t));
            }
        }
    }
    for (a, from) in &times {
        for (b, to) in &times {
            let passed = from.elapsed_until(to);
            assert_eq!(passed, expected_elapsed(*a, *b), "{:?} {:?}", a, b);
            assert!((0..MAX_SPAN_MILLIS).contains(&passed), "{:?} {:?}", a, b);
        }
    }
}

#[test]
fn midnight_is_a_time_of_day() {
    let t = at(0, 0);
    assert_eq!(t.secs(), 0);
    assert_eq!(t.frac(), 0);
}

#[test]
fn last_nanosecond_of_the_day_is_a_time_of_day() {
    let t = at(86_399, 999_999_999);
    assert_eq!(t.secs(), 86_399);
    assert_eq!(t.frac(), 999_999_999);
}

#[test]
fn a_full_day_of_seconds_is_no_time_of_day() {
    assert!(TimeOfDay::new(86_400, 0).is_none());
    assert!(TimeOfDay::new(u32::MAX, 0).is_none());
}

#[test]
fn two_seconds_of_nanoseconds_are_no_time_of_day() {
    assert!(TimeOfDay::new(59, 2_000_000_000).is_none());
    assert!(TimeOfDay::new(59, u32::MAX).is_none());
}

#[test]
fn leap_second_only_after_the_last_second_of_a_minute() {
    assert!(TimeOfDay::new(59, 1_000_000_000).is_some());
    assert!(TimeOfDay::new(59, 1_999_999_999).is_some());
    assert!(TimeOfDay::new(86_399, 1_999_999_999).is_some());
    assert!(TimeOfDay::new(119, 1_000_000_000).is_some());
    assert!(TimeOfDay::new(58, 1_000_000_000).is_none());
    assert!(TimeOfDay::new(60, 1_000_000_000).is_none());
    assert!(TimeOfDay::new(0, 1_000_000_000).is_none());
    assert!(TimeOfDay::new(0, 999_999_999).is_some());
}

#[test]
fn time_of_day_is_what_chrono_takes() {
    let secs = [0u32, 1, 58, 59, 60, 119, 3_599, 86_398, 86_399, 86_400, 86_459, u32::MAX];
    let fracs = [0u32, 1, 999_999_999, 1_000_000_000, 1_999_999_999, 2_000_000_000, u32::MAX];
    for s in secs {
        for f in fracs {
            let ours = TimeOfDay::new(s, f).is_some();
            let theirs = chrono::NaiveTime::from_num_seconds_from_midnight_opt(s, f).is_some();
            assert_eq!(ours, theirs, "{} {}", s, f);
        }
    }
}

#[test]
fn half_a_second_is_five_hundred_milliseconds() {
    assert_eq!(at(10, 0).millis_until(&at(10, 500_000_000)), 500);
    assert_eq!(at(10, 750_000_000).millis_until(&at(11, 250_000_000)), 500);
}

#[test]
fn a_time_is_no_time_from_itself() {
    assert_eq!(at(0, 0).millis_until(&at(0, 0)), 0);
    assert_eq!(at(86_399, 999_999_999).millis_until(&at(86_399, 999_999_999)), 0);
    assert_eq!(at(59, 1_500_000_000).millis_until(&at(59, 1_500_000_000)), 0);
}

#[test]
fn an_earlier_time_is_a_negative_span() {
    assert_eq!(at(10, 500_000_000).millis_until(&at(10, 0)), -500);
    assert_eq!(at(3_600, 0).millis_until(&at(0, 0)), -3_600_000);
}

#[test]
fn spans_are_cut_towards_zero() {
    assert_eq!(at(10, 0).millis_until(&at(10, 999_999)), 0);
    assert_eq!(at(10, 0).millis_until(&at(10, 1_000_000)), 1);
    assert_eq!(at(10, 0).millis_until(&at(10, 1_999_999)), 1);
    assert_eq!(at(10, 999_999).millis_until(&at(10, 0)), 0);
    assert_eq!(at(10, 1_000_000).millis_until(&at(10, 0)), -1);
    assert_eq!(at(10, 1_999_999).millis_until(&at(10, 0)), -1);
    assert_eq!(at(11, 0).millis_until(&at(10, 999_500_000)), 0);
    assert_eq!(at(11, 500_000).millis_until(&at(10, 0)), -1_000);
}

#[test]
fn whole_day_span() {
    assert_eq!(at(0, 0).millis_until(&at(86_399, 999_999_999)), 86_399_999);
    assert_eq!(at(86_399, 999_999_999).millis_until(&at(0, 0)), -86_399_999);
}

#[test]
fn leap_second_counts_in_the_span() {
    assert_eq!(at(3 * 3_600 + 59, 0).millis_until(&at(3 * 3_600 + 59, 1_000_000_000)), 1_000);
    assert_eq!(at(3 * 3_600 + 59, 0).millis_until(&at(3 * 3_600 + 59, 1_500_000_000)), 1_500);
    assert_eq!(at(3 * 3_600, 0).millis_until(&at(3 * 3_600 + 59, 1_000_000_000)), 60_000);
    assert_eq!(at(2 * 3_600 + 3_599, 1_000_000_000).millis_until(&at(3 * 3_600, 0)), 1_000);
    assert_eq!(
        at(2 * 3_600 + 3_599, 1_000_000_000).millis_until(&at(3 * 3_600 + 59, 1_000_000_000)),
        61_000
    );
    assert_eq!(at(3 * 3_600, 0).millis_until(&at(2 * 3_600 + 3_599, 1_000_000_000)), -1_000);
}

#[test]
fn longest_spans_stay_under_the_bound() {
    let longest = at(0, 0).millis_until(&at(86_399, 1_999_999_999));
    assert_eq!(longest, 86_400_999);
    assert!(longest < MAX_SPAN_MILLIS);
    let shortest = at(86_399, 1_999_999_999).millis_until(&at(0, 0));
    assert_eq!(shortest, -86_400_999);
    assert!(shortest > -MAX_SPAN_MILLIS);
}

#[test]
fn spans_follow_the_formula() {
    let secs = [0u32, 1, 58, 59, 60, 61, 119, 120, 3_599, 3_600, 43_200, 86_339, 86_398, 86_399];
    let fracs = [
        0u32,
        1,
        499_999,
        500_000,
        999_999,
        1_000_000,
        1_000_001,
        500_000_000,
        999_000_000,
        999_999_999,
        1_000_000_000,
        1_000_000_001,
        1_000_999_999,
        1_001_000_000,
        1_500_000_000,
        1_999_999_999,
    ];
    let mut times = Vec::new();
    for s in secs {
        for f in fracs {
            if let Some(t) = TimeOfDay::new(s, f) {
                times.push(((s, f), t));
            }
        }
    }
    assert!(times.len() > 150);
    for (a, from) in &times {
        for (b, to) in &times {
            let span = from.millis_until(to);
            assert_eq!(span, expected_millis(*a, *b), "{:?} {:?}", a, b);
            assert_eq!(to.millis_until(from), -span, "{:?} {:?}", a, b);
            assert!(-MAX_SPAN_MILLIS < span && span < MAX_SPAN_MILLIS);
        }
    }
}

#[test]
fn spans_of_scattered_times_follow_the_formula() {
    let mut state: u64 = 0x9e37_79b9_7f4a_7c15;
    let mut next = move || {
        state = state.wrapping_mul(6_364_136_223_846_793_005).wrapping_add(1_442_695_040_888_963_407);
        (state >> 33) as u32
    };
    let mut checked = 0;
    while checked < 20_000 {
        let a = (next() % 86_400, next() % 2_000_000_000);
        let b = (next() % 86_400, next() % 2_000_000_000);
        if let (Some(from), Some(to)) = (TimeOfDay::new(a.0, a.1), TimeOfDay::new(b.0, b.1)) {
            assert_eq!(from.millis_until(&to), expected_millis(a, b), "{:?} {:?}", a, b);
            checked += 1;
        }
    }
}

#[test]
fn copies_of_a_time_are_equal() {
    let t = at(12, 34);
    let copy = t;
    assert_eq!(t, copy);
    assert_ne!(t, at(12, 35));
    assert_ne!(t, at(13, 34));
}
