use shame_bot::util::pgint_dur::PgInterval;
use shame_bot::util::pgint_dur::PgIntervalToDuration;
use shame_bot::util::pgint_dur::Span;

#[test]
fn an_interval_comes_to_a_span() {
    let interval = PgInterval { months: 0, days: 0, microseconds: 1_500_000 };
    assert_eq!(interval.as_duration(), Some(Span { secs: 1, nanos: 500_000_000 }));
    let zero = PgInterval { months: 0, days: 0, microseconds: 0 };
    assert_eq!(zero.as_duration(), Some(Span { secs: 0, nanos: 0 }));
}

#[test]
fn a_month_counts_thirty_days() {
    let month = PgInterval { months: 1, days: 0, microseconds: 0 };
    assert_eq!(month.as_duration(), Some(Span { secs: 2_592_000, nanos: 0 }));
    let day = PgInterval { months: 0, days: 1, microseconds: 0 };
    assert_eq!(day.as_duration(), Some(Span { secs: 86_400, nanos: 0 }));
    let mixed = PgInterval { months: 2, days: 3, microseconds: 4_000_005 };
    assert_eq!(
        mixed.as_duration(),
        Some(Span { secs: 2 * 2_592_000 + 3 * 86_400 + 4, nanos: 5_000 })
    );
}

#[test]
fn the_longest_interval_comes_to_a_span() {
    let longest = PgInterval { months: i32::MAX, days: i32::MAX, microseconds: i64::MAX };
    let secs = 9_223_372_036_854 + (i32::MAX as u64 + i32::MAX as u64 * 30) * 86_400;
    assert_eq!(longest.as_duration(), Some(Span { secs, nanos: 775_807_000 }));
}

#[test]
fn an_interval_with_a_negative_count_comes_to_nothing() {
    assert_eq!(PgInterval { months: -1, days: 0, microseconds: 0 }.as_duration(), None);
    assert_eq!(PgInterval { months: 0, days: -1, microseconds: 0 }.as_duration(), None);
    assert_eq!(PgInterval { months: 0, days: 0, microseconds: -1 }.as_duration(), None);
    assert_eq!(PgInterval { months: 5, days: 5, microseconds: i64::MIN }.as_duration(), None);
}

#[test]
fn a_span_is_kept_in_microseconds() {
    assert_eq!(
        PgInterval::try_from_span(Span { secs: 2, nanos: 5_000 }),
        Some(PgInterval { months: 0, days: 0, microseconds: 2_000_005 })
    );
    assert_eq!(
        PgInterval::try_from_span(Span::from_secs(0)),
        Some(PgInterval { months: 0, days: 0, microseconds: 0 })
    );
    assert_eq!(Span::from_secs(9), Span { secs: 9, nanos: 0 });
}

#[test]
fn a_span_of_odd_nanoseconds_is_not_kept() {
    assert_eq!(PgInterval::try_from_span(Span { secs: 2, nanos: 1 }), None);
    assert_eq!(PgInterval::try_from_span(Span { secs: 0, nanos: 999 }), None);
    assert_eq!(PgInterval::try_from_span(Span { secs: 0, nanos: 999_999_999 }), None);
}

#[test]
fn a_span_too_long_for_the_column_is_not_kept() {
    assert_eq!(
        PgInterval::try_from_span(Span { secs: 9_223_372_036_854, nanos: 775_807_000 }),
        Some(PgInterval { months: 0, days: 0, microseconds: i64::MAX })
    );
    assert_eq!(
        PgInterval::try_from_span(Span { secs: 9_223_372_036_854, nanos: 775_808_000 }),
        None
    );
    assert_eq!(PgInterval::try_from_span(Span { secs: u64::MAX, nanos: 0 }), None);
}

#[test]
fn what_is_kept_comes_back() {
    for span in [
        Span { secs: 0, nanos: 0 },
        Span { secs: 1, nanos: 1_000 },
        Span { secs: 86_399, nanos: 999_999_000 },
        Span { secs: 9_223_372_036_854, nanos: 775_807_000 },
    ] {
        assert_eq!(PgInterval::try_from_span(span).unwrap().as_duration(), Some(span));
    }
}

#[test]
fn spans_are_kept_as_the_database_driver_keeps_them() {
    let spans = [
        Span { secs: 0, nanos: 0 },
        Span { secs: 0, nanos: 1 },
        Span { secs: 0, nanos: 999 },
        Span { secs: 0, nanos: 1_000 },
        Span { secs: 1, nanos: 0 },
        Span { secs: 59, nanos: 999_999_000 },
        Span { secs: 59, nanos: 999_999_999 },
        Span { secs: 9_223_372_036_854, nanos: 775_807_000 },
        Span { secs: 9_223_372_036_854, nanos: 775_808_000 },
        Span { secs: 9_223_372_036_855, nanos: 0 },
        Span { secs: u64::MAX, nanos: 0 },
        Span { secs: u64::MAX, nanos: 999_999_000 },
    ];
    for span in spans {
        let duration = std::time::Duration::new(span.secs, span.nanos);
        let expected = sqlx::postgres::types::PgInterval::try_from(duration)
            .ok()
            .map(|pg| PgInterval { months: pg.months, days: pg.days, microseconds: pg.microseconds });
        assert_eq!(PgInterval::try_from_span(span), expected, "{:?}", span);
    }
}

#[test]
fn an_interval_comes_to_what_its_parts_add_up_to() {
    let intervals = [
        PgInterval { months: 0, days: 0, microseconds: 0 },
        PgInterval { months: 0, days: 0, microseconds: 1 },
        PgInterval { months: 0, days: 1, microseconds: 1_000_001 },
        PgInterval { months: 12, days: 31, microseconds: 86_400_000_000 },
        PgInterval { months: i32::MAX, days: i32::MAX, microseconds: i64::MAX },
    ];
    for interval in intervals {
        let expected = std::time::Duration::from_micros(interval.microseconds as u64)
            + std::time::Duration::from_secs(interval.days as u64 * 24 * 60 * 60)
            + std::time::Duration::from_secs(interval.months as u64 * 30 * 24 * 60 * 60);
        assert_eq!(
            interval.as_duration(),
            Some(Span { secs: expected.as_secs(), nanos: expected.subsec_nanos() }),
            "{:?}",
            interval
        );
    }
}
