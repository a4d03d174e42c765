use fifo_queue::rough_time::{rough_time_to_english, RoughTime, TimeUnit};

#[test]
fn test_timeunit() {
    let plural = TimeUnit::Seconds.plural();
    assert_eq!(plural, "seconds");
    let singular = TimeUnit::Months.singular();
    assert_eq!(singular, "month");
}

#[test]
fn test_rough_time_to_english() {
    let one_day_ago = RoughTime::InThePast(TimeUnit::Days, 1);
    let two_years_ago = RoughTime::InThePast(TimeUnit::Years, 2);
    let right_now = RoughTime::JustNow;
    let one_second_away = RoughTime::InTheFuture(TimeUnit::Seconds, 1);
    let two_months_away = RoughTime::InTheFuture(TimeUnit::Months, 2);

    assert_eq!("a day ago", rough_time_to_english(one_day_ago));
    assert_eq!("2 years ago", rough_time_to_english(two_years_ago));
    assert_eq!("just now", rough_time_to_english(right_now));
    assert_eq!("a second from now", rough_time_to_english(one_second_away));
    assert_eq!("2 months from now", rough_time_to_english(two_months_away));
}

#[test]
fn every_unit_has_both_nouns() {
    let units = [
        (TimeUnit::Seconds, "seconds", "second"),
        (TimeUnit::Minutes, "minutes", "minute"),
        (TimeUnit::Hours, "hours", "hour"),
        (TimeUnit::Days, "days", "day"),
        (TimeUnit::Months, "months", "month"),
        (TimeUnit::Years, "years", "year"),
    ];
    for (unit, plural, singular) in units {
        assert_eq!(unit.plural(), plural);
        assert_eq!(unit.singular(), singular);
    }
}

#[test]
fn counts_are_written_in_decimal() {
    assert_eq!(rough_time_to_english(RoughTime::InThePast(TimeUnit::Hours, 0)), "0 hours ago");
    assert_eq!(rough_time_to_english(RoughTime::InThePast(TimeUnit::Minutes, 10)), "10 minutes ago");
    assert_eq!(
        rough_time_to_english(RoughTime::InTheFuture(TimeUnit::Days, 365)),
        "365 days from now"
    );
    assert_eq!(
        rough_time_to_english(RoughTime::InTheFuture(TimeUnit::Seconds, u32::MAX)),
        "4294967295 seconds from now"
    );
    assert_eq!(
        rough_time_to_english(RoughTime::InThePast(TimeUnit::Years, 1_000_000)),
        "1000000 years ago"
    );
}

#[test]
fn a_count_of_one_reads_a() {
    assert_eq!(rough_time_to_english(RoughTime::InThePast(TimeUnit::Hours, 1)), "a hour ago");
    assert_eq!(rough_time_to_english(RoughTime::InTheFuture(TimeUnit::Years, 1)), "a year from now");
    assert_eq!(rough_time_to_english(RoughTime::InTheFuture(TimeUnit::Minutes, 1)), "a minute from now");
}
