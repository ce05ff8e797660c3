use regtags::tags::format_time_nice;

const WEEK: u64 = 604800;

#[test]
fn one_day_is_singular() {
    assert_eq!(format_time_nice(24 * 3600), "1 Tag");
}

#[test]
fn two_days_are_plural() {
    assert_eq!(format_time_nice(48 * 3600), "2 Tagen");
}

#[test]
fn seconds_count_below_a_minute() {
    assert_eq!(format_time_nice(30), "30 Sekunden");
    assert_eq!(format_time_nice(0), "0 Sekunden");
    assert_eq!(format_time_nice(1), "1 Sekunden");
}

#[test]
fn exactly_fiftytwo_weeks_is_one_year() {
    assert_eq!(format_time_nice(52 * WEEK), "1 Jahr");
}

#[test]
fn hundredandfour_weeks_are_two_years() {
    assert_eq!(format_time_nice(104 * WEEK), "2 Jahren");
}

#[test]
fn the_year_ladder_has_a_gap() {
    // Durations strictly between 52 and 103 weeks fall through both year
    // buckets and land on the day bucket.
    assert_eq!(format_time_nice(53 * WEEK), "371 Tagen");
    assert_eq!(format_time_nice(103 * WEEK), "721 Tagen");
}

#[test]
fn hours_and_minutes_buckets() {
    assert_eq!(format_time_nice(3600), "1 Stunde");
    assert_eq!(format_time_nice(2 * 3600), "2 Stunden");
    assert_eq!(format_time_nice(60), "1 Minute");
    assert_eq!(format_time_nice(5 * 60), "5 Minuten");
}
