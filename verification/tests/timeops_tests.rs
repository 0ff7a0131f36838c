use filelist_sync::timeops::TimeOperationType;

#[test]
fn test_get_component_from_ts() {
    let timestamp_micros: i64 = 1688379261000000; // Mon Jul 03 2023 10:14:21 GMT+0000

    let ops = [
        TimeOperationType::Minute,
        TimeOperationType::Hour,
        TimeOperationType::DayOfWeek,
        TimeOperationType::DayOfMonth,
        TimeOperationType::DayOfYear,
        TimeOperationType::DaysInMonth,
        TimeOperationType::Month,
    ];
    let expected_outputs = [14, 10, 1, 3, 184, 31, 7]; // Strict ordering based on TimeOperationType
    for (op, expected) in std::iter::zip(ops, expected_outputs) {
        let got = op.get_component_from_ts(timestamp_micros);
        assert!(
            got == expected,
            "operation type: {:?} expected {} got {}",
            op,
            expected,
            got
        );
    }
}

#[test]
fn year_component() {
    let timestamp_micros: i64 = 1688379261000000;
    assert_eq!(TimeOperationType::Year.get_component_from_ts(timestamp_micros), 2023);
}

#[test]
fn components_at_the_epoch() {
    let ts: i64 = 0;
    assert_eq!(TimeOperationType::Minute.get_component_from_ts(ts), 0);
    assert_eq!(TimeOperationType::Hour.get_component_from_ts(ts), 0);
    assert_eq!(TimeOperationType::DayOfWeek.get_component_from_ts(ts), 4); // Thursday
    assert_eq!(TimeOperationType::DayOfMonth.get_component_from_ts(ts), 1);
    assert_eq!(TimeOperationType::DayOfYear.get_component_from_ts(ts), 1);
    assert_eq!(TimeOperationType::DaysInMonth.get_component_from_ts(ts), 31);
    assert_eq!(TimeOperationType::Month.get_component_from_ts(ts), 1);
    assert_eq!(TimeOperationType::Year.get_component_from_ts(ts), 1970);
}

#[test]
fn components_before_the_epoch() {
    let ts: i64 = -2208936075000000; // Mon, 1 Jan 1900 14:38:45 UTC
    assert_eq!(TimeOperationType::Minute.get_component_from_ts(ts), 38);
    assert_eq!(TimeOperationType::Hour.get_component_from_ts(ts), 14);
    assert_eq!(TimeOperationType::DayOfWeek.get_component_from_ts(ts), 1); // Monday
    assert_eq!(TimeOperationType::DayOfMonth.get_component_from_ts(ts), 1);
    assert_eq!(TimeOperationType::DayOfYear.get_component_from_ts(ts), 1);
    assert_eq!(TimeOperationType::DaysInMonth.get_component_from_ts(ts), 31);
    assert_eq!(TimeOperationType::Month.get_component_from_ts(ts), 1);
    assert_eq!(TimeOperationType::Year.get_component_from_ts(ts), 1900);
    let feb_1900: i64 = -2205100800000000; // 1900-02-15 UTC; a century year is no leap year
    assert_eq!(TimeOperationType::DaysInMonth.get_component_from_ts(feb_1900), 28);
}

#[test]
fn days_in_month_honours_leap_years() {
    let feb_2024: i64 = 1707955200000000; // 2024-02-15 UTC
    assert_eq!(TimeOperationType::DaysInMonth.get_component_from_ts(feb_2024), 29);
    let feb_2023: i64 = 1676419200000000; // 2023-02-15 UTC
    assert_eq!(TimeOperationType::DaysInMonth.get_component_from_ts(feb_2023), 28);
}
