use too_busy::calendar::ConfTimeUnit;
use too_busy::label::dec_string;
use too_busy::label::format_axis_label;
use too_busy::label::label_hours_to_days_hours;
use too_busy::label::label_hours_to_hours_minutes;
use too_busy::label::label_hours_to_minutes;
use too_busy::label::value_to_human_duration;
use too_busy::rat::Rat;

fn conf() -> ConfTimeUnit {
    ConfTimeUnit {
        number_of_hours_per_day: 8,
        number_of_day_per_week: 5,
        number_of_day_per_month: 22,
    }
}

#[test]
fn half_an_hour_short_form() {
    let c = conf();
    assert_eq!(value_to_human_duration(Rat::new(1, 2), true, &c), "30m");
    assert_eq!(value_to_human_duration(Rat::new(1, 2), false, &c), "30 minutes");
}

#[test]
fn twenty_five_hours_is_three_days_one_hour() {
    let c = conf();
    assert_eq!(value_to_human_duration(Rat::from_int(25), true, &c), "3d 1h");
    assert_eq!(value_to_human_duration(Rat::from_int(25), false, &c), "3 days and 1 hours");
}

#[test]
fn hundredth_of_an_hour_is_seconds() {
    let c = conf();
    assert_eq!(value_to_human_duration(Rat::new(1, 100), true, &c), "36s");
    assert_eq!(value_to_human_duration(Rat::new(1, 100), false, &c), "36 seconds");
}

#[test]
fn minutes_with_leftover_seconds() {
    let c = conf();
    // 1830 s = 61/120 h
    assert_eq!(value_to_human_duration(Rat::new(61, 120), true, &c), "30m 30s");
    assert_eq!(value_to_human_duration(Rat::new(61, 120), false, &c), "30 minutes and 30 seconds");
}

#[test]
fn hours_with_leftover_minutes() {
    let c = conf();
    // 2 h 5 min = 25/12 h
    assert_eq!(value_to_human_duration(Rat::new(25, 12), true, &c), "2h 5m");
    assert_eq!(value_to_human_duration(Rat::new(25, 12), false, &c), "2 hours and 5 minutes");
    assert_eq!(value_to_human_duration(Rat::from_int(2), true, &c), "2h");
    assert_eq!(value_to_human_duration(Rat::from_int(2), false, &c), "2 hours");
}

#[test]
fn whole_days_have_no_hours_part() {
    let c = conf();
    // 24 h at 8 h a working day is exactly 3 days
    assert_eq!(value_to_human_duration(Rat::from_int(24), true, &c), "3d");
    assert_eq!(value_to_human_duration(Rat::from_int(24), false, &c), "3 days");
}

#[test]
fn label_functions_match_their_branches() {
    let c = conf();
    assert_eq!(label_hours_to_minutes(Rat::new(1, 2), true), "30m");
    assert_eq!(label_hours_to_minutes(Rat::new(61, 120), false), "30 minutes and 30 seconds");
    assert_eq!(label_hours_to_hours_minutes(Rat::new(25, 12), true), "2h 5m");
    assert_eq!(label_hours_to_hours_minutes(Rat::from_int(7), false), "7 hours");
    assert_eq!(label_hours_to_days_hours(Rat::from_int(25), true, &c), "3d 1h");
    assert_eq!(label_hours_to_days_hours(Rat::from_int(24), false, &c), "3 days");
}

#[test]
fn axis_labels_skip_non_positive_values() {
    let c = conf();
    assert_eq!(format_axis_label(Rat::from_int(0), &c), "");
    assert_eq!(format_axis_label(Rat::new(-1, 2), &c), "");
    assert_eq!(format_axis_label(Rat::new(1, 2), &c), "30m");
    assert_eq!(format_axis_label(Rat::from_int(2), &c), "2h");
}

#[test]
fn decimal_rendering() {
    assert_eq!(dec_string(0), "0");
    assert_eq!(dec_string(7), "7");
    assert_eq!(dec_string(10), "10");
    assert_eq!(dec_string(1063), "1063");
    assert_eq!(dec_string(1000000), "1000000");
}

#[test]
fn truncation_to_whole_seconds() {
    let c = conf();
    // 0.0001 h is 0.36 s; whole-second truncation shows zero seconds
    assert_eq!(value_to_human_duration(Rat::new(1, 10000), true, &c), "0s");
}
