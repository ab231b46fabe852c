use too_busy::calendar::ConfTimeUnit;
use too_busy::rat::Rat;
use too_busy::unit::TimeUnit;

#[test]
fn conversion_to_hours() {
    let conf_time_unit = ConfTimeUnit {
        number_of_hours_per_day: 8,
        number_of_day_per_week: 5,
        number_of_day_per_month: 22,
    };
    let two = Rat::from_int(2);
    // 2 s = 2/3600 h = 0.0005555...
    assert!(TimeUnit::Seconds.to_hours(two, &conf_time_unit).same_value(&Rat::new(2, 3600)));
    // 2 min = 2/60 h = 0.0333...
    assert!(TimeUnit::Minutes.to_hours(two, &conf_time_unit).same_value(&Rat::new(2, 60)));
    assert!(TimeUnit::Hours.to_hours(two, &conf_time_unit).same_value(&Rat::from_int(2)));
    assert!(TimeUnit::Days.to_hours(two, &conf_time_unit).same_value(&Rat::from_int(16)));
    assert!(TimeUnit::Weeks.to_hours(two, &conf_time_unit).same_value(&Rat::from_int(80)));
    assert!(TimeUnit::Months.to_hours(two, &conf_time_unit).same_value(&Rat::from_int(352)));
    assert!(TimeUnit::Years.to_hours(two, &conf_time_unit).same_value(&Rat::from_int(4224)));
}

#[test]
fn conversion_time_per_day() {
    let conf_time_unit = ConfTimeUnit {
        number_of_hours_per_day: 8,
        number_of_day_per_week: 5,
        number_of_day_per_month: 30,
    };
    let ten = Rat::from_int(10);
    assert!(
        TimeUnit::Seconds.to_times_per_days(ten, &conf_time_unit).same_value(&Rat::from_int(288000))
    );
    assert!(
        TimeUnit::Minutes.to_times_per_days(ten, &conf_time_unit).same_value(&Rat::from_int(4800))
    );
    assert!(TimeUnit::Hours.to_times_per_days(ten, &conf_time_unit).same_value(&Rat::from_int(80)));
    assert!(TimeUnit::Days.to_times_per_days(ten, &conf_time_unit).same_value(&Rat::from_int(10)));
    assert!(TimeUnit::Weeks.to_times_per_days(ten, &conf_time_unit).same_value(&Rat::from_int(2)));
    // 10 times per 30-day month is a third of a time per day, 0.3333...
    assert!(TimeUnit::Months.to_times_per_days(ten, &conf_time_unit).same_value(&Rat::new(1, 3)));
    // 10 times per 360-day year, 0.02777...
    assert!(TimeUnit::Years.to_times_per_days(ten, &conf_time_unit).same_value(&Rat::new(1, 36)));
}

#[test]
fn conversion_to_seconds() {
    let two = Rat::from_int(2);
    assert_eq!(TimeUnit::Seconds.to_seconds(two), Rat::new(2, 1));
    assert_eq!(TimeUnit::Minutes.to_seconds(two), Rat::new(120, 1));
    assert_eq!(TimeUnit::Hours.to_seconds(two), Rat::new(7200, 1));
    assert_eq!(TimeUnit::Days.to_seconds(two), Rat::new(172800, 1));
    assert_eq!(TimeUnit::Weeks.to_seconds(two), Rat::new(1209600, 1));
    assert_eq!(TimeUnit::Months.to_seconds(two), Rat::new(5184000, 1));
    assert_eq!(TimeUnit::Years.to_seconds(two), Rat::new(63072000, 1));
    // fractions pass through: half a minute is 30 seconds
    assert!(TimeUnit::Minutes.to_seconds(Rat::new(1, 2)).same_value(&Rat::from_int(30)));
}

#[test]
fn to_hours_round_trip_example() {
    // 3 weeks -> 120 hours; dividing by the weeks multiplier (40 h/week
    // under this calendar) recovers 3 exactly.
    let conf_time_unit = ConfTimeUnit {
        number_of_hours_per_day: 8,
        number_of_day_per_week: 5,
        number_of_day_per_month: 22,
    };
    let h = TimeUnit::Weeks.to_hours(Rat::from_int(3), &conf_time_unit);
    assert!(h.same_value(&Rat::from_int(120)));
    let one_week_in_hours = TimeUnit::Weeks.to_hours(Rat::from_int(1), &conf_time_unit);
    assert!(one_week_in_hours.same_value(&Rat::from_int(40)));
    let back = Rat::new(h.num * one_week_in_hours.den, h.den * one_week_in_hours.num);
    assert!(back.same_value(&Rat::from_int(3)));
}

#[test]
fn unit_names() {
    assert_eq!(TimeUnit::Seconds.plural(), "seconds");
    assert_eq!(TimeUnit::Seconds.singular(), "second");
    assert_eq!(TimeUnit::Minutes.plural(), "minutes");
    assert_eq!(TimeUnit::Hours.singular(), "hour");
    assert_eq!(TimeUnit::Days.plural(), "days");
    assert_eq!(TimeUnit::Weeks.singular(), "week");
    assert_eq!(TimeUnit::Months.plural(), "months");
    assert_eq!(TimeUnit::Years.singular(), "year");
}

#[test]
fn calendar_construction() {
    assert!(ConfTimeUnit::new(8, 5, 22).is_some());
    assert!(ConfTimeUnit::new(24, 7, 31).is_some());
    assert!(ConfTimeUnit::new(1, 1, 1).is_some());
    assert!(ConfTimeUnit::new(0, 5, 22).is_none());
    assert!(ConfTimeUnit::new(25, 5, 22).is_none());
    assert!(ConfTimeUnit::new(8, 0, 22).is_none());
    assert!(ConfTimeUnit::new(8, 8, 22).is_none());
    assert!(ConfTimeUnit::new(8, 5, 0).is_none());
    assert!(ConfTimeUnit::new(8, 5, 32).is_none());
    let c = ConfTimeUnit::new(8, 5, 22).unwrap();
    assert_eq!(c.number_of_hours_per_day, 8);
    assert_eq!(c.number_of_day_per_week, 5);
    assert_eq!(c.number_of_day_per_month, 22);
}
