use too_busy::rat::Rat;
use too_busy::scenario::Scenario;
use too_busy::unit::TimeUnit;

#[test]
fn time_taken() {
    let mut app = Scenario::new();
    // I repeat this action 10 times per day and it takes me 40 seconds each time
    app.repeat_count = Rat::from_int(10);
    app.repeat_count_time_unit = TimeUnit::Days;
    app.before_taken_time = Rat::from_int(40);
    app.before_taken_time_unit = TimeUnit::Seconds;
    let got = app
        .time_taken_per_day_in_hours(Rat::from_int(1), &TimeUnit::Seconds, app.before_taken_time)
        .1;
    let expected = TimeUnit::Seconds.to_hours(
        Rat::from_int(40 * 10),  // 10 time per day
        &app.conf_time_unit,
    );
    assert!(got.same_value(&expected));

    // I repeat this action 10 times per hour and it takes me 2 minutes each time
    app.repeat_count = Rat::from_int(10);
    app.repeat_count_time_unit = TimeUnit::Hours;
    app.before_taken_time = Rat::from_int(2);
    app.before_taken_time_unit = TimeUnit::Minutes;
    let got = app
        .time_taken_per_day_in_hours(Rat::from_int(1), &TimeUnit::Minutes, app.before_taken_time)
        .1;
    let expected = TimeUnit::Minutes.to_hours(
        Rat::from_int(2 * 80),  // 80 times per day (8 h * 10 time)
        &app.conf_time_unit,
    );
    assert!(got.same_value(&expected));

    // I repeat this action 2 times per week and it takes me 4 hours each time
    app.repeat_count = Rat::from_int(2);
    app.repeat_count_time_unit = TimeUnit::Weeks;
    app.before_taken_time = Rat::from_int(4);
    app.before_taken_time_unit = TimeUnit::Hours;
    let got = app
        .time_taken_per_day_in_hours(Rat::from_int(1), &TimeUnit::Hours, app.before_taken_time)
        .1;
    let expected = TimeUnit::Hours.to_hours(
        Rat::new(4 * 2, 5),  // 0.4 times per day (2 time / 5 day)
        &app.conf_time_unit,
    );
    assert!(got.same_value(&expected));
}

#[test]
fn daily_cost_is_clamped_to_24_hours() {
    let mut s = Scenario::new();
    // a million seconds each, a million times an hour: far past saturation
    s.repeat_count = Rat::from_int(1_000_000);
    s.repeat_count_time_unit = TimeUnit::Hours;
    let d = s.daily_cost_hours(&TimeUnit::Seconds, Rat::from_int(1_000_000));
    assert_eq!(d, Rat::new(24, 1));
}

#[test]
fn daily_cost_monotonic_example() {
    let s = Scenario::new();
    let d40 = s.daily_cost_hours(&TimeUnit::Seconds, Rat::from_int(40));
    let d50 = s.daily_cost_hours(&TimeUnit::Seconds, Rat::from_int(50));
    // 40 s * 160/day = 6400/3600 h, 50 s * 160/day = 8000/3600 h
    assert!(d40.same_value(&Rat::new(6400, 3600)));
    assert!(d50.same_value(&Rat::new(8000, 3600)));
    assert!(d40.num * d50.den <= d50.num * d40.den);
}

#[test]
fn before_curve_samples() {
    let s = Scenario::new();
    let before = s.before_curve();
    assert_eq!(before.len(), 91);
    // day 0 costs nothing
    assert_eq!(before[0].0, Rat::new(0, 1));
    assert!(before[0].1.same_value(&Rat::from_int(0)));
    // the daily cost is 40 s * 160 times = 6400 s = 16/9 h
    assert_eq!(before[1].0, Rat::new(1, 1));
    assert!(before[1].1.same_value(&Rat::new(16, 9)));
    // linear: day 90 costs 160 h
    assert_eq!(before[90].0, Rat::new(90, 1));
    assert!(before[90].1.same_value(&Rat::from_int(160)));
    // and twice day 45 is day 90
    let at45 = before[45].1;
    let at90 = before[90].1;
    assert!(at90.same_value(&Rat::new(2 * at45.num, at45.den)));
}

#[test]
fn invest_curve_degenerate_investment_still_has_two_points() {
    let s = Scenario::new();
    // two hours of investment fit in the first working day: two samples,
    // from (0, 0) to (a quarter day, 2 h)
    let invest = s.invest_curve();
    assert_eq!(invest.len(), 2);
    assert!(invest[0].0.same_value(&Rat::from_int(0)));
    assert!(invest[0].1.same_value(&Rat::from_int(0)));
    assert!(invest[1].0.same_value(&Rat::new(1, 4)));
    assert!(invest[1].1.same_value(&Rat::from_int(2)));
}

#[test]
fn invest_curve_multi_day_investment() {
    let mut s = Scenario::new();
    // 40 hours of investment at 8 hours a day: five days, five samples,
    // climbing 8 hours per day
    s.invest_taken_time = Rat::from_int(40);
    s.invest_taken_time_unit = TimeUnit::Hours;
    let invest = s.invest_curve();
    assert_eq!(invest.len(), 5);
    assert!(invest[0].0.same_value(&Rat::from_int(0)));
    assert!(invest[0].1.same_value(&Rat::from_int(0)));
    assert!(invest[4].0.same_value(&Rat::from_int(5)));
    assert!(invest[4].1.same_value(&Rat::from_int(40)));
    // halfway: two and a half days in, 20 hours invested
    assert!(invest[2].0.same_value(&Rat::new(5, 2)));
    assert!(invest[2].1.same_value(&Rat::from_int(20)));
}

#[test]
fn after_curve_starts_at_investment_and_ends_at_horizon() {
    let s = Scenario::new();
    let after = s.after_curve();
    assert_eq!(after.len(), 91);
    // the optimization is live a quarter day in, with 2 h on the clock
    assert!(after[0].0.same_value(&Rat::new(1, 4)));
    assert!(after[0].1.same_value(&Rat::from_int(2)));
    // at the horizon: 2 h + (4/9 h/day) * (90 - 1/4) days = 377/9 h
    assert!(after[90].0.same_value(&Rat::from_int(90)));
    assert!(after[90].1.same_value(&Rat::new(377, 9)));
}

#[test]
fn after_curve_empty_when_investment_exceeds_horizon() {
    let mut s = Scenario::new();
    // 800 working hours is 100 working days, past the 90-day horizon
    s.invest_taken_time = Rat::from_int(800);
    s.invest_taken_time_unit = TimeUnit::Hours;
    let after = s.after_curve();
    assert_eq!(after.len(), 0);
}

#[test]
fn compute_curves_bundles_all_three() {
    let s = Scenario::new();
    let curves = s.compute_curves();
    assert_eq!(curves.before.len(), 91);
    assert_eq!(curves.invest.len(), 2);
    assert_eq!(curves.after.len(), 91);
    assert!(curves.before[90].1.same_value(&Rat::from_int(160)));
    assert!(curves.invest[1].1.same_value(&Rat::from_int(2)));
    assert!(curves.after[0].1.same_value(&Rat::from_int(2)));
}
