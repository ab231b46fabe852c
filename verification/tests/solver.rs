use too_busy::breakeven::BreakEvenResult;
use too_busy::rat::Rat;
use too_busy::scenario::Scenario;
use too_busy::unit::TimeUnit;

#[test]
fn break_even_within_horizon() {
    // calendar 8 h/day, 5 d/week, 22 d/month; before 40 s, after 10 s,
    // both 20 times an hour; investment 2 h; horizon 90 days:
    // exactly the default scenario.
    let s = Scenario::new();
    match s.compute_break_even() {
        BreakEvenResult::Achieved { day, saved_hours } => {
            assert!(day.num > 0);
            assert!(day.num <= 90 * day.den);
            // the lines cross a day and five twelfths in
            assert!(day.same_value(&Rat::new(17, 12)));
            assert!(saved_hours.num > 0);
            // 118 hours and a ninth saved by the horizon
            assert!(saved_hours.same_value(&Rat::new(1063, 9)));
        },
        other => panic!("expected Achieved, got {:?}", other),
    }
}

#[test]
fn not_worth_it_when_costs_equal() {
    // same cost before and after: no daily saving, whatever the investment
    let mut s = Scenario::new();
    s.after_taken_time = s.before_taken_time;
    s.after_taken_time_unit = s.before_taken_time_unit;
    assert_eq!(s.compute_break_even(), BreakEvenResult::NotWorthIt);
    s.invest_taken_time = Rat::from_int(0);
    assert_eq!(s.compute_break_even(), BreakEvenResult::NotWorthIt);
    s.invest_taken_time = Rat::from_int(10_000);
    s.invest_taken_time_unit = TimeUnit::Days;
    assert_eq!(s.compute_break_even(), BreakEvenResult::NotWorthIt);
}

#[test]
fn not_worth_it_when_after_costs_more() {
    let mut s = Scenario::new();
    s.after_taken_time = Rat::from_int(60);
    assert_eq!(s.compute_break_even(), BreakEvenResult::NotWorthIt);
}

#[test]
fn not_worth_it_when_crossing_at_day_zero() {
    // a real saving but nothing invested: the crossing sits at day 0
    let mut s = Scenario::new();
    s.invest_taken_time = Rat::from_int(0);
    assert_eq!(s.compute_break_even(), BreakEvenResult::NotWorthIt);
}

#[test]
fn break_even_beyond_horizon() {
    // a one-second saving on a once-an-hour task pays the two hours back
    // long after the 90-day horizon
    let mut s = Scenario::new();
    s.after_taken_time = Rat::from_int(39);
    s.repeat_count = Rat::from_int(1);
    match s.compute_break_even() {
        BreakEvenResult::BeyondHorizon { day } => {
            assert!(day.num > 90 * day.den);
        },
        other => panic!("expected BeyondHorizon, got {:?}", other),
    }
}

#[test]
fn extreme_amounts_stay_exact() {
    // the largest accepted amounts: ten thousand years per occurrence, ten
    // thousand occurrences a second, a ten-thousand-year investment
    let mut s = Scenario::new();
    s.before_taken_time = Rat::from_int(10_000);
    s.before_taken_time_unit = TimeUnit::Years;
    s.repeat_count = Rat::from_int(10_000);
    s.repeat_count_time_unit = TimeUnit::Seconds;
    s.after_taken_time = Rat::from_int(0);
    s.invest_taken_time = Rat::from_int(10_000);
    s.invest_taken_time_unit = TimeUnit::Years;
    s.scale_number_of_day = 10_000;
    // the before cost saturates at 24 h/day
    let daily = s.daily_cost_hours(&TimeUnit::Years, Rat::from_int(10_000));
    assert_eq!(daily, Rat::new(24, 1));
    let before = s.before_curve();
    assert_eq!(before.len(), 10_001);
    assert!(before[10_000].1.same_value(&Rat::from_int(240_000)));
    // a 21 120 000-hour investment at 24 h/day pays off on day 880 000,
    // far past the horizon
    match s.compute_break_even() {
        BreakEvenResult::BeyondHorizon { day } => {
            assert!(day.same_value(&Rat::from_int(880_000)));
        },
        other => panic!("expected BeyondHorizon, got {:?}", other),
    }
}

#[test]
fn saved_hours_zero_when_crossing_on_horizon_day() {
    // investment tuned so the crossing lands exactly on the horizon:
    // before 40 s, after 10 s, 20 times an hour saves 4/3 h per day;
    // after-cost leaves 8 - 4/9 h of each working day, so day 90 needs
    // invest = 90 * (4/3) * 8 / (8 - 4/9) h = 1080/17 * ... computed below
    let mut s = Scenario::new();
    // crossing day x = invest * (h - a1) / (h * (a - a1)); solve x = 90:
    // invest = 90 * h * (a - a1) / (h - a1) = 90 * 8 * (4/3) / (68/9)
    //        = 960 * 9 / 68 = 2160/17 h; scale by 17: invest 2160 h,
    // and the horizon by 17: not possible -- instead pick round numbers:
    // before 9/8 h per occurrence, once a day: a = 9/8; after 1/8 h: a1 = 1/8;
    // saving 1 h/day; headroom h - a1 = 63/8; invest for x = 63:
    // invest = 63 * 8 * 1 / (63/8) = 64 h
    s.before_taken_time = Rat::new(9, 8);
    s.before_taken_time_unit = TimeUnit::Hours;
    s.after_taken_time = Rat::new(1, 8);
    s.after_taken_time_unit = TimeUnit::Hours;
    s.repeat_count = Rat::from_int(1);
    s.repeat_count_time_unit = TimeUnit::Days;
    s.invest_taken_time = Rat::from_int(64);
    s.invest_taken_time_unit = TimeUnit::Hours;
    s.scale_number_of_day = 63;
    match s.compute_break_even() {
        BreakEvenResult::Achieved { day, saved_hours } => {
            assert!(day.same_value(&Rat::from_int(63)));
            assert!(saved_hours.same_value(&Rat::from_int(0)));
        },
        other => panic!("expected Achieved, got {:?}", other),
    }
}
