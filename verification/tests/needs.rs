use colony::status::share_text;
use colony::text::{percent_text, push_decimal, push_two_decimals};
use colony::{InfoPanel, Motivation, NeedsEntertainment, NeedsFood, NeedsSleep, Status};

fn status() -> Status {
    Status {
        needs_food: Some(NeedsFood { current: 25_000, max: 100_000, rate: 10_000 }),
        needs_entertainment: Some(NeedsEntertainment { current: 100_000, max: 100_000, rate: 100 }),
        needs_sleep: Some(NeedsSleep { current: 1_000, max: 3_000, rate: 1 }),
        index: 4,
        crisis: None,
        danger: None,
        injured: false,
    }
}

#[test]
fn a_need_loses_its_rate_each_tick() {
    let mut food = NeedsFood { current: 25_000, max: 100_000, rate: 10_000 };
    food.tick();
    assert_eq!(food, NeedsFood { current: 15_000, max: 100_000, rate: 10_000 });
    food.tick();
    assert_eq!(food.current, 5_000);
    assert!(!food.is_critical());
}

#[test]
fn a_need_stops_at_nothing_and_is_then_critical() {
    let mut food = NeedsFood { current: 5_000, max: 100_000, rate: 10_000 };
    food.tick();
    assert_eq!(food.current, 0);
    assert!(food.is_critical());
    food.tick();
    assert_eq!(food.current, 0);
    let mut sleep = NeedsSleep { current: 1, max: 10, rate: 1 };
    sleep.tick();
    assert!(sleep.is_critical());
    let mut fun = NeedsEntertainment { current: 3, max: 10, rate: u32::MAX };
    fun.tick();
    assert!(fun.is_critical());
}

#[test]
fn a_need_above_its_range_comes_back_into_it() {
    let mut sleep = NeedsSleep { current: 900, max: 500, rate: 100 };
    sleep.tick();
    assert_eq!(sleep.current, 500);
    let mut fun = NeedsEntertainment { current: 900, max: 500, rate: 0 };
    fun.tick();
    assert_eq!(fun.current, 500);
}

#[test]
fn replenishing_stops_at_max() {
    let mut food = NeedsFood { current: 20_000, max: 100_000, rate: 10 };
    food.replenish(30_000);
    assert_eq!(food.current, 50_000);
    food.replenish(70_000);
    assert_eq!(food.current, 100_000);
    food.replenish(u32::MAX);
    assert_eq!(food.current, 100_000);
    let mut sleep = NeedsSleep { current: u32::MAX, max: u32::MAX, rate: 1 };
    sleep.replenish(u32::MAX);
    assert_eq!(sleep.current, u32::MAX);
    let mut fun = NeedsEntertainment { current: 0, max: 10, rate: 1 };
    fun.replenish(4);
    assert_eq!(fun, NeedsEntertainment { current: 4, max: 10, rate: 1 });
}

#[test]
fn a_tick_of_status_lets_each_need_decay() {
    let mut status = status();
    status.tick();
    assert_eq!(status.needs_food.unwrap().current, 15_000);
    assert_eq!(status.needs_entertainment.unwrap().current, 99_900);
    assert_eq!(status.needs_sleep.unwrap().current, 999);
    assert_eq!(status.index, 4);
    assert!(!status.injured);
}

#[test]
fn a_missing_need_stays_missing() {
    let mut status = status();
    status.needs_sleep = None;
    status.crisis = Some(String::from("flood"));
    status.tick();
    assert_eq!(status.needs_sleep, None);
    assert_eq!(status.crisis.as_deref(), Some("flood"));
    assert!(!status.triggers(Motivation::Tired));
}

#[test]
fn status_triggers_follow_needs_and_signals() {
    let mut status = status();
    assert!(!status.triggers(Motivation::Hunger));
    status.needs_food = Some(NeedsFood { current: 0, max: 100_000, rate: 10 });
    assert!(status.triggers(Motivation::Hunger));
    assert!(!status.triggers(Motivation::Tired));
    assert!(!status.triggers(Motivation::Bored));
    status.needs_sleep = Some(NeedsSleep { current: 0, max: 10, rate: 1 });
    status.needs_entertainment = Some(NeedsEntertainment { current: 0, max: 10, rate: 1 });
    assert!(status.triggers(Motivation::Tired));
    assert!(status.triggers(Motivation::Bored));
    assert!(!status.triggers(Motivation::Injured));
    status.injured = true;
    assert!(status.triggers(Motivation::Injured));
    assert!(!status.triggers(Motivation::Crisis));
    assert!(!status.triggers(Motivation::Danger));
    status.crisis = Some(String::from("fire"));
    status.danger = Some(String::from("wolf"));
    assert!(status.triggers(Motivation::Crisis));
    assert!(status.triggers(Motivation::Danger));
    assert!(!status.triggers(Motivation::Order));
    assert!(!status.triggers(Motivation::Work));
    assert!(!status.triggers(Motivation::Idle));
}

#[test]
fn info_panel_lists_the_needs_in_order() {
    assert_eq!(
        status().info_panel(),
        vec!["Food: 25.00%", "Entertainment: 100.00%", "Sleep: 33.33%"]
    );
}

#[test]
fn info_panel_leaves_out_what_the_agent_lacks() {
    let mut status = status();
    status.needs_entertainment = None;
    assert_eq!(status.info_panel(), vec!["Food: 25.00%", "Sleep: 33.33%"]);
    status.needs_food = None;
    status.needs_sleep = None;
    assert!(status.info_panel().is_empty());
}

#[test]
fn shares_are_rounded_to_the_nearest_hundredth() {
    assert_eq!(share_text("Sleep", 2, 3), "Sleep: 66.67%");
    assert_eq!(share_text("Sleep", 1, 3), "Sleep: 33.33%");
    assert_eq!(share_text("Food", 0, 7), "Food: 0.00%");
    assert_eq!(share_text("Food", 1, 1), "Food: 100.00%");
    assert_eq!(share_text("Food", 3, 2), "Food: 150.00%");
    assert_eq!(share_text("Food", u32::MAX, 1), "Food: 429496729500.00%");
    assert_eq!(share_text("Food", 1, 20_000), "Food: 0.01%");
    assert_eq!(share_text("Food", 1, 20_001), "Food: 0.00%");
}

#[test]
fn a_need_without_range_has_no_share() {
    assert_eq!(share_text("Food", 5, 0), "Food: inf%");
    assert_eq!(share_text("Food", 0, 0), "Food: NaN%");
}

#[test]
fn numbers_are_written_in_decimal() {
    let mut text = String::from("n=");
    push_decimal(&mut text, 0);
    assert_eq!(text, "n=0");
    push_decimal(&mut text, 907);
    assert_eq!(text, "n=0907");
    let mut all = String::new();
    push_decimal(&mut all, 1_234_567_890);
    assert_eq!(all, "1234567890");
    let mut most = String::new();
    push_decimal(&mut most, u64::MAX);
    assert_eq!(most, "18446744073709551615");
}

#[test]
fn hundredths_are_written_with_two_decimals() {
    let mut text = String::new();
    push_two_decimals(&mut text, 5);
    assert_eq!(text, "0.05");
    let mut second = String::new();
    push_two_decimals(&mut second, 12_340);
    assert_eq!(second, "123.40");
    assert_eq!(percent_text("Growth", 9_999), "Growth: 99.99%");
    assert_eq!(percent_text("", 100), ": 1.00%");
}
