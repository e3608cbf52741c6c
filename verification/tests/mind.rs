use colony::motivation::LOWEST_RANK;
use colony::{
    dispatch_task, is_triggered, resolve_motivation, Brain, Motivation, NeedsEntertainment,
    NeedsFood, NeedsSleep, Status, Task,
};

const MOTIVATIONS: [Motivation; 19] = [
    Motivation::Crisis,
    Motivation::Order,
    Motivation::Danger,
    Motivation::Hunger,
    Motivation::Thirst,
    Motivation::Tired,
    Motivation::Bored,
    Motivation::Injured,
    Motivation::Sick,
    Motivation::Happy,
    Motivation::Sad,
    Motivation::Angry,
    Motivation::Lonely,
    Motivation::Love,
    Motivation::Fear,
    Motivation::Hate,
    Motivation::Work,
    Motivation::Meander,
    Motivation::Idle,
];

const TASKS: [Task; 26] = [
    Task::Crisis,
    Task::Flee,
    Task::Fight,
    Task::Eat,
    Task::Hospital,
    Task::Sleep,
    Task::Sleeping,
    Task::Play,
    Task::Order,
    Task::Work,
    Task::Meander,
    Task::Idle,
    Task::Doctor,
    Task::Forage,
    Task::Plant,
    Task::Harvest,
    Task::Mine,
    Task::Chop,
    Task::Construct,
    Task::Hunt,
    Task::Milk,
    Task::Cook,
    Task::Fish,
    Task::Craft,
    Task::Clean,
    Task::Haul,
];

fn content() -> Status {
    Status {
        needs_food: Some(NeedsFood { current: 50_000, max: 100_000, rate: 100 }),
        needs_entertainment: Some(NeedsEntertainment { current: 50_000, max: 100_000, rate: 100 }),
        needs_sleep: Some(NeedsSleep { current: 50_000, max: 100_000, rate: 100 }),
        index: 0,
        crisis: None,
        danger: None,
        injured: false,
    }
}

fn hungry() -> Status {
    let mut status = content();
    status.needs_food = Some(NeedsFood { current: 0, max: 100_000, rate: 100 });
    status
}

#[test]
fn motivations_rank_in_order_of_declaration() {
    for (place, motivation) in MOTIVATIONS.iter().enumerate() {
        assert_eq!(motivation.rank() as usize, place);
        assert_eq!(Motivation::from_rank(place as u8), *motivation);
    }
    assert_eq!(Motivation::Idle.rank(), LOWEST_RANK);
    assert_eq!(Motivation::Crisis.rank(), 0);
}

#[test]
fn tasks_rank_in_order_of_declaration() {
    for (place, task) in TASKS.iter().enumerate() {
        assert_eq!(task.rank() as usize, place);
        assert_eq!(task.is_work(), place > 11);
    }
    assert!(Task::Haul.is_work());
    assert!(Task::Doctor.is_work());
    assert!(!Task::Work.is_work());
    assert!(!Task::Idle.is_work());
}

#[test]
fn each_motivation_has_its_task() {
    assert_eq!(Motivation::Crisis.task(), Task::Crisis);
    assert_eq!(Motivation::Order.task(), Task::Order);
    assert_eq!(Motivation::Danger.task(), Task::Flee);
    assert_eq!(Motivation::Hunger.task(), Task::Eat);
    assert_eq!(Motivation::Thirst.task(), Task::Eat);
    assert_eq!(Motivation::Tired.task(), Task::Sleep);
    assert_eq!(Motivation::Bored.task(), Task::Play);
    assert_eq!(Motivation::Injured.task(), Task::Hospital);
    assert_eq!(Motivation::Sick.task(), Task::Hospital);
    assert_eq!(Motivation::Happy.task(), Task::Idle);
    assert_eq!(Motivation::Sad.task(), Task::Idle);
    assert_eq!(Motivation::Angry.task(), Task::Fight);
    assert_eq!(Motivation::Lonely.task(), Task::Idle);
    assert_eq!(Motivation::Love.task(), Task::Idle);
    assert_eq!(Motivation::Fear.task(), Task::Flee);
    assert_eq!(Motivation::Hate.task(), Task::Fight);
    assert_eq!(Motivation::Work.task(), Task::Work);
    assert_eq!(Motivation::Meander.task(), Task::Meander);
    assert_eq!(Motivation::Idle.task(), Task::Idle);
}

#[test]
fn a_hungry_agent_wants_to_eat() {
    let status = hungry();
    let motivation = resolve_motivation(&status, false, &vec![]);
    assert_eq!(motivation, Motivation::Hunger);
    assert_eq!(dispatch_task(None, None, motivation, false), Task::Eat);
    let mut brain = Brain::default();
    brain.think(&status, &vec![]);
    assert_eq!(brain.motivation, Some(Motivation::Hunger));
    assert_eq!(brain.task, Some(Task::Eat));
    assert_eq!(brain.order, None);
}

#[test]
fn with_nothing_calling_the_agent_is_idle() {
    assert_eq!(resolve_motivation(&content(), false, &vec![]), Motivation::Idle);
    let bare = Status {
        needs_food: None,
        needs_entertainment: None,
        needs_sleep: None,
        index: 9,
        crisis: None,
        danger: None,
        injured: false,
    };
    assert_eq!(resolve_motivation(&bare, false, &vec![]), Motivation::Idle);
    let mut brain = Brain::default();
    brain.think(&bare, &vec![]);
    assert_eq!(brain.motivation, Some(Motivation::Idle));
    assert_eq!(brain.task, Some(Task::Idle));
}

#[test]
fn the_most_pressing_call_wins() {
    let mut status = hungry();
    status.needs_sleep = Some(NeedsSleep { current: 0, max: 10, rate: 1 });
    status.needs_entertainment = Some(NeedsEntertainment { current: 0, max: 10, rate: 1 });
    status.injured = true;
    assert_eq!(resolve_motivation(&status, false, &vec![]), Motivation::Hunger);
    status.needs_food = None;
    assert_eq!(resolve_motivation(&status, false, &vec![]), Motivation::Tired);
    status.needs_sleep = None;
    assert_eq!(resolve_motivation(&status, false, &vec![]), Motivation::Bored);
    status.needs_entertainment = None;
    assert_eq!(resolve_motivation(&status, false, &vec![]), Motivation::Injured);
    status.danger = Some(String::from("bear"));
    assert_eq!(resolve_motivation(&status, false, &vec![]), Motivation::Danger);
    assert_eq!(resolve_motivation(&status, true, &vec![]), Motivation::Order);
    status.crisis = Some(String::from("siege"));
    assert_eq!(resolve_motivation(&status, true, &vec![]), Motivation::Crisis);
}

#[test]
fn signals_from_outside_count_by_rank_not_by_place() {
    let status = content();
    let signals = vec![Motivation::Meander, Motivation::Work, Motivation::Love, Motivation::Sick];
    assert_eq!(resolve_motivation(&status, false, &signals), Motivation::Sick);
    let reversed = vec![Motivation::Sick, Motivation::Love, Motivation::Work, Motivation::Meander];
    assert_eq!(resolve_motivation(&status, false, &reversed), Motivation::Sick);
    assert_eq!(resolve_motivation(&hungry(), false, &signals), Motivation::Hunger);
    assert_eq!(resolve_motivation(&hungry(), false, &vec![Motivation::Danger]), Motivation::Danger);
    assert_eq!(resolve_motivation(&status, false, &vec![Motivation::Idle]), Motivation::Idle);
    assert_eq!(resolve_motivation(&status, false, &vec![Motivation::Thirst]), Motivation::Thirst);
}

#[test]
fn every_single_signal_resolves_to_itself() {
    for motivation in MOTIVATIONS {
        assert_eq!(resolve_motivation(&content(), false, &vec![motivation]), motivation);
        assert!(is_triggered(&content(), false, &vec![motivation], motivation));
    }
}

#[test]
fn what_calls_for_a_motivation() {
    let status = hungry();
    assert!(is_triggered(&status, false, &vec![], Motivation::Hunger));
    assert!(!is_triggered(&status, false, &vec![], Motivation::Order));
    assert!(is_triggered(&status, true, &vec![], Motivation::Order));
    assert!(!is_triggered(&status, true, &vec![], Motivation::Work));
    assert!(is_triggered(&status, true, &vec![Motivation::Sad, Motivation::Work], Motivation::Work));
    assert!(!is_triggered(&status, false, &vec![Motivation::Sad], Motivation::Idle));
}

#[test]
fn an_order_forces_the_task() {
    for motivation in MOTIVATIONS {
        for task in TASKS {
            assert_eq!(dispatch_task(Some(task), Some(motivation), motivation, true), Task::Order);
            assert_eq!(dispatch_task(Some(task), None, motivation, true), Task::Order);
        }
        assert_eq!(dispatch_task(None, None, motivation, true), Task::Order);
    }
    let mut status = hungry();
    status.crisis = Some(String::from("fire"));
    let mut brain = Brain {
        motivation: Some(Motivation::Work),
        task: Some(Task::Mine),
        order: Some(String::from("hold the bridge")),
    };
    brain.think(&status, &vec![]);
    assert_eq!(brain.motivation, Some(Motivation::Crisis));
    assert_eq!(brain.task, Some(Task::Order));
    assert_eq!(brain.order.as_deref(), Some("hold the bridge"));
}

#[test]
fn a_task_stays_while_the_motivation_stays() {
    assert_eq!(
        dispatch_task(Some(Task::Forage), Some(Motivation::Work), Motivation::Work, false),
        Task::Forage
    );
    assert_eq!(
        dispatch_task(Some(Task::Sleeping), Some(Motivation::Tired), Motivation::Tired, false),
        Task::Sleeping
    );
    let mut brain =
        Brain { motivation: Some(Motivation::Work), task: Some(Task::Chop), order: None };
    for _ in 0..3 {
        brain.think(&content(), &vec![Motivation::Work]);
        assert_eq!(brain.motivation, Some(Motivation::Work));
        assert_eq!(brain.task, Some(Task::Chop));
    }
}

#[test]
fn a_new_motivation_brings_its_own_task() {
    assert_eq!(
        dispatch_task(Some(Task::Forage), Some(Motivation::Work), Motivation::Hunger, false),
        Task::Eat
    );
    assert_eq!(
        dispatch_task(Some(Task::Eat), Some(Motivation::Hunger), Motivation::Work, false),
        Task::Work
    );
    assert_eq!(dispatch_task(Some(Task::Forage), None, Motivation::Work, false), Task::Work);
    assert_eq!(dispatch_task(None, Some(Motivation::Work), Motivation::Work, false), Task::Work);
    let mut brain =
        Brain { motivation: Some(Motivation::Work), task: Some(Task::Chop), order: None };
    brain.think(&hungry(), &vec![Motivation::Work]);
    assert_eq!(brain.motivation, Some(Motivation::Hunger));
    assert_eq!(brain.task, Some(Task::Eat));
}

#[test]
fn a_forced_order_does_not_outlive_the_order() {
    assert_eq!(
        dispatch_task(Some(Task::Order), Some(Motivation::Crisis), Motivation::Crisis, false),
        Task::Crisis
    );
    assert_eq!(
        dispatch_task(Some(Task::Order), Some(Motivation::Order), Motivation::Order, false),
        Task::Order
    );
    let mut status = content();
    status.crisis = Some(String::from("fire"));
    let mut brain = Brain { motivation: None, task: None, order: Some(String::from("dig")) };
    brain.think(&status, &vec![]);
    assert_eq!(brain.task, Some(Task::Order));
    brain.order = None;
    brain.think(&status, &vec![]);
    assert_eq!(brain.motivation, Some(Motivation::Crisis));
    assert_eq!(brain.task, Some(Task::Crisis));
}

#[test]
fn remotivate_clears_the_mind() {
    let mut brain = Brain {
        motivation: Some(Motivation::Work),
        task: Some(Task::Work),
        order: Some(String::from("haul stone")),
    };
    brain.remotivate();
    assert_eq!(brain.motivation, None);
    assert_eq!(brain.task, None);
    assert_eq!(brain.order, None);
}

#[test]
fn after_remotivate_the_next_tick_starts_from_nothing() {
    for task in TASKS {
        let mut brain =
            Brain { motivation: Some(Motivation::Work), task: Some(task), order: None };
        brain.remotivate();
        brain.think(&content(), &vec![Motivation::Work]);
        assert_eq!(brain.motivation, Some(Motivation::Work));
        assert_eq!(brain.task, Some(Task::Work));
    }
    let mut fresh = Brain::default();
    fresh.think(&hungry(), &vec![]);
    let mut cleared =
        Brain { motivation: Some(Motivation::Work), task: Some(Task::Work), order: None };
    cleared.remotivate();
    cleared.think(&hungry(), &vec![]);
    assert_eq!(cleared.motivation, fresh.motivation);
    assert_eq!(cleared.task, fresh.task);
}

#[test]
fn a_new_brain_is_blank() {
    let brain = Brain::default();
    assert_eq!(brain.motivation, None);
    assert_eq!(brain.task, None);
    assert_eq!(brain.order, None);
}
