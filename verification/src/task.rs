use vstd::prelude::*;
use crate::motivation::Motivation;

verus! {

/// What an agent is doing, from the most pressing to the least. The entries
/// after `Idle` are the forms of work.
#[derive(Clone, Copy, Debug, PartialEq, Eq, Hash, Structural)]
pub enum Task {
    Crisis,
    Flee,
    Fight,
    Eat,
    Hospital,
    Sleep,
    Sleeping,
    Play,
    Order,
    Work,
    Meander,
    Idle,
    Doctor,
    Forage,
    Plant,
    Harvest,
    Mine,
    Chop,
    Construct,
    Hunt,
    Milk,
    Cook,
    Fish,
    Craft,
    Clean,
    Haul,
}

impl Task {
    /// Place in the order of priority: 0 is the most pressing.
    pub open spec fn spec_rank(&self) -> u8 {
        match self {
            Task::Crisis => 0,
            Task::Flee => 1,
            Task::Fight => 2,
            Task::Eat => 3,
            Task::Hospital => 4,
            Task::Sleep => 5,
            Task::Sleeping => 6,
            Task::Play => 7,
            Task::Order => 8,
            Task::Work => 9,
            Task::Meander => 10,
            Task::Idle => 11,
            Task::Doctor => 12,
            Task::Forage => 13,
            Task::Plant => 14,
            Task::Harvest => 15,
            Task::Mine => 16,
            Task::Chop => 17,
            Task::Construct => 18,
            Task::Hunt => 19,
            Task::Milk => 20,
            Task::Cook => 21,
            Task::Fish => 22,
            Task::Craft => 23,
            Task::Clean => 24,
            Task::Haul => 25,
        }
    }

    /// The forms of work are the entries that rank below `Idle`.
    pub open spec fn spec_is_work(&self) -> bool {
        self.spec_rank() > 11
    }

    #[verifier::when_used_as_spec(spec_rank)]
    pub fn rank(&self) -> (rank: u8)
        ensures
            rank == self.spec_rank(),
            rank <= 25,
    {
        match self {
            Task::Crisis => 0,
            Task::Flee => 1,
            Task::Fight => 2,
            Task::Eat => 3,
            Task::Hospital => 4,
            Task::Sleep => 5,
            Task::Sleeping => 6,
            Task::Play => 7,
            Task::Order => 8,
            Task::Work => 9,
            Task::Meander => 10,
            Task::Idle => 11,
            Task::Doctor => 12,
            Task::Forage => 13,
            Task::Plant => 14,
            Task::Harvest => 15,
            Task::Mine => 16,
            Task::Chop => 17,
            Task::Construct => 18,
            Task::Hunt => 19,
            Task::Milk => 20,
            Task::Cook => 21,
            Task::Fish => 22,
            Task::Craft => 23,
            Task::Clean => 24,
            Task::Haul => 25,
        }
    }

    #[verifier::when_used_as_spec(spec_is_work)]
    pub fn is_work(&self) -> (work: bool)
        ensures
            work == self.spec_is_work(),
    {
        self.rank() > 11
    }

    /// The order of priority is total: no two tasks share a rank.
    pub proof fn lemma_rank_identifies(a: Task, b: Task)
        requires
            a.spec_rank() == b.spec_rank(),
        ensures
            a == b,
    {
    }
}

/// The task of an agent for this tick, from what it did before and what
/// drives it now.
///
/// A standing order forces `Order`, whatever the motivation. Without one, a
/// task that was assigned under the same motivation is kept, so that work in
/// progress and a sleep that has begun go on; a forced `Order` is not kept
/// once the order is gone. In every other case the task is the one that
/// answers the motivation.
pub open spec fn spec_dispatch(
    previous_task: Option<Task>,
    previous_motivation: Option<Motivation>,
    motivation: Motivation,
    order_present: bool,
) -> Task {
    if order_present {
        Task::Order
    } else if previous_task is Some && previous_task != Some(Task::Order) && previous_motivation
        == Some(motivation) {
        previous_task->0
    } else {
        motivation.spec_task()
    }
}

/// Chooses the task for this tick.
pub fn dispatch_task(
    previous_task: Option<Task>,
    previous_motivation: Option<Motivation>,
    motivation: Motivation,
    order_present: bool,
) -> (task: Task)
    ensures
        task == spec_dispatch(previous_task, previous_motivation, motivation, order_present),
        order_present ==> task == Task::Order,
{
    if order_present {
        return Task::Order;
    }
    match (previous_task, previous_motivation) {
        (Some(kept), Some(before)) => {
            if before == motivation && kept != Task::Order {
                kept
            } else {
                motivation.task()
            }
        },
        _ => motivation.task(),
    }
}

/// With nothing carried over from earlier ticks, the task is the one that
/// answers the motivation: what the agent did before plays no part.
pub proof fn lemma_fresh_dispatch(motivation: Motivation, order_present: bool)
    ensures
        spec_dispatch(None, None, motivation, order_present) == if order_present {
            Task::Order
        } else {
            motivation.spec_task()
        },
{
}

/// Under an unchanged motivation and without an order, a task other than
/// `Order` stays as it is, tick after tick.
pub proof fn lemma_task_sticks(task: Task, motivation: Motivation)
    requires
        task != Task::Order,
    ensures
        spec_dispatch(Some(task), Some(motivation), motivation, false) == task,
{
}

} // verus!
