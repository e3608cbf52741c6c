use vstd::prelude::*;
use crate::status::Status;
use crate::task::Task;

verus! {

/// What drives an agent, from the most pressing to the least.
#[derive(Clone, Copy, Debug, PartialEq, Eq, Hash, Structural)]
pub enum Motivation {
    Crisis,
    Order,
    Danger,
    Hunger,
    Thirst,
    Tired,
    Bored,
    Injured,
    Sick,
    Happy,
    Sad,
    Angry,
    Lonely,
    Love,
    Fear,
    Hate,
    Work,
    Meander,
    Idle,
}

/// The rank of the fallback, `Idle`: no motivation ranks below it.
pub const LOWEST_RANK: u8 = 18;

impl Motivation {
    /// Place in the order of priority: 0 is the most pressing.
    pub open spec fn spec_rank(&self) -> u8 {
        match self {
            Motivation::Crisis => 0,
            Motivation::Order => 1,
            Motivation::Danger => 2,
            Motivation::Hunger => 3,
            Motivation::Thirst => 4,
            Motivation::Tired => 5,
            Motivation::Bored => 6,
            Motivation::Injured => 7,
            Motivation::Sick => 8,
            Motivation::Happy => 9,
            Motivation::Sad => 10,
            Motivation::Angry => 11,
            Motivation::Lonely => 12,
            Motivation::Love => 13,
            Motivation::Fear => 14,
            Motivation::Hate => 15,
            Motivation::Work => 16,
            Motivation::Meander => 17,
            Motivation::Idle => 18,
        }
    }

    /// The task that answers each motivation. Moods that call for nothing in
    /// particular leave the agent idle.
    pub open spec fn spec_task(&self) -> Task {
        match self {
            Motivation::Crisis => Task::Crisis,
            Motivation::Order => Task::Order,
            Motivation::Danger => Task::Flee,
            Motivation::Fear => Task::Flee,
            Motivation::Angry => Task::Fight,
            Motivation::Hate => Task::Fight,
            Motivation::Hunger => Task::Eat,
            Motivation::Thirst => Task::Eat,
            Motivation::Tired => Task::Sleep,
            Motivation::Bored => Task::Play,
            Motivation::Injured => Task::Hospital,
            Motivation::Sick => Task::Hospital,
            Motivation::Work => Task::Work,
            Motivation::Meander => Task::Meander,
            Motivation::Happy => Task::Idle,
            Motivation::Sad => Task::Idle,
            Motivation::Lonely => Task::Idle,
            Motivation::Love => Task::Idle,
            Motivation::Idle => Task::Idle,
        }
    }

    #[verifier::when_used_as_spec(spec_rank)]
    pub fn rank(&self) -> (rank: u8)
        ensures
            rank == self.spec_rank(),
            rank <= LOWEST_RANK,
    {
        match self {
            Motivation::Crisis => 0,
            Motivation::Order => 1,
            Motivation::Danger => 2,
            Motivation::Hunger => 3,
            Motivation::Thirst => 4,
            Motivation::Tired => 5,
            Motivation::Bored => 6,
            Motivation::Injured => 7,
            Motivation::Sick => 8,
            Motivation::Happy => 9,
            Motivation::Sad => 10,
            Motivation::Angry => 11,
            Motivation::Lonely => 12,
            Motivation::Love => 13,
            Motivation::Fear => 14,
            Motivation::Hate => 15,
            Motivation::Work => 16,
            Motivation::Meander => 17,
            Motivation::Idle => 18,
        }
    }

    /// The motivation of a given rank.
    pub fn from_rank(rank: u8) -> (motivation: Motivation)
        requires
            rank <= LOWEST_RANK,
        ensures
            motivation.spec_rank() == rank,
    {
        match rank {
            0 => Motivation::Crisis,
            1 => Motivation::Order,
            2 => Motivation::Danger,
            3 => Motivation::Hunger,
            4 => Motivation::Thirst,
            5 => Motivation::Tired,
            6 => Motivation::Bored,
            7 => Motivation::Injured,
            8 => Motivation::Sick,
            9 => Motivation::Happy,
            10 => Motivation::Sad,
            11 => Motivation::Angry,
            12 => Motivation::Lonely,
            13 => Motivation::Love,
            14 => Motivation::Fear,
            15 => Motivation::Hate,
            16 => Motivation::Work,
            17 => Motivation::Meander,
            _ => Motivation::Idle,
        }
    }

    #[verifier::when_used_as_spec(spec_task)]
    pub fn task(&self) -> (task: Task)
        ensures
            task == self.spec_task(),
    {
        match self {
            Motivation::Crisis => Task::Crisis,
            Motivation::Order => Task::Order,
            Motivation::Danger | Motivation::Fear => Task::Flee,
            Motivation::Angry | Motivation::Hate => Task::Fight,
            Motivation::Hunger | Motivation::Thirst => Task::Eat,
            Motivation::Tired => Task::Sleep,
            Motivation::Bored => Task::Play,
            Motivation::Injured | Motivation::Sick => Task::Hospital,
            Motivation::Work => Task::Work,
            Motivation::Meander => Task::Meander,
            _ => Task::Idle,
        }
    }

    /// The order of priority is total: no two motivations share a rank.
    pub proof fn lemma_rank_identifies(a: Motivation, b: Motivation)
        requires
            a.spec_rank() == b.spec_rank(),
        ensures
            a == b,
    {
    }
}

/// Whether something calls for motivation `m`: the agent's own state, a
/// standing order, or a signal handed in from outside.
pub open spec fn triggered(
    status: Status,
    order_present: bool,
    signals: Seq<Motivation>,
    m: Motivation,
) -> bool {
    status.spec_triggers(m) || (m is Order && order_present) || signals.contains(m)
}

/// `m` is what the agent resolves to: the most pressing motivation that
/// something calls for, or `Idle` when nothing calls.
pub open spec fn is_resolution(
    status: Status,
    order_present: bool,
    signals: Seq<Motivation>,
    m: Motivation,
) -> bool {
    &&& m is Idle || triggered(status, order_present, signals, m)
    &&& forall|other: Motivation| #[trigger]
        triggered(status, order_present, signals, other) ==> m.spec_rank() <= other.spec_rank()
}

/// There is never more than one resolution.
pub proof fn lemma_resolution_unique(
    status: Status,
    order_present: bool,
    signals: Seq<Motivation>,
    a: Motivation,
    b: Motivation,
)
    requires
        is_resolution(status, order_present, signals, a),
        is_resolution(status, order_present, signals, b),
    ensures
        a == b,
{
    if triggered(status, order_present, signals, a) {
        assert(b.spec_rank() <= a.spec_rank());
    }
    if triggered(status, order_present, signals, b) {
        assert(a.spec_rank() <= b.spec_rank());
    }
    Motivation::lemma_rank_identifies(a, b);
}

fn signalled(signals: &Vec<Motivation>, m: Motivation) -> (found: bool)
    ensures
        found == signals@.contains(m),
{
    let mut i: usize = 0;
    while i < signals.len()
        invariant
            i <= signals.len(),
            forall|j: int| 0 <= j < i ==> signals@[j] != m,
        decreases signals.len() - i,
    {
        if signals[i] == m {
            return true;
        }
        i = i + 1;
    }
    false
}

/// Whether something calls for motivation `m`.
pub fn is_triggered(status: &Status, order_present: bool, signals: &Vec<Motivation>, m: Motivation) -> (called:
    bool)
    ensures
        called == triggered(*status, order_present, signals@, m),
{
    if status.triggers(m) {
        return true;
    }
    if order_present && m == Motivation::Order {
        return true;
    }
    signalled(signals, m)
}

/// Resolves the one motivation of an agent for this tick: the candidates are
/// tried from the most pressing down, and the first that something calls for
/// is taken. With nothing calling, the agent is idle.
pub fn resolve_motivation(status: &Status, order_present: bool, signals: &Vec<Motivation>) -> (m:
    Motivation)
    ensures
        is_resolution(*status, order_present, signals@, m),
{
    let mut rank: u8 = 0;
    while rank < LOWEST_RANK
        invariant
            rank <= LOWEST_RANK,
            forall|other: Motivation|
                other.spec_rank() < rank ==> !#[trigger] triggered(
                    *status,
                    order_present,
                    signals@,
                    other,
                ),
        decreases LOWEST_RANK - rank,
    {
        let candidate = Motivation::from_rank(rank);
        if is_triggered(status, order_present, signals, candidate) {
            return candidate;
        }
        proof {
            assert forall|other: Motivation| other.spec_rank() < rank + 1 implies !#[trigger] triggered(
                *status,
                order_present,
                signals@,
                other,
            ) by {
                if other.spec_rank() == rank {
                    Motivation::lemma_rank_identifies(other, candidate);
                }
            }
        }
        rank = rank + 1;
    }
    Motivation::Idle
}

} // verus!
