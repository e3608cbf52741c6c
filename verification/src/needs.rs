use vstd::prelude::*;
use crate::units::clamp;

verus! {

/// A need after one tick: `rate` is taken off, and the level stays between
/// nothing and `max`.
pub open spec fn decayed(current: u32, max: u32, rate: u32) -> u32 {
    clamp(current - rate, 0, max as int) as u32
}

/// A need after `amount` was given back, held to the same range.
pub open spec fn replenished(current: u32, max: u32, amount: u32) -> u32 {
    clamp(current + amount, 0, max as int) as u32
}

fn decay(current: u32, max: u32, rate: u32) -> (level: u32)
    ensures
        level == decayed(current, max, rate),
{
    let lowered: u32 = if current >= rate {
        current - rate
    } else {
        0
    };
    if lowered > max {
        max
    } else {
        lowered
    }
}

fn refill(current: u32, max: u32, amount: u32) -> (level: u32)
    ensures
        level == replenished(current, max, amount),
{
    let raised: u64 = current as u64 + amount as u64;
    if raised > max as u64 {
        max
    } else {
        raised as u32
    }
}

/// How well fed an agent is. All three fields are in thousandths.
#[derive(Clone, Copy, Debug, PartialEq, Eq, Structural)]
pub struct NeedsFood {
    pub current: u32,
    pub max: u32,
    pub rate: u32,
}

/// How entertained an agent is. All three fields are in thousandths.
#[derive(Clone, Copy, Debug, PartialEq, Eq, Structural)]
pub struct NeedsEntertainment {
    pub current: u32,
    pub max: u32,
    pub rate: u32,
}

/// How rested an agent is. All three fields are in thousandths.
#[derive(Clone, Copy, Debug, PartialEq, Eq, Structural)]
pub struct NeedsSleep {
    pub current: u32,
    pub max: u32,
    pub rate: u32,
}

impl NeedsFood {
    /// The level lies within its range.
    pub open spec fn wf(&self) -> bool {
        self.current <= self.max
    }

    /// A need that has run out is critical.
    pub open spec fn spec_is_critical(&self) -> bool {
        self.current == 0
    }

    pub open spec fn spec_ticked(&self) -> NeedsFood {
        NeedsFood { current: decayed(self.current, self.max, self.rate), ..*self }
    }

    #[verifier::when_used_as_spec(spec_is_critical)]
    pub fn is_critical(&self) -> (critical: bool)
        ensures
            critical == self.spec_is_critical(),
    {
        self.current == 0
    }

    /// Lets one tick pass.
    pub fn tick(&mut self)
        ensures
            *final(self) == old(self).spec_ticked(),
            final(self).wf(),
    {
        self.current = decay(self.current, self.max, self.rate);
    }

    /// Gives `amount` back, up to `max`.
    pub fn replenish(&mut self, amount: u32)
        ensures
            *final(self) == (NeedsFood {
                current: replenished(old(self).current, old(self).max, amount),
                ..*old(self)
            }),
            final(self).wf(),
    {
        self.current = refill(self.current, self.max, amount);
    }
}

impl NeedsEntertainment {
    /// The level lies within its range.
    pub open spec fn wf(&self) -> bool {
        self.current <= self.max
    }

    /// A need that has run out is critical.
    pub open spec fn spec_is_critical(&self) -> bool {
        self.current == 0
    }

    pub open spec fn spec_ticked(&self) -> NeedsEntertainment {
        NeedsEntertainment { current: decayed(self.current, self.max, self.rate), ..*self }
    }

    #[verifier::when_used_as_spec(spec_is_critical)]
    pub fn is_critical(&self) -> (critical: bool)
        ensures
            critical == self.spec_is_critical(),
    {
        self.current == 0
    }

    /// Lets one tick pass.
    pub fn tick(&mut self)
        ensures
            *final(self) == old(self).spec_ticked(),
            final(self).wf(),
    {
        self.current = decay(self.current, self.max, self.rate);
    }

    /// Gives `amount` back, up to `max`.
    pub fn replenish(&mut self, amount: u32)
        ensures
            *final(self) == (NeedsEntertainment {
                current: replenished(old(self).current, old(self).max, amount),
                ..*old(self)
            }),
            final(self).wf(),
    {
        self.current = refill(self.current, self.max, amount);
    }
}

impl NeedsSleep {
    /// The level lies within its range.
    pub open spec fn wf(&self) -> bool {
        self.current <= self.max
    }

    /// A need that has run out is critical.
    pub open spec fn spec_is_critical(&self) -> bool {
        self.current == 0
    }

    pub open spec fn spec_ticked(&self) -> NeedsSleep {
        NeedsSleep { current: decayed(self.current, self.max, self.rate), ..*self }
    }

    #[verifier::when_used_as_spec(spec_is_critical)]
    pub fn is_critical(&self) -> (critical: bool)
        ensures
            critical == self.spec_is_critical(),
    {
        self.current == 0
    }

    /// Lets one tick pass.
    pub fn tick(&mut self)
        ensures
            *final(self) == old(self).spec_ticked(),
            final(self).wf(),
    {
        self.current = decay(self.current, self.max, self.rate);
    }

    /// Gives `amount` back, up to `max`.
    pub fn replenish(&mut self, amount: u32)
        ensures
            *final(self) == (NeedsSleep {
                current: replenished(old(self).current, old(self).max, amount),
                ..*old(self)
            }),
            final(self).wf(),
    {
        self.current = refill(self.current, self.max, amount);
    }
}

/// A level within its range stays there and never rises while it decays.
pub proof fn lemma_decay_bounds(current: u32, max: u32, rate: u32)
    ensures
        decayed(current, max, rate) <= max,
        decayed(current, max, rate) <= current,
{
}

} // verus!
