use vstd::prelude::*;
use crate::text::{percent_line, percent_text, HoverNote};
use crate::units::WHOLE;

verus! {

/// Something to eat that goes bad with time. `nutrition`, `spoilage` and
/// `spoilage_rate` are in thousandths; a `spoilage` of `WHOLE` is fresh, and
/// at zero the food is rotten.
#[derive(Clone, Debug)]
pub struct Food {
    pub nutrition: u32,
    pub spoilage: u32,
    pub spoilage_rate: u32,
    pub name: String,
}

/// Freshness after one tick: the rate is taken off, down to nothing.
pub open spec fn spoiled(spoilage: u32, rate: u32) -> u32 {
    if spoilage >= rate {
        (spoilage - rate) as u32
    } else {
        0
    }
}

/// Freshness after `ticks` ticks.
pub open spec fn spoiled_for(spoilage: u32, rate: u32, ticks: nat) -> u32
    decreases ticks,
{
    if ticks == 0 {
        spoilage
    } else {
        spoiled(spoiled_for(spoilage, rate, (ticks - 1) as nat), rate)
    }
}

/// Freshness never rises and never falls below nothing, however many ticks
/// pass.
pub proof fn lemma_spoilage_monotonic(spoilage: u32, rate: u32, ticks: nat)
    ensures
        0 <= spoiled_for(spoilage, rate, ticks) <= spoilage,
        ticks > 0 ==> spoiled_for(spoilage, rate, ticks) <= spoiled_for(
            spoilage,
            rate,
            (ticks - 1) as nat,
        ),
    decreases ticks,
{
    if ticks > 0 {
        lemma_spoilage_monotonic(spoilage, rate, (ticks - 1) as nat);
    }
}

impl Food {
    /// Freshness stays within one whole.
    pub open spec fn wf(&self) -> bool {
        self.spoilage <= WHOLE
    }

    pub open spec fn spec_is_rotten(&self) -> bool {
        self.spoilage == 0
    }

    /// Food with no freshness left is rotten.
    #[verifier::when_used_as_spec(spec_is_rotten)]
    pub fn is_rotten(&self) -> (rotten: bool)
        ensures
            rotten == self.spec_is_rotten(),
    {
        self.spoilage == 0
    }

    /// Lets the food age by one tick.
    pub fn spoil(&mut self)
        ensures
            final(self).spoilage == spoiled(old(self).spoilage, old(self).spoilage_rate),
            final(self).spoilage <= old(self).spoilage,
            final(self).nutrition == old(self).nutrition,
            final(self).spoilage_rate == old(self).spoilage_rate,
            final(self).name == old(self).name,
            old(self).wf() ==> final(self).wf(),
    {
        if self.spoilage >= self.spoilage_rate {
            self.spoilage = self.spoilage - self.spoilage_rate;
        } else {
            self.spoilage = 0;
        }
    }
}

impl Default for Food {
    /// Fresh food: 10.0 of nutrition, gone bad by 0.03 a tick.
    fn default() -> (food: Food)
        ensures
            food.nutrition == 10_000,
            food.spoilage == WHOLE,
            food.spoilage_rate == 30,
            food.name@ == "Food"@,
            food.wf(),
    {
        Food {
            nutrition: 10_000,
            spoilage: WHOLE,
            spoilage_rate: 30,
            name: String::from_str("Food"),
        }
    }
}

impl HoverNote for Food {
    /// The freshness in percent, such as `Spoilage: 97.00%`.
    fn hover_note(&self) -> (note: String)
        ensures
            note@ == percent_line("Spoilage"@, self.spoilage as nat * 10),
    {
        percent_text("Spoilage", self.spoilage as u64 * 10)
    }
}

} // verus!
