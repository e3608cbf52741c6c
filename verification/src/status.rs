use vstd::prelude::*;
use crate::motivation::Motivation;
use crate::needs::{NeedsEntertainment, NeedsFood, NeedsSleep};
use crate::text::{percent_line, percent_text, InfoPanel};

verus! {

/// What is known of an agent's condition: the needs it has, and the signals
/// raised about it.
#[derive(Clone, Debug)]
pub struct Status {
    pub needs_food: Option<NeedsFood>,
    pub needs_entertainment: Option<NeedsEntertainment>,
    pub needs_sleep: Option<NeedsSleep>,
    pub index: usize,
    pub crisis: Option<String>,
    pub danger: Option<String>,
    pub injured: bool,
}

impl Status {
    /// Whether the agent's own state calls for motivation `m`. A need that
    /// the agent does not have calls for nothing.
    pub open spec fn spec_triggers(&self, m: Motivation) -> bool {
        match m {
            Motivation::Crisis => self.crisis is Some,
            Motivation::Danger => self.danger is Some,
            Motivation::Hunger => self.needs_food is Some && self.needs_food->0.spec_is_critical(),
            Motivation::Tired => self.needs_sleep is Some && self.needs_sleep->0.spec_is_critical(),
            Motivation::Bored => self.needs_entertainment is Some
                && self.needs_entertainment->0.spec_is_critical(),
            Motivation::Injured => self.injured,
            _ => false,
        }
    }

    #[verifier::when_used_as_spec(spec_triggers)]
    pub fn triggers(&self, m: Motivation) -> (called: bool)
        ensures
            called == self.spec_triggers(m),
    {
        match m {
            Motivation::Crisis => self.crisis.is_some(),
            Motivation::Danger => self.danger.is_some(),
            Motivation::Hunger => match self.needs_food {
                Some(need) => need.is_critical(),
                None => false,
            },
            Motivation::Tired => match self.needs_sleep {
                Some(need) => need.is_critical(),
                None => false,
            },
            Motivation::Bored => match self.needs_entertainment {
                Some(need) => need.is_critical(),
                None => false,
            },
            Motivation::Injured => self.injured,
            _ => false,
        }
    }

    /// Lets one tick pass for each need that the agent has.
    pub fn tick(&mut self)
        ensures
            final(self).needs_food == match old(self).needs_food {
                Some(need) => Some(need.spec_ticked()),
                None => None,
            },
            final(self).needs_entertainment == match old(self).needs_entertainment {
                Some(need) => Some(need.spec_ticked()),
                None => None,
            },
            final(self).needs_sleep == match old(self).needs_sleep {
                Some(need) => Some(need.spec_ticked()),
                None => None,
            },
            final(self).index == old(self).index,
            final(self).crisis == old(self).crisis,
            final(self).danger == old(self).danger,
            final(self).injured == old(self).injured,
    {
        if let Some(mut need) = self.needs_food {
            need.tick();
            self.needs_food = Some(need);
        }
        if let Some(mut need) = self.needs_entertainment {
            need.tick();
            self.needs_entertainment = Some(need);
        }
        if let Some(mut need) = self.needs_sleep {
            need.tick();
            self.needs_sleep = Some(need);
        }
    }
}

/// How full a need is, in hundredths of a percent, rounded to the nearest.
pub open spec fn share_hundredths(current: u32, max: u32) -> nat
    recommends
        max > 0,
{
    ((current * 10_000 + max / 2) / (max as int)) as nat
}

/// The line that tells how full a need is, such as `Food: 97.50%`. A need
/// with no range has no share: the line then reads `inf%` where something is
/// left, and `NaN%` where nothing is.
pub open spec fn share_line(label: Seq<char>, current: u32, max: u32) -> Seq<char> {
    if max > 0 {
        percent_line(label, share_hundredths(current, max))
    } else if current > 0 {
        label + ": inf%"@
    } else {
        label + ": NaN%"@
    }
}

/// Writes the line that tells how full a need is.
pub fn share_text(label: &str, current: u32, max: u32) -> (text: String)
    ensures
        text@ == share_line(label@, current, max),
{
    if max > 0 {
        let hundredths: u64 = (current as u64 * 10_000 + max as u64 / 2) / max as u64;
        percent_text(label, hundredths)
    } else if current > 0 {
        let mut text = String::from_str(label);
        text.append(": inf%");
        text
    } else {
        let mut text = String::from_str(label);
        text.append(": NaN%");
        text
    }
}

impl Status {
    /// The lines of the panel: one for each need that the agent has, food
    /// first, then entertainment, then sleep.
    pub open spec fn spec_info_panel(&self) -> Seq<Seq<char>> {
        let food = match self.needs_food {
            Some(need) => seq![share_line("Food"@, need.current, need.max)],
            None => seq![],
        };
        let entertainment = match self.needs_entertainment {
            Some(need) => seq![share_line("Entertainment"@, need.current, need.max)],
            None => seq![],
        };
        let sleep = match self.needs_sleep {
            Some(need) => seq![share_line("Sleep"@, need.current, need.max)],
            None => seq![],
        };
        food + entertainment + sleep
    }
}

/// The texts that a list of strings holds.
pub open spec fn texts(lines: Seq<String>) -> Seq<Seq<char>> {
    Seq::new(lines.len(), |i: int| lines[i]@)
}

impl InfoPanel for Status {
    fn info_panel(&self) -> (lines: Vec<String>)
        ensures
            texts(lines@) == self.spec_info_panel(),
    {
        let mut info_lines: Vec<String> = Vec::new();
        if let Some(need) = self.needs_food {
            info_lines.push(share_text("Food", need.current, need.max));
        }
        if let Some(need) = self.needs_entertainment {
            info_lines.push(share_text("Entertainment", need.current, need.max));
        }
        if let Some(need) = self.needs_sleep {
            info_lines.push(share_text("Sleep", need.current, need.max));
        }
        assert(texts(info_lines@) =~= self.spec_info_panel());
        info_lines
    }
}

} // verus!
