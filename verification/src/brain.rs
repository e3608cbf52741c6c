use vstd::prelude::*;
use crate::motivation::{is_resolution, resolve_motivation, Motivation};
use crate::status::Status;
use crate::task::{dispatch_task, spec_dispatch, Task};

verus! {

/// What an agent has in mind: what drives it, what it does, and an order
/// from outside that overrides both while it stands.
#[derive(Clone, Debug)]
pub struct Brain {
    pub motivation: Option<Motivation>,
    pub task: Option<Task>,
    pub order: Option<String>,
}

impl Brain {
    /// A mind with nothing in it.
    pub open spec fn is_blank(&self) -> bool {
        self.motivation is None && self.task is None && self.order is None
    }

    /// Clears motivation, task and order at once, so that the next tick
    /// starts from nothing.
    pub fn remotivate(&mut self)
        ensures
            final(self).is_blank(),
    {
        self.motivation = None;
        self.task = None;
        self.order = None;
    }

    /// Takes note that the task is done. What drives the agent stays, so
    /// that the next tick chooses a task for it anew.
    pub fn complete_task(&mut self)
        ensures
            final(self).task is None,
            final(self).motivation == old(self).motivation,
            final(self).order == old(self).order,
    {
        self.task = None;
    }

    /// One tick of thought: resolves the motivation from the agent's state,
    /// the standing order and the signals from outside, then chooses the task
    /// that goes with it. Afterwards the agent has exactly one motivation and
    /// one task.
    pub fn think(&mut self, status: &Status, signals: &Vec<Motivation>)
        ensures
            final(self).order == old(self).order,
            final(self).motivation is Some,
            is_resolution(*status, old(self).order is Some, signals@, final(self).motivation->0),
            final(self).task == Some(
                spec_dispatch(
                    old(self).task,
                    old(self).motivation,
                    final(self).motivation->0,
                    old(self).order is Some,
                ),
            ),
            old(self).order is Some ==> final(self).task == Some(Task::Order),
    {
        let order_present = self.order.is_some();
        let motivation = resolve_motivation(status, order_present, signals);
        let task = dispatch_task(self.task, self.motivation, motivation, order_present);
        self.motivation = Some(motivation);
        self.task = Some(task);
    }
}

impl Default for Brain {
    fn default() -> (brain: Brain)
        ensures
            brain.is_blank(),
    {
        Brain { motivation: None, task: None, order: None }
    }
}

} // verus!
