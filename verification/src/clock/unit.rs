//! The clock unit: programmed once, with a valid plan, or not at all.

use vstd::prelude::*;
use crate::clock::error::ClockError;
use crate::clock::plan::{ClockPlan, ClockTree};

verus! {

/// The clock unit of the microcontroller, as far as this firmware programs
/// it: untouched since reset, or running the one plan it was given.
///
/// The unit takes a plan once. A plan that breaks a rule leaves it as it
/// was, and so does any plan offered after the first that was taken.
pub struct ClockUnit {
    running: Option<(ClockPlan, ClockTree)>,
}

impl View for ClockUnit {
    type V = Option<ClockPlan>;

    /// The plan the unit runs; `None` while it is untouched since reset.
    closed spec fn view(&self) -> Option<ClockPlan> {
        match self.running {
            Some((plan, _)) => Some(plan),
            None => None,
        }
    }
}

impl ClockUnit {
    /// What the unit runs is a valid plan, held together with the
    /// frequencies it gives.
    #[verifier::type_invariant]
    closed spec fn inv(&self) -> bool {
        self.running matches Some((plan, tree)) ==> plan.valid() && tree == plan.tree()
            && tree.within(plan.voltage_scale)
    }

    /// The clock unit as it comes out of reset.
    pub fn new() -> (unit: ClockUnit)
        ensures
            unit@ is None,
    {
        ClockUnit { running: None }
    }

    /// Programs the unit with `plan`.
    ///
    /// Succeeds where the unit is untouched since reset and the plan is
    /// valid. Otherwise the unit stays exactly as it was: a unit that runs
    /// a plan refuses with `AlreadyConfigured` before it looks at the new
    /// one, and an invalid plan is refused with the first rule it breaks.
    pub fn configure(&mut self, plan: &ClockPlan) -> (r: Result<(), ClockError>)
        ensures
            match r {
                Ok(()) => old(self)@ is None && plan.valid() && final(self)@ == Some(*plan),
                Err(e) => final(self)@ == old(self)@ && if old(self)@ is Some {
                    e == ClockError::AlreadyConfigured
                } else {
                    plan.error() == Some(e)
                },
            },
    {
        if self.running.is_some() {
            return Err(ClockError::AlreadyConfigured);
        }
        match plan.derive() {
            Ok(tree) => {
                self.running = Some((*plan, tree));
                Ok(())
            },
            Err(e) => Err(e),
        }
    }

    /// Tells whether the unit runs a plan.
    pub fn is_configured(&self) -> (yes: bool)
        ensures
            yes == self@ is Some,
    {
        self.running.is_some()
    }

    /// The plan the unit runs, if any. A plan that the unit runs is valid.
    pub fn plan(&self) -> (plan: Option<ClockPlan>)
        ensures
            plan == self@,
            plan matches Some(p) ==> p.valid(),
    {
        proof {
            use_type_invariant(self);
        }
        match self.running {
            Some((plan, _)) => Some(plan),
            None => None,
        }
    }

    /// The frequencies of the plan the unit runs, if any. They lie within
    /// what the hardware is specified for at the plan's voltage scale.
    pub fn clocks(&self) -> (tree: Option<ClockTree>)
        ensures
            match tree {
                Some(tree) => self@ matches Some(plan) && tree == plan.tree() && tree.within(
                    plan.voltage_scale,
                ),
                None => self@ is None,
            },
    {
        proof {
            use_type_invariant(self);
        }
        match self.running {
            Some((_, tree)) => Some(tree),
            None => None,
        }
    }
}

} // verus!
