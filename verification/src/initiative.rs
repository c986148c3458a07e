//! Initiative: the token that lets an ant do one thing of consequence per tick.

use vstd::prelude::*;

verus! {

/// The permission to act this tick. It is spent by acting and handed out again by the
/// next tick's eligibility pass.
#[derive(Clone, Copy, Debug, PartialEq, Eq, Structural)]
pub struct Initiative {
    has_action: bool,
}

impl View for Initiative {
    type V = bool;

    /// Whether the ant may still act this tick.
    closed spec fn view(&self) -> bool {
        self.has_action
    }
}

impl Initiative {
    /// The initiative of a newly made ant, which waits for the next eligibility pass.
    pub fn new() -> (initiative: Initiative)
        ensures
            !initiative@,
    {
        Initiative { has_action: false }
    }

    pub fn can_act(&self) -> (can_act: bool)
        ensures
            can_act == self@,
    {
        self.has_action
    }

    /// Spends the token. Only an ant that can act has one to spend.
    pub fn consume(&mut self)
        requires
            old(self)@,
        ensures
            !final(self)@,
    {
        self.has_action = false;
    }

    /// Hands the token out again.
    pub fn refresh(&mut self)
        ensures
            final(self)@,
    {
        self.has_action = true;
    }
}

} // verus!
