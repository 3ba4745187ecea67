use vstd::prelude::*;
use crate::player::PlayerId;

verus! {

/// A milestone that players can claim.
pub trait Milestone {
    /// The milestone's name.
    fn name(&self) -> &str;

    /// Whether a player may claim the milestone.
    fn can_claim(&self, player_id: PlayerId) -> bool;

    /// The currency cost to claim the milestone.
    fn cost(&self) -> i32;
}

/// A claimed milestone and its claimant.
#[derive(Debug, Clone)]
pub struct ClaimedMilestone {
    pub player_id: PlayerId,
    pub milestone_name: String,
}

/// A milestone's name and cost; every player may claim it.
#[derive(Debug, Clone)]
pub struct MilestoneData {
    pub name: String,
    pub cost: i32,
}

impl Milestone for MilestoneData {
    fn name(&self) -> (r: &str)
        ensures
            r@ == self.name@,
    {
        self.name.as_str()
    }

    fn can_claim(&self, player_id: PlayerId) -> (r: bool)
        ensures
            r,
    {
        true
    }

    fn cost(&self) -> (r: i32)
        ensures
            r == self.cost,
    {
        self.cost
    }
}

} // verus!
