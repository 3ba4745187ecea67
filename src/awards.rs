use vstd::prelude::*;
use crate::player::PlayerId;

verus! {

/// An award that players can fund.
pub trait Award {
    /// The award's name.
    fn name(&self) -> &str;

    /// The currency cost to fund the award.
    fn funding_cost(&self) -> i32;

    /// The score of a player towards the award.
    fn calculate_score(&self, player_id: PlayerId) -> i32;
}

/// A funded award and its funder.
#[derive(Debug, Clone)]
pub struct FundedAward {
    pub player_id: PlayerId,
    pub award_name: String,
}

/// An award's name and funding cost; it scores every player 0.
#[derive(Debug, Clone)]
pub struct AwardData {
    pub name: String,
    pub funding_cost: i32,
}

impl Award for AwardData {
    fn name(&self) -> (r: &str)
        ensures
            r@ == self.name@,
    {
        self.name.as_str()
    }

    fn funding_cost(&self) -> (r: i32)
        ensures
            r == self.funding_cost,
    {
        self.funding_cost
    }

    fn calculate_score(&self, player_id: PlayerId) -> (r: i32)
        ensures
            r == 0,
    {
        0
    }
}

} // verus!
