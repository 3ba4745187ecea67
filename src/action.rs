use vstd::prelude::*;
use crate::minimal_card::CardId;
use crate::payment::Payment;

verus! {

/// Identifier of a milestone.
pub type MilestoneId = String;

/// Identifier of an award.
pub type AwardId = String;

/// The standard projects.
#[derive(Debug, Clone, Copy, PartialEq, Eq, Structural)]
pub enum StandardProjectType {
    /// Discard cards from hand for 1 currency each.
    SellPatents,
    /// One energy production.
    PowerPlant,
    /// One temperature step.
    Asteroid,
    /// One ocean.
    Aquifer,
    /// One greenery, raising oxygen.
    Greenery,
    /// One city.
    City,
}

/// Extra parameters of a standard project.
#[derive(Debug, Clone, PartialEq, Eq)]
pub struct StandardProjectParams {
    /// Cards to discard for Sell Patents.
    pub card_ids: Vec<CardId>,
}

impl Default for StandardProjectParams {
    fn default() -> (r: Self)
        ensures
            r.card_ids@.len() == 0,
    {
        StandardProjectParams { card_ids: Vec::new() }
    }
}

/// What a player can do on their turn.
#[derive(Debug, Clone, PartialEq, Eq)]
pub enum Action {
    PlayCard { card_id: CardId, payment: Payment },
    StandardProject {
        project_type: StandardProjectType,
        payment: Payment,
        params: StandardProjectParams,
    },
    /// Ends the player's participation in this action round.
    Pass,
    /// Spend 8 plants for a greenery, raising oxygen.
    ConvertPlants,
    /// Spend 8 heat to raise the terraform rating by 1.
    ConvertHeat,
    FundAward { award_id: AwardId, payment: Payment },
    ClaimMilestone { milestone_id: MilestoneId, payment: Payment },
}

impl Action {
    /// Whether this is the pass action.
    pub fn is_pass(&self) -> (r: bool)
        ensures
            r == self is Pass,
    {
        match self {
            Action::Pass => true,
            _ => false,
        }
    }
}

} // verus!
