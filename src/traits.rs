use vstd::prelude::*;
use crate::card::Card;
use crate::error::GameError;
use crate::game::Game;
use crate::player::Player;

verus! {

/// Customization points of cards with special rules.
pub trait CardCustomization {
    /// Runs when the card is played.
    fn on_card_played(&self, player: &mut Player, game: &mut Game) -> Result<(), GameError> {
        Ok(())
    }

    /// Discount this card grants on playing `card`.
    fn get_card_discount(&self, player: &Player, card: &Card) -> u32 {
        0
    }

    /// Victory points computed by the card itself.
    fn get_victory_points(&self, player: &Player) -> i32 {
        0
    }
}

/// Cards with an action.
pub trait ActionCard {
    /// Whether the action can be used now.
    fn can_act(&self, player: &Player, game: &Game) -> bool {
        true
    }

    /// Uses the action.
    fn action(&self, player: &mut Player, game: &mut Game) -> Result<(), GameError> {
        Ok(())
    }
}

/// Cards that discount other cards.
pub trait CardDiscount {
    /// The discount on playing `card`.
    fn get_discount(&self, player: &Player, card: &Card) -> u32 {
        0
    }
}

/// Cards that react to other plays.
pub trait CardInteraction {
    /// Runs when another card is played.
    fn on_card_played(
        &self,
        owner: &mut Player,
        played_card: &Card,
        active_player: &Player,
        game: &mut Game,
    ) -> Result<(), GameError> {
        Ok(())
    }

    /// Runs when a standard project is executed.
    fn on_standard_project(&self, owner: &mut Player, project_type: &str, game: &mut Game) -> Result<
        (),
        GameError,
    > {
        Ok(())
    }
}

impl CardCustomization for Card {

}

impl ActionCard for Card {

}

impl CardDiscount for Card {

}

impl CardInteraction for Card {

}

} // verus!
