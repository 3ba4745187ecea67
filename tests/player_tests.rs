#![allow(unused_imports, unused_variables, unused_mut)]

use simulation::{
    Action, ActionCard, ActionExecutor, Behavior, BehaviorExecutor, Board, BoardType, Card,
    CardCustomization, CardDiscount, CardPlay, CardRegistry, CardRequirements, CardResource,
    CardType, ClaimedMilestone, DeferredAction, DeferredActionQueue, DeferredActionResult,
    DraftType, DrawCardsDeferred, FundedAward, AwardData, GainResourcesDeferred, Game,
    GlobalParameter, GlobalParameterChange, GlobalParameters, MilestoneData, MinimalCard,
    PassDirection, Payment, PaymentMethod, Phase, Player, Priority, ProductionChange, Production,
    Resource, Resources, SeededRandom, SelectPaymentDeferred, SimpleDeferredAction, Space,
    SpaceBonus, SpaceType, StandardActions, StandardProjectEffect, StandardProjectParams,
    StandardProjectType, StandardProjects, StockChange, Tag, Tags, Tile, WinCondition,
    register_base_game_automated_cards, MAX_OCEANS, MAX_OXYGEN, MAX_TEMPERATURE, MAX_VENUS,
    MIN_TEMPERATURE,
};

#[test]
fn test_player_creation() {
    let player = Player::new("p1".to_string(), "Player 1".to_string());
    assert_eq!(player.terraform_rating, 20);
    assert_eq!(player.resources.megacredits, 0);
}

#[test]
fn test_card_hand_management() {
    let mut player = Player::new("p1".to_string(), "Player 1".to_string());
    
    player.add_card_to_hand("card1".to_string());
    assert_eq!(player.cards_in_hand.len(), 1);
    
    assert!(player.remove_card_from_hand("card1"));
    assert_eq!(player.cards_in_hand.len(), 0);
}
