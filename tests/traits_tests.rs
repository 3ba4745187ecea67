#![allow(unused_imports, unused_variables, unused_mut)]

use simulation::{
    Action, ActionCard, ActionExecutor, Behavior, BehaviorExecutor, Board, BoardType, Card,
    CardCustomization, CardDiscount, CardPlay, CardRegistry, CardRequirements, CardResource,
    CardType, ClaimedMilestone, DeferredAction, DeferredActionQueue, DeferredActionResult,
    DraftType, DrawCardsDeferred, FundedAward, AwardData, GainResourcesDeferred, Game,
    GlobalParameter, GlobalParameterChange, GlobalParameters, MilestoneData, MinimalCard,
    PassDirection, Payment, PaymentMethod, Phase, Player, Priority, ProductionChange, Production,
    Resource, Resources, SeededRandom, SelectPaymentDeferred, SimpleDeferredAction, Space,
    SpaceBonus, SpaceType, StandardActions, StandardProjectEffect, StandardProjectParams,
    StandardProjectType, StandardProjects, StockChange, Tag, Tags, Tile, WinCondition,
    register_base_game_automated_cards, MAX_OCEANS, MAX_OXYGEN, MAX_TEMPERATURE, MAX_VENUS,
    MIN_TEMPERATURE,
};

#[test]
fn test_card_customization_default() {
    let card = Card::new(
        "card1".to_string(),
        "Test Card".to_string(),
        CardType::Automated,
    );
    let mut game = Game::new(
        "test".to_string(),
        vec!["Player 1".to_string()],
        12345,
        BoardType::Tharsis,
        false, false, false, false, false, false, false, false,
    );
    let mut player = game.players[0].clone();
    
    // Default implementation should succeed
    assert!(CardCustomization::on_card_played(&card, &mut player, &mut game).is_ok());
}

#[test]
fn test_action_card_default() {
    let card = Card::new(
        "card1".to_string(),
        "Test Card".to_string(),
        CardType::Active,
    );
    let game = Game::new(
        "test".to_string(),
        vec!["Player 1".to_string()],
        12345,
        BoardType::Tharsis,
        false, false, false, false, false, false, false, false,
    );
    let player = game.players[0].clone();
    
    // Default implementation should allow action
    assert!(card.can_act(&player, &game));
}

#[test]
fn test_card_discount_default() {
    let card = Card::new(
        "card1".to_string(),
        "Test Card".to_string(),
        CardType::Automated,
    );
    let other_card = Card::new(
        "card2".to_string(),
        "Other Card".to_string(),
        CardType::Automated,
    );
    let game = Game::new(
        "test".to_string(),
        vec!["Player 1".to_string()],
        12345,
        BoardType::Tharsis,
        false, false, false, false, false, false, false, false,
    );
    let player = game.players[0].clone();
    
    // Default implementation should return 0 discount
    assert_eq!(card.get_discount(&player, &other_card), 0);
}
