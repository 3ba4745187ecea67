#![allow(unused_imports, unused_variables, unused_mut)]

use simulation::{
    Action, ActionCard, ActionExecutor, Behavior, BehaviorExecutor, Board, BoardType, Card,
    CardCustomization, CardDiscount, CardPlay, CardRegistry, CardRequirements, CardResource,
    CardType, ClaimedMilestone, DeferredAction, DeferredActionQueue, DeferredActionResult,
    DraftType, DrawCardsDeferred, FundedAward, AwardData, GainResourcesDeferred, Game,
    GlobalParameter, GlobalParameterChange, GlobalParameters, MilestoneData, MinimalCard,
    PassDirection, Payment, PaymentMethod, Phase, Player, Priority, ProductionChange, Production,
    Resource, Resources, SeededRandom, SelectPaymentDeferred, SimpleDeferredAction, Space,
    SpaceBonus, SpaceType, StandardActions, StandardProjectEffect, StandardProjectParams,
    StandardProjectType, StandardProjects, StockChange, Tag, Tags, Tile, WinCondition,
    register_base_game_automated_cards, MAX_OCEANS, MAX_OXYGEN, MAX_TEMPERATURE, MAX_VENUS,
    MIN_TEMPERATURE,
};

#[test]
fn test_select_payment_deferred() {
    let mut game = Game::new(
        "test".to_string(),
        vec!["Player 1".to_string()],
        12345,
        BoardType::Tharsis,
        false, false, false, false, false, false, false, false,
    );
    
    // Give player enough M€
    game.players[0].resources.add(Resource::Megacredits, 10);
    
    let mut action = SelectPaymentDeferred::new("p1".to_string(), 5);
    let result = action.execute(&mut game).unwrap();
    assert_eq!(result, DeferredActionResult::Completed);
    assert_eq!(game.players[0].resources.megacredits, 5);
}

#[test]
fn test_select_payment_deferred_insufficient() {
    let mut game = Game::new(
        "test".to_string(),
        vec!["Player 1".to_string()],
        12345,
        BoardType::Tharsis,
        false, false, false, false, false, false, false, false,
    );
    
    // Player has insufficient M€
    game.players[0].resources.add(Resource::Megacredits, 3);
    
    let mut action = SelectPaymentDeferred::new("p1".to_string(), 5);
    let result = action.execute(&mut game).unwrap();
    assert_eq!(result, DeferredActionResult::NeedsInput);
}

#[test]
fn test_gain_resources_deferred() {
    let mut game = Game::new(
        "test".to_string(),
        vec!["Player 1".to_string()],
        12345,
        BoardType::Tharsis,
        false, false, false, false, false, false, false, false,
    );
    
    let mut action = GainResourcesDeferred::new("p1".to_string(), Resource::Steel, 5);
    let result = action.execute(&mut game).unwrap();
    assert_eq!(result, DeferredActionResult::Completed);
    assert_eq!(game.players[0].resources.steel, 5);
}

#[test]
fn test_draw_cards_deferred() {
    let mut game = Game::new(
        "test".to_string(),
        vec!["Player 1".to_string()],
        12345,
        BoardType::Tharsis,
        false, false, false, false, false, false, false, false,
    );
    
    let mut action = DrawCardsDeferred::new("p1".to_string(), 3);
    let result = action.execute(&mut game).unwrap();
    assert_eq!(result, DeferredActionResult::Completed);
    assert_eq!(game.players[0].cards_in_hand.len(), 3);
}
