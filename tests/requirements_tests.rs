#![allow(unused_imports, unused_variables, unused_mut)]

use simulation::{
    Action, ActionCard, ActionExecutor, Behavior, BehaviorExecutor, Board, BoardType, Card,
    CardCustomization, CardDiscount, CardPlay, CardRegistry, CardRequirements, CardResource,
    CardType, ClaimedMilestone, DeferredAction, DeferredActionQueue, DeferredActionResult,
    DraftType, DrawCardsDeferred, FundedAward, AwardData, GainResourcesDeferred, Game,
    GlobalParameter, GlobalParameterChange, GlobalParameters, MilestoneData, MinimalCard,
    PassDirection, Payment, PaymentMethod, Phase, Player, Priority, ProductionChange, Production,
    Resource, Resources, SeededRandom, SelectPaymentDeferred, SimpleDeferredAction, Space,
    SpaceBonus, SpaceType, StandardActions, StandardProjectEffect, StandardProjectParams,
    StandardProjectType, StandardProjects, StockChange, Tag, Tags, Tile, WinCondition,
    register_base_game_automated_cards, MAX_OCEANS, MAX_OXYGEN, MAX_TEMPERATURE, MAX_VENUS,
    MIN_TEMPERATURE,
};

#[test]
fn test_tag_requirement() {
    let game = Game::new(
        "test".to_string(),
        vec!["Player 1".to_string()],
        12345,
        BoardType::Tharsis,
        false, false, false, false, false, false, false, false,
    );
    let player = &game.players[0];
    let card = Card::new("test".to_string(), "Test".to_string(), CardType::Automated);

    // Player has no science tags
    let requirements = CardRequirements::new()
        .with_tag_requirement(Tag::Science, 2);
    assert!(requirements.satisfies(player, &game).is_err());

    // Add science tags to player
    let mut player = game.players[0].clone();
    player.tags.add(Tag::Science, 2);
    assert!(requirements.satisfies(&player, &game).is_ok());
}

#[test]
fn test_global_parameter_requirement_minimum() {
    let mut game = Game::new(
        "test".to_string(),
        vec!["Player 1".to_string()],
        12345,
        BoardType::Tharsis,
        false, false, false, false, false, false, false, false,
    );
    let player = &game.players[0];
    let card = Card::new("test".to_string(), "Test".to_string(), CardType::Automated);

    // Requires 4 oceans, but we have 0
    let requirements = CardRequirements::new()
        .with_global_parameter_requirement(GlobalParameter::Oceans, 4, false);
    assert!(requirements.satisfies(player, &game).is_err());

    // Add 4 oceans
    game.global_parameters.increase(GlobalParameter::Oceans, 4);
    assert!(requirements.satisfies(player, &game).is_ok());
}

#[test]
fn test_global_parameter_requirement_maximum() {
    let mut game = Game::new(
        "test".to_string(),
        vec!["Player 1".to_string()],
        12345,
        BoardType::Tharsis,
        false, false, false, false, false, false, false, false,
    );
    let player = &game.players[0];
    let card = Card::new("test".to_string(), "Test".to_string(), CardType::Automated);

    // Requires oxygen to be 9 or less, we have 0 (ok)
    let requirements = CardRequirements::new()
        .with_global_parameter_requirement(GlobalParameter::Oxygen, 9, true);
    assert!(requirements.satisfies(player, &game).is_ok());

    // Increase oxygen to 10 (fails requirement)
    game.global_parameters.increase(GlobalParameter::Oxygen, 10);
    assert!(requirements.satisfies(player, &game).is_err());
}
