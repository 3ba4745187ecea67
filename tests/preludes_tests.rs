#![allow(unused_imports, unused_variables, unused_mut)]

use simulation::{
    Action, ActionCard, ActionExecutor, Behavior, BehaviorExecutor, Board, BoardType, Card,
    CardCustomization, CardDiscount, CardPlay, CardRegistry, CardRequirements, CardResource,
    CardType, ClaimedMilestone, DeferredAction, DeferredActionQueue, DeferredActionResult,
    DraftType, DrawCardsDeferred, FundedAward, AwardData, GainResourcesDeferred, Game,
    GlobalParameter, GlobalParameterChange, GlobalParameters, MilestoneData, MinimalCard,
    PassDirection, Payment, PaymentMethod, Phase, Player, Priority, ProductionChange, Production,
    Resource, Resources, SeededRandom, SelectPaymentDeferred, SimpleDeferredAction, Space,
    SpaceBonus, SpaceType, StandardActions, StandardProjectEffect, StandardProjectParams,
    StandardProjectType, StandardProjects, StockChange, Tag, Tags, Tile, WinCondition,
    register_base_game_automated_cards, MAX_OCEANS, MAX_OXYGEN, MAX_TEMPERATURE, MAX_VENUS,
    MIN_TEMPERATURE,
};

#[test]
fn test_start_preludes_phase() {
    let mut game = Game::new(
        "game1".to_string(),
        vec!["Player 1".to_string(), "Player 2".to_string()],
        12345,
        BoardType::Tharsis,
        false, false, false, true, false, false, false, false, // prelude enabled
    );

    // Set up selected preludes for both players
    game.players[0].selected_preludes = vec!["prelude1".to_string(), "prelude2".to_string()];
    game.players[1].selected_preludes = vec!["prelude3".to_string(), "prelude4".to_string()];

    // Start preludes phase
    game.start_preludes_phase().unwrap();

    // Should have active player set
    assert!(game.active_player_id.is_some());
}

#[test]
fn test_start_preludes_phase_missing_preludes() {
    let mut game = Game::new(
        "game1".to_string(),
        vec!["Player 1".to_string()],
        12345,
        BoardType::Tharsis,
        false, false, false, true, false, false, false, false, // prelude enabled
    );

    // Player hasn't selected preludes
    game.players[0].selected_preludes = vec!["prelude1".to_string()];

    // Should fail
    let result = game.start_preludes_phase();
    assert!(result.is_err());
}

#[test]
fn test_play_prelude() {
    let mut game = Game::new(
        "game1".to_string(),
        vec!["Player 1".to_string()],
        12345,
        BoardType::Tharsis,
        false, false, false, true, false, false, false, false, // prelude enabled
    );

    // Set up selected preludes
    game.players[0].selected_preludes = vec!["prelude1".to_string(), "prelude2".to_string()];
    game.start_preludes_phase().unwrap();

    // Play first prelude
    game.play_prelude(&"p1".to_string(), "prelude1".to_string())
        .unwrap();

    // Should be in played cards
    assert!(game.players[0].played_cards.contains(&"prelude1".to_string()));
    assert!(!game.has_played_all_preludes(&"p1".to_string()));

    // Play second prelude
    game.play_prelude(&"p1".to_string(), "prelude2".to_string())
        .unwrap();

    // Should have played all preludes
    assert!(game.has_played_all_preludes(&"p1".to_string()));
}

#[test]
fn test_play_prelude_invalid() {
    let mut game = Game::new(
        "game1".to_string(),
        vec!["Player 1".to_string()],
        12345,
        BoardType::Tharsis,
        false, false, false, true, false, false, false, false, // prelude enabled
    );

    // Set up selected preludes
    game.players[0].selected_preludes = vec!["prelude1".to_string(), "prelude2".to_string()];
    game.start_preludes_phase().unwrap();

    // Try to play invalid prelude
    let result = game.play_prelude(&"p1".to_string(), "invalid_prelude".to_string());
    assert!(result.is_err());
}

#[test]
fn test_play_prelude_already_played() {
    let mut game = Game::new(
        "game1".to_string(),
        vec!["Player 1".to_string()],
        12345,
        BoardType::Tharsis,
        false, false, false, true, false, false, false, false, // prelude enabled
    );

    // Set up selected preludes
    game.players[0].selected_preludes = vec!["prelude1".to_string(), "prelude2".to_string()];
    game.start_preludes_phase().unwrap();

    // Play prelude
    game.play_prelude(&"p1".to_string(), "prelude1".to_string())
        .unwrap();

    // Try to play same prelude again
    let result = game.play_prelude(&"p1".to_string(), "prelude1".to_string());
    assert!(result.is_err());
}

#[test]
fn test_all_players_played_preludes() {
    let mut game = Game::new(
        "game1".to_string(),
        vec!["Player 1".to_string(), "Player 2".to_string()],
        12345,
        BoardType::Tharsis,
        false, false, false, true, false, false, false, false, // prelude enabled
    );

    // Set up selected preludes
    game.players[0].selected_preludes = vec!["prelude1".to_string(), "prelude2".to_string()];
    game.players[1].selected_preludes = vec!["prelude3".to_string(), "prelude4".to_string()];
    game.start_preludes_phase().unwrap();

    // Initially, not all players have played
    assert!(!game.all_players_played_preludes());

    // Player 1 plays both preludes
    game.play_prelude(&"p1".to_string(), "prelude1".to_string())
        .unwrap();
    game.play_prelude(&"p1".to_string(), "prelude2".to_string())
        .unwrap();

    // Still not all (Player 2 hasn't played)
    assert!(!game.all_players_played_preludes());

    // Player 2 plays both preludes
    game.play_prelude(&"p2".to_string(), "prelude3".to_string())
        .unwrap();
    game.play_prelude(&"p2".to_string(), "prelude4".to_string())
        .unwrap();

    // Now all players have played
    assert!(game.all_players_played_preludes());
}

#[test]
fn test_complete_preludes_phase() {
    let mut game = Game::new(
        "game1".to_string(),
        vec!["Player 1".to_string()],
        12345,
        BoardType::Tharsis,
        false, false, false, true, false, false, false, false, // prelude enabled
    );

    // Set up selected preludes
    game.players[0].selected_preludes = vec!["prelude1".to_string(), "prelude2".to_string()];
    game.start_preludes_phase().unwrap();

    // Play both preludes
    game.play_prelude(&"p1".to_string(), "prelude1".to_string())
        .unwrap();
    game.play_prelude(&"p1".to_string(), "prelude2".to_string())
        .unwrap();

    // Complete preludes phase
    game.complete_preludes_phase().unwrap();

    // Should transition to action phase
    assert_eq!(game.phase, Phase::Action);
}

#[test]
fn test_advance_prelude_turn() {
    let mut game = Game::new(
        "game1".to_string(),
        vec!["Player 1".to_string(), "Player 2".to_string()],
        12345,
        BoardType::Tharsis,
        false, false, false, true, false, false, false, false, // prelude enabled
    );

    // Set up selected preludes
    game.players[0].selected_preludes = vec!["prelude1".to_string(), "prelude2".to_string()];
    game.players[1].selected_preludes = vec!["prelude3".to_string(), "prelude4".to_string()];
    game.start_preludes_phase().unwrap();

    // Initially, Player 1 is active
    assert_eq!(game.active_player_id, Some("p1".to_string()));

    // Player 1 plays first prelude
    game.play_prelude(&"p1".to_string(), "prelude1".to_string())
        .unwrap();
    game.advance_prelude_turn().unwrap();
    // Still Player 1 (hasn't played second prelude)
    assert_eq!(game.active_player_id, Some("p1".to_string()));

    // Player 1 plays second prelude
    game.play_prelude(&"p1".to_string(), "prelude2".to_string())
        .unwrap();
    game.advance_prelude_turn().unwrap();
    // Should move to Player 2
    assert_eq!(game.active_player_id, Some("p2".to_string()));

    // Player 2 plays both preludes
    game.play_prelude(&"p2".to_string(), "prelude3".to_string())
        .unwrap();
    game.play_prelude(&"p2".to_string(), "prelude4".to_string())
        .unwrap();
    game.advance_prelude_turn().unwrap();
    // Should transition to action phase
    assert_eq!(game.phase, Phase::Action);
}
