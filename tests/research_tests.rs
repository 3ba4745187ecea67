#![allow(unused_imports, unused_variables, unused_mut)]

use simulation::{
    Action, ActionCard, ActionExecutor, Behavior, BehaviorExecutor, Board, BoardType, Card,
    CardCustomization, CardDiscount, CardPlay, CardRegistry, CardRequirements, CardResource,
    CardType, ClaimedMilestone, DeferredAction, DeferredActionQueue, DeferredActionResult,
    DraftType, DrawCardsDeferred, FundedAward, AwardData, GainResourcesDeferred, Game,
    GlobalParameter, GlobalParameterChange, GlobalParameters, MilestoneData, MinimalCard,
    PassDirection, Payment, PaymentMethod, Phase, Player, Priority, ProductionChange, Production,
    Resource, Resources, SeededRandom, SelectPaymentDeferred, SimpleDeferredAction, Space,
    SpaceBonus, SpaceType, StandardActions, StandardProjectEffect, StandardProjectParams,
    StandardProjectType, StandardProjects, StockChange, Tag, Tags, Tile, WinCondition,
    register_base_game_automated_cards, MAX_OCEANS, MAX_OXYGEN, MAX_TEMPERATURE, MAX_VENUS,
    MIN_TEMPERATURE,
};

#[test]
fn test_initial_research_phase() {
    let mut game = Game::new(
        "game1".to_string(),
        vec!["Player 1".to_string(), "Player 2".to_string()],
        12345,
        BoardType::Tharsis,
        false, false, false, false, false, false, false, false,);

    // Start initial research phase
    game.start_research_phase().unwrap();

    // Both players should have dealt corporation cards
    assert_eq!(game.players[0].dealt_corporation_cards.len(), 2);
    assert_eq!(game.players[1].dealt_corporation_cards.len(), 2);
}

#[test]
fn test_corporation_selection() {
    let mut game = Game::new(
        "game1".to_string(),
        vec!["Player 1".to_string()],
        12345,
        BoardType::Tharsis,
        false, false, false, false, false, false, false, false,);

    // Start initial research phase
    game.start_research_phase().unwrap();

    let corp_id = game.players[0].dealt_corporation_cards[0].clone();
    let initial_mc = game.players[0].resources.megacredits;

    // Select corporation
    game.select_corporation(&"p1".to_string(), corp_id.clone()).unwrap();

    // Corporation should be selected
    assert_eq!(game.players[0].selected_corporation, Some(corp_id.clone()));
    
    // Starting resources should be applied (42 M€)
    assert_eq!(game.players[0].resources.megacredits, initial_mc + 42);
    
    // Corporation should be removed from dealt cards
    assert!(!game.players[0].dealt_corporation_cards.contains(&corp_id));
}

#[test]
fn test_corporation_selection_invalid() {
    let mut game = Game::new(
        "game1".to_string(),
        vec!["Player 1".to_string()],
        12345,
        BoardType::Tharsis,
        false, false, false, false, false, false, false, false,);

    // Start initial research phase
    game.start_research_phase().unwrap();

    // Try to select invalid corporation
    let result = game.select_corporation(&"p1".to_string(), "invalid_corp".to_string());
    assert!(result.is_err());
}

#[test]
fn test_prelude_selection() {
    let mut game = Game::new(
        "game1".to_string(),
        vec!["Player 1".to_string()],
        12345,
        BoardType::Tharsis,
        false, false, false, true, false, false, false, false, // prelude enabled
    );

    // Start research phase to deal preludes
    game.start_research_phase().unwrap();

    // Should have 4 dealt prelude cards
    assert_eq!(game.players[0].dealt_prelude_cards.len(), 4);

    let prelude1 = game.players[0].dealt_prelude_cards[0].clone();
    let prelude2 = game.players[0].dealt_prelude_cards[1].clone();
    let prelude3 = game.players[0].dealt_prelude_cards[2].clone();
    let prelude4 = game.players[0].dealt_prelude_cards[3].clone();

    // Select 2 preludes
    game.select_preludes(
        &"p1".to_string(),
        vec![prelude1.clone(), prelude2.clone()],
    )
    .unwrap();

    // Should have 2 selected preludes
    assert_eq!(game.players[0].selected_preludes.len(), 2);
    assert!(game.players[0].selected_preludes.contains(&prelude1));
    assert!(game.players[0].selected_preludes.contains(&prelude2));

    // Remaining 2 preludes should be discarded (removed from dealt_prelude_cards)
    assert_eq!(game.players[0].dealt_prelude_cards.len(), 2);
    assert!(game.players[0].dealt_prelude_cards.contains(&prelude3));
    assert!(game.players[0].dealt_prelude_cards.contains(&prelude4));
}

#[test]
fn test_prelude_selection_wrong_count() {
    let mut game = Game::new(
        "game1".to_string(),
        vec!["Player 1".to_string()],
        12345,
        BoardType::Tharsis,
        false, false, false, true, false, false, false, false, // prelude enabled
    );

    // Try to select wrong number of preludes
    let result = game.select_preludes(&"p1".to_string(), vec!["prelude1".to_string()]);
    assert!(result.is_err());
}

#[test]
fn test_project_card_selection_generation_1() {
    let mut game = Game::new(
        "game1".to_string(),
        vec!["Player 1".to_string()],
        12345,
        BoardType::Tharsis,
        false, false, false, false, false, false, false, false,);

    // Generation 1: Cards come from drafted cards (in cards_in_hand)
    // Add cards to hand (simulating drafted cards from initial draft)
    game.players[0].cards_in_hand = vec![
        "card1".to_string(),
        "card2".to_string(),
        "card3".to_string(),
        "card4".to_string(),
        "card5".to_string(),
    ];

    // Give player some megacredits
    game.players[0].resources.megacredits = 50;
    let initial_mc = game.players[0].resources.megacredits;

    // Select 3 cards
    game.select_project_cards(
        &"p1".to_string(),
        vec!["card1".to_string(), "card2".to_string(), "card3".to_string()],
    )
    .unwrap();

    // Should have 3 cards in hand (selected ones)
    assert_eq!(game.players[0].cards_in_hand.len(), 3);
    
    // Should pay 3 M€ per card (9 total)
    assert_eq!(game.players[0].resources.megacredits, initial_mc - 9);
}

#[test]
fn test_project_card_selection_generation_2() {
    let mut game = Game::new(
        "game1".to_string(),
        vec!["Player 1".to_string()],
        12345,
        BoardType::Tharsis,
        false, false, false, false, false, false, false, false,);

    // Set generation to 2 (standard research phase)
    game.generation = 2;

    // Start standard research phase (draws 4 cards to drafted_cards)
    game.start_research_phase().unwrap();

    // Should have 4 cards in drafted_cards
    assert_eq!(game.players[0].drafted_cards.len(), 4);

    // Player has some existing cards in hand
    game.players[0].cards_in_hand = vec!["existing_card1".to_string(), "existing_card2".to_string()];
    let initial_hand_size = game.players[0].cards_in_hand.len();

    // Give player some megacredits
    game.players[0].resources.megacredits = 50;
    let initial_mc = game.players[0].resources.megacredits;

    let card1 = game.players[0].drafted_cards[0].clone();
    let card2 = game.players[0].drafted_cards[1].clone();
    let card3 = game.players[0].drafted_cards[2].clone();

    // Select 3 cards from drafted_cards
    game.select_project_cards(
        &"p1".to_string(),
        vec![card1.clone(), card2.clone(), card3.clone()],
    )
    .unwrap();

    // Should have initial hand cards + 3 selected cards
    assert_eq!(game.players[0].cards_in_hand.len(), initial_hand_size + 3);
    assert!(game.players[0].cards_in_hand.contains(&card1));
    assert!(game.players[0].cards_in_hand.contains(&card2));
    assert!(game.players[0].cards_in_hand.contains(&card3));

    // Should have 1 card left in drafted_cards (the unselected one)
    assert_eq!(game.players[0].drafted_cards.len(), 1);
    
    // Should pay 3 M€ per card (9 total)
    assert_eq!(game.players[0].resources.megacredits, initial_mc - 9);
}

#[test]
fn test_project_card_selection_too_many() {
    let mut game = Game::new(
        "game1".to_string(),
        vec!["Player 1".to_string()],
        12345,
        BoardType::Tharsis,
        false, false, false, false, false, false, false, false,);

    // Try to select more than 10 cards
    let result = game.select_project_cards(
        &"p1".to_string(),
        (0..11).map(|i| format!("card{i}")).collect(),
    );
    assert!(result.is_err());
}

#[test]
fn test_project_card_selection_cannot_afford_generation_1() {
    let mut game = Game::new(
        "game1".to_string(),
        vec!["Player 1".to_string()],
        12345,
        BoardType::Tharsis,
        false, false, false, false, false, false, false, false,);

    // Add cards to hand (simulating drafted cards)
    game.players[0].cards_in_hand = vec![
        "card1".to_string(),
        "card2".to_string(),
        "card3".to_string(),
    ];

    // Player has only 5 M€ (can't afford 3 cards = 9 M€)
    game.players[0].resources.megacredits = 5;

    // Try to select 3 cards (costs 9 M€, but only have 5)
    let result = game.select_project_cards(
        &"p1".to_string(),
        vec!["card1".to_string(), "card2".to_string(), "card3".to_string()],
    );
    assert!(result.is_err());
    assert!(result.unwrap_err().message().contains("Cannot afford"));

    // Cards should still be in hand (no changes made)
    assert_eq!(game.players[0].cards_in_hand.len(), 3);
    // Megacredits should be unchanged
    assert_eq!(game.players[0].resources.megacredits, 5);
}

#[test]
fn test_project_card_selection_cannot_afford_generation_2() {
    let mut game = Game::new(
        "game1".to_string(),
        vec!["Player 1".to_string()],
        12345,
        BoardType::Tharsis,
        false, false, false, false, false, false, false, false,);

    // Set generation to 2 (standard research phase)
    game.generation = 2;

    // Start standard research phase (draws 4 cards to drafted_cards)
    game.start_research_phase().unwrap();

    // Player has only 5 M€ (can't afford 3 cards = 9 M€)
    game.players[0].resources.megacredits = 5;

    let card1 = game.players[0].drafted_cards[0].clone();
    let card2 = game.players[0].drafted_cards[1].clone();
    let card3 = game.players[0].drafted_cards[2].clone();

    // Try to select 3 cards (costs 9 M€, but only have 5)
    let result = game.select_project_cards(
        &"p1".to_string(),
        vec![card1.clone(), card2.clone(), card3.clone()],
    );
    assert!(result.is_err());
    assert!(result.unwrap_err().message().contains("Cannot afford"));

    // Cards should still be in drafted_cards (no changes made)
    assert_eq!(game.players[0].drafted_cards.len(), 4);
    // Hand should be empty (no cards added)
    assert_eq!(game.players[0].cards_in_hand.len(), 0);
    // Megacredits should be unchanged
    assert_eq!(game.players[0].resources.megacredits, 5);
}

#[test]
fn test_research_phase_completion() {
    let mut game = Game::new(
        "game1".to_string(),
        vec!["Player 1".to_string()],
        12345,
        BoardType::Tharsis,
        false, false, false, false, false, false, false, false,);

    // Start initial research phase
    game.start_research_phase().unwrap();

    // Select corporation
    let corp_id = game.players[0].dealt_corporation_cards[0].clone();
    game.select_corporation(&"p1".to_string(), corp_id).unwrap();

    // Should be complete (no preludes in this test)
    assert!(game.is_research_phase_complete(&"p1".to_string()));
    assert!(game.all_players_research_complete());

    // Complete research phase
    game.complete_research_phase().unwrap();

    // Should transition to ACTION phase (no preludes)
    assert_eq!(game.phase, Phase::Action);
}

#[test]
fn test_research_phase_with_preludes() {
    let mut game = Game::new(
        "game1".to_string(),
        vec!["Player 1".to_string()],
        12345,
        BoardType::Tharsis,
        false, false, false, true, false, false, false, false, // prelude enabled
    );

    // Start initial research phase (deals 4 preludes)
    game.start_research_phase().unwrap();

    // Should have 4 dealt prelude cards
    assert_eq!(game.players[0].dealt_prelude_cards.len(), 4);

    let prelude1 = game.players[0].dealt_prelude_cards[0].clone();
    let prelude2 = game.players[0].dealt_prelude_cards[1].clone();

    // Select corporation
    let corp_id = game.players[0].dealt_corporation_cards[0].clone();
    game.select_corporation(&"p1".to_string(), corp_id).unwrap();

    // Select preludes (2 from the 4 dealt)
    game.select_preludes(
        &"p1".to_string(),
        vec![prelude1.clone(), prelude2.clone()],
    )
    .unwrap();

    // Should be complete
    assert!(game.is_research_phase_complete(&"p1".to_string()));

    // Complete research phase
    game.complete_research_phase().unwrap();

    // Should transition to PRELUDES phase
    assert_eq!(game.phase, Phase::Preludes);
}
