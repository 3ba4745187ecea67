#![allow(unused_imports, unused_variables, unused_mut)]

use simulation::{
    Action, ActionCard, ActionExecutor, Behavior, BehaviorExecutor, Board, BoardType, Card,
    CardCustomization, CardDiscount, CardPlay, CardRegistry, CardRequirements, CardResource,
    CardType, ClaimedMilestone, DeferredAction, DeferredActionQueue, DeferredActionResult,
    DraftType, DrawCardsDeferred, FundedAward, AwardData, GainResourcesDeferred, Game,
    GlobalParameter, GlobalParameterChange, GlobalParameters, MilestoneData, MinimalCard,
    PassDirection, Payment, PaymentMethod, Phase, Player, Priority, ProductionChange, Production,
    Resource, Resources, SeededRandom, SelectPaymentDeferred, SimpleDeferredAction, Space,
    SpaceBonus, SpaceType, StandardActions, StandardProjectEffect, StandardProjectParams,
    StandardProjectType, StandardProjects, StockChange, Tag, Tags, Tile, WinCondition,
    register_base_game_automated_cards, MAX_OCEANS, MAX_OXYGEN, MAX_TEMPERATURE, MAX_VENUS,
    MIN_TEMPERATURE,
};

#[test]
fn test_play_card_basic() {
    let mut game = Game::new(
        "test".to_string(),
        vec!["Player 1".to_string()],
        12345,
        BoardType::Tharsis,
        false, false, false, false, false, false, false, false,
    );
    let mut player = game.players[0].clone();
    
    // Create a simple card
    let card = Card::new(
        "card1".to_string(),
        "Test Card".to_string(),
        CardType::Automated,
    ).with_cost(5);

    // Add card to hand
    player.add_card_to_hand("card1".to_string());
    player.resources.add(Resource::Megacredits, 10);

    // Create payment
    let payment = Payment::with_megacredits(5);

    // Play card
    CardPlay::play_card(&card, &mut player, &mut game, &payment).unwrap();

    // Verify card moved to played
    assert!(!player.cards_in_hand.contains(&"card1".to_string()));
    assert!(player.played_cards.contains(&"card1".to_string()));
    
    // Verify payment deducted
    assert_eq!(player.resources.megacredits, 5);
}

#[test]
fn test_play_card_with_behavior() {
    let mut game = Game::new(
        "test".to_string(),
        vec!["Player 1".to_string()],
        12345,
        BoardType::Tharsis,
        false, false, false, false, false, false, false, false,
    );
    let mut player = game.players[0].clone();
    
    // Create a card with behavior
    let mut behavior = Behavior::default();
    behavior.production = Some(ProductionChange {
        megacredits: Some(1),
        ..Default::default()
    });
    
    let card = Card::new(
        "card1".to_string(),
        "Test Card".to_string(),
        CardType::Automated,
    ).with_cost(5)
    .with_behavior(behavior);

    // Add card to hand
    player.add_card_to_hand("card1".to_string());
    player.resources.add(Resource::Megacredits, 10);
    let initial_mc_prod = player.production.megacredits;

    // Create payment
    let payment = Payment::with_megacredits(5);

    // Play card
    CardPlay::play_card(&card, &mut player, &mut game, &payment).unwrap();

    // Verify production increased
    assert_eq!(player.production.megacredits, initial_mc_prod + 1);
}

#[test]
fn test_play_card_by_id() {
    let mut registry = CardRegistry::new();
    let card = Card::new(
        "card1".to_string(),
        "Test Card".to_string(),
        CardType::Automated,
    ).with_cost(5);
    registry.register(card);

    let mut game = Game::new(
        "test".to_string(),
        vec!["Player 1".to_string()],
        12345,
        BoardType::Tharsis,
        false, false, false, false, false, false, false, false,
    );
    let mut player = game.players[0].clone();
    
    player.add_card_to_hand("card1".to_string());
    player.resources.add(Resource::Megacredits, 10);

    let payment = Payment::with_megacredits(5);

    CardPlay::play_card_by_id("card1", &registry, &mut player, &mut game, &payment).unwrap();

    assert!(!player.cards_in_hand.contains(&"card1".to_string()));
    assert!(player.played_cards.contains(&"card1".to_string()));
}
