#![allow(unused_imports, unused_variables, unused_mut)]

use simulation::{
    Action, ActionCard, ActionExecutor, Behavior, BehaviorExecutor, Board, BoardType, Card,
    CardCustomization, CardDiscount, CardPlay, CardRegistry, CardRequirements, CardResource,
    CardType, ClaimedMilestone, DeferredAction, DeferredActionQueue, DeferredActionResult,
    DraftType, DrawCardsDeferred, FundedAward, AwardData, GainResourcesDeferred, Game,
    GlobalParameter, GlobalParameterChange, GlobalParameters, MilestoneData, MinimalCard,
    PassDirection, Payment, PaymentMethod, Phase, Player, Priority, ProductionChange, Production,
    Resource, Resources, SeededRandom, SelectPaymentDeferred, SimpleDeferredAction, Space,
    SpaceBonus, SpaceType, StandardActions, StandardProjectEffect, StandardProjectParams,
    StandardProjectType, StandardProjects, StockChange, Tag, Tags, Tile, WinCondition,
    register_base_game_automated_cards, MAX_OCEANS, MAX_OXYGEN, MAX_TEMPERATURE, MAX_VENUS,
    MIN_TEMPERATURE,
};

#[test]
fn test_power_plant_card() {
    let mut registry = CardRegistry::new();
    register_base_game_automated_cards(&mut registry);
    
    let card = registry.get(&"power_plant".to_string()).unwrap();
    assert_eq!(card.name, "Power Plant");
    assert_eq!(card.get_cost(), 4);
    assert!(card.has_tag(Tag::Building));
    assert!(card.has_tag(Tag::Power));
    assert_eq!(card.card_type, CardType::Automated);
    assert!(card.behavior.is_some());
}

#[test]
fn test_mining_area_card() {
    let mut registry = CardRegistry::new();
    register_base_game_automated_cards(&mut registry);
    
    let card = registry.get(&"mining_area".to_string()).unwrap();
    assert_eq!(card.name, "Mining Area");
    assert_eq!(card.get_cost(), 4);
    assert!(card.has_tag(Tag::Building));
    assert_eq!(card.card_type, CardType::Automated);
}

#[test]
fn test_building_industries_card() {
    let mut registry = CardRegistry::new();
    register_base_game_automated_cards(&mut registry);
    
    let card = registry.get(&"building_industries".to_string()).unwrap();
    assert_eq!(card.name, "Building Industries");
    assert_eq!(card.get_cost(), 6);
    assert!(card.has_tag(Tag::Building));
    assert_eq!(card.card_type, CardType::Automated);
}

#[test]
fn test_power_plant_effect() {
    let mut registry = CardRegistry::new();
    register_base_game_automated_cards(&mut registry);
    
    let mut game = Game::new(
        "test".to_string(),
        vec!["Player 1".to_string()],
        12345,
        BoardType::Tharsis,
        false, false, false, false, false, false, false, false,
    );
    
    let mut player = game.players[0].clone();
    let initial_energy_prod = player.production.energy;
    
    let card = registry.get(&"power_plant".to_string()).unwrap().clone();
    player.add_card_to_hand(card.id.clone());
    player.resources.add(Resource::Megacredits, 10);
    
    // Play the card
    let payment = Payment::with_megacredits(4);
    CardPlay::play_card(&card, &mut player, &mut game, &payment).unwrap();
    
    // Check that energy production increased
    assert_eq!(player.production.energy, initial_energy_prod + 1);
    // Check that card is in played cards
    assert!(player.played_cards.contains(&card.id));
    // Check that card is not in hand
    assert!(!player.cards_in_hand.contains(&card.id));
}

#[test]
fn test_mining_area_effect() {
    let mut registry = CardRegistry::new();
    register_base_game_automated_cards(&mut registry);
    
    let mut game = Game::new(
        "test".to_string(),
        vec!["Player 1".to_string()],
        12345,
        BoardType::Tharsis,
        false, false, false, false, false, false, false, false,
    );
    
    let mut player = game.players[0].clone();
    let initial_steel_prod = player.production.steel;
    
    let card = registry.get(&"mining_area".to_string()).unwrap().clone();
    player.add_card_to_hand(card.id.clone());
    player.resources.add(Resource::Megacredits, 10);
    
    // Play the card
    let payment = Payment::with_megacredits(4);
    CardPlay::play_card(&card, &mut player, &mut game, &payment).unwrap();
    
    // Check that steel production increased
    assert_eq!(player.production.steel, initial_steel_prod + 1);
}

#[test]
fn test_building_industries_effect() {
    let mut registry = CardRegistry::new();
    register_base_game_automated_cards(&mut registry);
    
    let mut game = Game::new(
        "test".to_string(),
        vec!["Player 1".to_string()],
        12345,
        BoardType::Tharsis,
        false, false, false, false, false, false, false, false,
    );
    
    let mut player = game.players[0].clone();
    let initial_steel_prod = player.production.steel;
    
    let card = registry.get(&"building_industries".to_string()).unwrap().clone();
    player.add_card_to_hand(card.id.clone());
    player.resources.add(Resource::Megacredits, 10);
    
    // Play the card
    let payment = Payment::with_megacredits(6);
    CardPlay::play_card(&card, &mut player, &mut game, &payment).unwrap();
    
    // Check that steel production increased by 2
    assert_eq!(player.production.steel, initial_steel_prod + 2);
}
