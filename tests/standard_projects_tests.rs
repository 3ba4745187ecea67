#![allow(unused_imports, unused_variables, unused_mut)]

use simulation::{
    Action, ActionCard, ActionExecutor, Behavior, BehaviorExecutor, Board, BoardType, Card,
    CardCustomization, CardDiscount, CardPlay, CardRegistry, CardRequirements, CardResource,
    CardType, ClaimedMilestone, DeferredAction, DeferredActionQueue, DeferredActionResult,
    DraftType, DrawCardsDeferred, FundedAward, AwardData, GainResourcesDeferred, Game,
    GlobalParameter, GlobalParameterChange, GlobalParameters, MilestoneData, MinimalCard,
    PassDirection, Payment, PaymentMethod, Phase, Player, Priority, ProductionChange, Production,
    Resource, Resources, SeededRandom, SelectPaymentDeferred, SimpleDeferredAction, Space,
    SpaceBonus, SpaceType, StandardActions, StandardProjectEffect, StandardProjectParams,
    StandardProjectType, StandardProjects, StockChange, Tag, Tags, Tile, WinCondition,
    register_base_game_automated_cards, MAX_OCEANS, MAX_OXYGEN, MAX_TEMPERATURE, MAX_VENUS,
    MIN_TEMPERATURE,
};

#[test]
fn test_standard_project_costs() {
    assert_eq!(StandardProjects::cost(StandardProjectType::SellPatents), 0);
    assert_eq!(StandardProjects::cost(StandardProjectType::PowerPlant), 11);
    assert_eq!(StandardProjects::cost(StandardProjectType::Asteroid), 14);
    assert_eq!(StandardProjects::cost(StandardProjectType::Aquifer), 18);
    assert_eq!(StandardProjects::cost(StandardProjectType::Greenery), 23);
    assert_eq!(StandardProjects::cost(StandardProjectType::City), 25);
}

#[test]
fn test_sell_patents_validation() {
    let mut player = Player::new("p1".to_string(), "Player 1".to_string());
    player.add_card_to_hand("card1".to_string());
    player.add_card_to_hand("card2".to_string());

    let params = StandardProjectParams {
        card_ids: vec!["card1".to_string()],
    };
    assert!(StandardProjects::can_execute(
        StandardProjectType::SellPatents,
        &player,
        &params
    ).is_ok());

    let params_empty = StandardProjectParams {
        card_ids: vec![],
    };
    assert!(StandardProjects::can_execute(
        StandardProjectType::SellPatents,
        &player,
        &params_empty
    ).is_err());

    let params_invalid = StandardProjectParams {
        card_ids: vec!["card3".to_string()],
    };
    assert!(StandardProjects::can_execute(
        StandardProjectType::SellPatents,
        &player,
        &params_invalid
    ).is_err());
}

#[test]
fn test_sell_patents_execution() {
    let mut player = Player::new("p1".to_string(), "Player 1".to_string());
    player.add_card_to_hand("card1".to_string());
    player.add_card_to_hand("card2".to_string());
    let initial_mc = player.resources.megacredits;

    let params = StandardProjectParams {
        card_ids: vec!["card1".to_string(), "card2".to_string()],
    };
    let result = StandardProjects::execute(
        StandardProjectType::SellPatents,
        &mut player,
        &params,
    );
    assert!(result.is_ok());
    assert_eq!(player.cards_in_hand.len(), 0);
    assert_eq!(player.resources.megacredits, initial_mc + 2);
}

#[test]
fn test_sell_patents_zero_cards() {
    let mut player = Player::new("p1".to_string(), "Player 1".to_string());
    // Empty hand
    let params = StandardProjectParams {
        card_ids: vec![],
    };
    assert!(StandardProjects::can_execute(
        StandardProjectType::SellPatents,
        &player,
        &params
    ).is_err());
}

#[test]
fn test_sell_patents_one_card() {
    let mut player = Player::new("p1".to_string(), "Player 1".to_string());
    player.add_card_to_hand("card1".to_string());
    let initial_mc = player.resources.megacredits;

    let params = StandardProjectParams {
        card_ids: vec!["card1".to_string()],
    };
    let result = StandardProjects::execute(
        StandardProjectType::SellPatents,
        &mut player,
        &params,
    );
    assert!(result.is_ok());
    assert_eq!(player.cards_in_hand.len(), 0);
    assert_eq!(player.resources.megacredits, initial_mc + 1); // 1 M€ per card
}

#[test]
fn test_sell_patents_all_cards_discarded() {
    let mut player = Player::new("p1".to_string(), "Player 1".to_string());
    player.add_card_to_hand("card1".to_string());
    player.add_card_to_hand("card2".to_string());
    player.add_card_to_hand("card3".to_string());
    let initial_mc = player.resources.megacredits;

    // Discard all cards
    let params = StandardProjectParams {
        card_ids: vec!["card1".to_string(), "card2".to_string(), "card3".to_string()],
    };
    let result = StandardProjects::execute(
        StandardProjectType::SellPatents,
        &mut player,
        &params,
    );
    assert!(result.is_ok());
    assert_eq!(player.cards_in_hand.len(), 0);
    assert_eq!(player.resources.megacredits, initial_mc + 3); // 3 M€ for 3 cards
}

#[test]
fn test_asteroid_execution() {

    let mut player = Player::new("p1".to_string(), "Player 1".to_string());
    let mut global_params = GlobalParameters::new();
    let initial_temp = global_params.get(GlobalParameter::Temperature);

    let params = StandardProjectParams::default();
    let result = StandardProjects::execute(
        StandardProjectType::Asteroid,
        &mut player,
        &params,
    );
    assert!(result.is_ok());
    
    // Temperature should have increased
    // Note: Temperature increases in steps of 2, so 1 step = +2 temperature
    if let Ok(effect) = result {
        if let StandardProjectEffect::RaiseTemperature { steps } = effect {
            global_params.increase(GlobalParameter::Temperature, steps);
            // Each step increases temperature by 2
            assert_eq!(global_params.get(GlobalParameter::Temperature), initial_temp + (steps as i32 * 2));
        }
    }
}

#[test]
fn test_aquifer_execution() {

    let mut player = Player::new("p1".to_string(), "Player 1".to_string());
    let mut global_params = GlobalParameters::new();
    let initial_oceans = global_params.get(GlobalParameter::Oceans);

    let params = StandardProjectParams::default();
    let result = StandardProjects::execute(
        StandardProjectType::Aquifer,
        &mut player,
        &params,
    );
    assert!(result.is_ok());
    
    // Ocean should be placed (oceans increased)
    if let Ok(effect) = result {
        if let StandardProjectEffect::PlaceOcean = effect {
            global_params.increase(GlobalParameter::Oceans, 1);
            assert_eq!(global_params.get(GlobalParameter::Oceans), initial_oceans + 1);
        }
    }
}

#[test]
fn test_greenery_execution() {

    let mut player = Player::new("p1".to_string(), "Player 1".to_string());
    let mut global_params = GlobalParameters::new();
    let initial_oxygen = global_params.get(GlobalParameter::Oxygen);

    let params = StandardProjectParams::default();
    let result = StandardProjects::execute(
        StandardProjectType::Greenery,
        &mut player,
        &params,
    );
    assert!(result.is_ok());
    
    // Greenery should be placed (oxygen increased)
    if let Ok(effect) = result {
        if let StandardProjectEffect::PlaceGreenery = effect {
            global_params.increase(GlobalParameter::Oxygen, 1);
            assert_eq!(global_params.get(GlobalParameter::Oxygen), initial_oxygen + 1);
        }
    }
}

#[test]
fn test_city_execution() {
    let mut player = Player::new("p1".to_string(), "Player 1".to_string());
    let params = StandardProjectParams::default();
    let result = StandardProjects::execute(
        StandardProjectType::City,
        &mut player,
        &params,
    );
    assert!(result.is_ok());
    
    // City placement effect (no immediate resource changes, just tile placement)
    if let Ok(effect) = result {
        assert!(matches!(effect, StandardProjectEffect::PlaceCity));
    }
}
