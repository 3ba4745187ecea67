#![allow(unused_imports, unused_variables, unused_mut)]

use simulation::{
    Action, ActionCard, ActionExecutor, Behavior, BehaviorExecutor, Board, BoardType, Card,
    CardCustomization, CardDiscount, CardPlay, CardRegistry, CardRequirements, CardResource,
    CardType, ClaimedMilestone, DeferredAction, DeferredActionQueue, DeferredActionResult,
    DraftType, DrawCardsDeferred, FundedAward, AwardData, GainResourcesDeferred, Game,
    GlobalParameter, GlobalParameterChange, GlobalParameters, MilestoneData, MinimalCard,
    PassDirection, Payment, PaymentMethod, Phase, Player, Priority, ProductionChange, Production,
    Resource, Resources, SeededRandom, SelectPaymentDeferred, SimpleDeferredAction, Space,
    SpaceBonus, SpaceType, StandardActions, StandardProjectEffect, StandardProjectParams,
    StandardProjectType, StandardProjects, StockChange, Tag, Tags, Tile, WinCondition,
    register_base_game_automated_cards, MAX_OCEANS, MAX_OXYGEN, MAX_TEMPERATURE, MAX_VENUS,
    MIN_TEMPERATURE,
};

#[test]
fn test_payment_with_megacredits() {
    let payment = Payment::with_megacredits(10);
    assert_eq!(payment.total_cost_mc(false, false), 10);
}

#[test]
fn test_payment_steel_building_tag() {
    let payment = Payment::new(vec![PaymentMethod::Steel(4)]);
    // Steel: 4 steel = 8 M€ for building tags (1 steel = 2 M€)
    assert_eq!(payment.total_cost_mc(true, false), 8);
}

#[test]
fn test_payment_steel_non_building_tag() {
    let payment = Payment::new(vec![PaymentMethod::Steel(4)]);
    // Steel can only be used for building tags
    assert_eq!(payment.total_cost_mc(false, false), 0);
}

#[test]
fn test_payment_titanium_space_tag() {
    let payment = Payment::new(vec![PaymentMethod::Titanium(6)]);
    // Titanium: 6 titanium = 18 M€ for space tags (1 titanium = 3 M€)
    assert_eq!(payment.total_cost_mc(false, true), 18);
}

#[test]
fn test_payment_titanium_non_space_tag() {
    let payment = Payment::new(vec![PaymentMethod::Titanium(6)]);
    // Titanium can only be used for space tags
    assert_eq!(payment.total_cost_mc(false, false), 0);
}

#[test]
fn test_payment_multiple_methods() {
    let payment = Payment::new(vec![
        PaymentMethod::MegaCredits(5),
        PaymentMethod::Steel(4), // 8 M€ for building tags (1 steel = 2 M€)
    ]);
    assert_eq!(payment.total_cost_mc(true, false), 13);
}

#[test]
fn test_payment_heat_conversion() {
    // Heat pays one for one
    let payment = Payment::new(vec![PaymentMethod::Heat(8)]);
    assert_eq!(payment.total_cost_mc(false, false), 8);
}

#[test]
fn test_payment_plants_conversion() {
    // Plants convert at 1:3 for building tags if Martian Lumber Corp active
    // "plants may be used as 3 M€ each" means 1 plant = 3 M€
    let payment = Payment::new(vec![PaymentMethod::Plants(3)]);
    // Plants: 3 plants = 9 M€ for building tags (1 plant = 3 M€)
    assert_eq!(payment.total_cost_mc(true, false), 9);
    
    // Plants cannot be used for non-building tags
    assert_eq!(payment.total_cost_mc(false, false), 0);
}

#[test]
fn test_payment_reserve_units() {

    let player = Player::new("p1".to_string(), "Player 1".to_string());
    let mut player_with_resources = player;
    player_with_resources.resources.add(Resource::Megacredits, 20);
    player_with_resources.resources.add(Resource::Steel, 10);
    player_with_resources.resources.add(Resource::Titanium, 10);
    player_with_resources.resources.add(Resource::Heat, 10);
    player_with_resources.resources.add(Resource::Plants, 10);

    // Payment with reserve: must keep at least 5 M€, 3 steel, 2 titanium
    let mut payment = Payment::with_megacredits(12);
    payment.reserve.megacredits = 5;
    payment.reserve.steel = 3;
    payment.reserve.titanium = 2;

    // Should succeed: 20 M€ - 5 reserve = 15 available, need 12
    assert!(ActionExecutor::validate_payment(&payment, &player_with_resources, false, false).is_ok());

    // Should fail: 20 M€ - 5 reserve = 15 available, need 16
    let mut payment_too_much = Payment::with_megacredits(16);
    payment_too_much.reserve.megacredits = 5;
    assert!(ActionExecutor::validate_payment(&payment_too_much, &player_with_resources, false, false).is_err());

    // Test steel reserve
    let mut payment_steel = Payment::new(vec![PaymentMethod::Steel(6)]);
    payment_steel.reserve.steel = 3;
    // Should succeed: 10 steel - 3 reserve = 7 available, need 6
    assert!(ActionExecutor::validate_payment(&payment_steel, &player_with_resources, true, false).is_ok());

    // Should fail: 10 steel - 3 reserve = 7 available, need 8
    let mut payment_steel_too_much = Payment::new(vec![PaymentMethod::Steel(8)]);
    payment_steel_too_much.reserve.steel = 3;
    assert!(ActionExecutor::validate_payment(&payment_steel_too_much, &player_with_resources, true, false).is_err());
}
