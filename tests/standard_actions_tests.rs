#![allow(unused_imports, unused_variables, unused_mut)]

use simulation::{
    Action, ActionCard, ActionExecutor, Behavior, BehaviorExecutor, Board, BoardType, Card,
    CardCustomization, CardDiscount, CardPlay, CardRegistry, CardRequirements, CardResource,
    CardType, ClaimedMilestone, DeferredAction, DeferredActionQueue, DeferredActionResult,
    DraftType, DrawCardsDeferred, FundedAward, AwardData, GainResourcesDeferred, Game,
    GlobalParameter, GlobalParameterChange, GlobalParameters, MilestoneData, MinimalCard,
    PassDirection, Payment, PaymentMethod, Phase, Player, Priority, ProductionChange, Production,
    Resource, Resources, SeededRandom, SelectPaymentDeferred, SimpleDeferredAction, Space,
    SpaceBonus, SpaceType, StandardActions, StandardProjectEffect, StandardProjectParams,
    StandardProjectType, StandardProjects, StockChange, Tag, Tags, Tile, WinCondition,
    register_base_game_automated_cards, MAX_OCEANS, MAX_OXYGEN, MAX_TEMPERATURE, MAX_VENUS,
    MIN_TEMPERATURE,
};

#[test]
fn test_convert_plants_validation() {
    let mut player = Player::new("p1".to_string(), "Player 1".to_string());
    assert!(StandardActions::can_convert_plants(&player).is_err());

    player.resources.add(Resource::Plants, 8);
    assert!(StandardActions::can_convert_plants(&player).is_ok());
}

#[test]
fn test_convert_plants_execution() {
    let mut player = Player::new("p1".to_string(), "Player 1".to_string());
    player.resources.add(Resource::Plants, 10);

    assert!(StandardActions::convert_plants(&mut player).is_ok());
    assert_eq!(player.resources.get(Resource::Plants), 2);
}

#[test]
fn test_convert_heat_validation() {
    let mut player = Player::new("p1".to_string(), "Player 1".to_string());
    assert!(StandardActions::can_convert_heat(&player).is_err());

    player.resources.add(Resource::Heat, 8);
    assert!(StandardActions::can_convert_heat(&player).is_ok());
}

#[test]
fn test_convert_heat_execution() {
    let mut player = Player::new("p1".to_string(), "Player 1".to_string());
    let initial_tr = player.terraform_rating;
    player.resources.add(Resource::Heat, 10);

    assert!(StandardActions::convert_heat(&mut player).is_ok());
    assert_eq!(player.resources.get(Resource::Heat), 2);
    assert_eq!(player.terraform_rating, initial_tr + 1);
}
