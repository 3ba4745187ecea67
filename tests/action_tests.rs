#![allow(unused_imports, unused_variables, unused_mut)]

use simulation::{
    Action, ActionCard, ActionExecutor, Behavior, BehaviorExecutor, Board, BoardType, Card,
    CardCustomization, CardDiscount, CardPlay, CardRegistry, CardRequirements, CardResource,
    CardType, ClaimedMilestone, DeferredAction, DeferredActionQueue, DeferredActionResult,
    DraftType, DrawCardsDeferred, FundedAward, AwardData, GainResourcesDeferred, Game,
    GlobalParameter, GlobalParameterChange, GlobalParameters, MilestoneData, MinimalCard,
    PassDirection, Payment, PaymentMethod, Phase, Player, Priority, ProductionChange, Production,
    Resource, Resources, SeededRandom, SelectPaymentDeferred, SimpleDeferredAction, Space,
    SpaceBonus, SpaceType, StandardActions, StandardProjectEffect, StandardProjectParams,
    StandardProjectType, StandardProjects, StockChange, Tag, Tags, Tile, WinCondition,
    register_base_game_automated_cards, MAX_OCEANS, MAX_OXYGEN, MAX_TEMPERATURE, MAX_VENUS,
    MIN_TEMPERATURE,
};

#[test]
fn test_action_is_pass() {
    assert!(Action::Pass.is_pass());
    assert!(!Action::ConvertPlants.is_pass());
}

#[test]
fn test_standard_project_params() {
    let params = StandardProjectParams {
        card_ids: vec!["card1".to_string(), "card2".to_string()],
    };
    assert_eq!(params.card_ids.len(), 2);
}
