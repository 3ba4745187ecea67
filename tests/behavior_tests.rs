#![allow(unused_imports, unused_variables, unused_mut)]

use simulation::{
    Action, ActionCard, ActionExecutor, Behavior, BehaviorExecutor, Board, BoardType, Card,
    CardCustomization, CardDiscount, CardPlay, CardRegistry, CardRequirements, CardResource,
    CardType, ClaimedMilestone, DeferredAction, DeferredActionQueue, DeferredActionResult,
    DraftType, DrawCardsDeferred, FundedAward, AwardData, GainResourcesDeferred, Game,
    GlobalParameter, GlobalParameterChange, GlobalParameters, MilestoneData, MinimalCard,
    PassDirection, Payment, PaymentMethod, Phase, Player, Priority, ProductionChange, Production,
    Resource, Resources, SeededRandom, SelectPaymentDeferred, SimpleDeferredAction, Space,
    SpaceBonus, SpaceType, StandardActions, StandardProjectEffect, StandardProjectParams,
    StandardProjectType, StandardProjects, StockChange, Tag, Tags, Tile, WinCondition,
    register_base_game_automated_cards, MAX_OCEANS, MAX_OXYGEN, MAX_TEMPERATURE, MAX_VENUS,
    MIN_TEMPERATURE,
};

#[test]
fn test_behavior_default() {
    let behavior = Behavior::default();
    assert_eq!(behavior.production, None);
    assert_eq!(behavior.tr, None);
}

#[test]
fn test_behavior_production() {
    let mut behavior = Behavior::default();
    behavior.production = Some(ProductionChange {
        megacredits: Some(1),
        steel: Some(1),
        ..Default::default()
    });
    assert!(behavior.production.is_some());
}
