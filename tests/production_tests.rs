#![allow(unused_imports, unused_variables, unused_mut)]

use simulation::{
    Action, ActionCard, ActionExecutor, Behavior, BehaviorExecutor, Board, BoardType, Card,
    CardCustomization, CardDiscount, CardPlay, CardRegistry, CardRequirements, CardResource,
    CardType, ClaimedMilestone, DeferredAction, DeferredActionQueue, DeferredActionResult,
    DraftType, DrawCardsDeferred, FundedAward, AwardData, GainResourcesDeferred, Game,
    GlobalParameter, GlobalParameterChange, GlobalParameters, MilestoneData, MinimalCard,
    PassDirection, Payment, PaymentMethod, Phase, Player, Priority, ProductionChange, Production,
    Resource, Resources, SeededRandom, SelectPaymentDeferred, SimpleDeferredAction, Space,
    SpaceBonus, SpaceType, StandardActions, StandardProjectEffect, StandardProjectParams,
    StandardProjectType, StandardProjects, StockChange, Tag, Tags, Tile, WinCondition,
    register_base_game_automated_cards, MAX_OCEANS, MAX_OXYGEN, MAX_TEMPERATURE, MAX_VENUS,
    MIN_TEMPERATURE,
};

#[test]
fn test_production_operations() {
    let mut production = Production::new();
    
    production.add(Resource::Megacredits, 5);
    assert_eq!(production.megacredits, 5);
    
    production.subtract(Resource::Megacredits, 2);
    assert_eq!(production.megacredits, 3);
    
    // Test that megacredits production can be negative
    production.subtract(Resource::Megacredits, 10);
    assert_eq!(production.megacredits, -7); // 3 - 10 = -7
    
    // Test that other production cannot be negative
    production.add(Resource::Steel, 5);
    production.subtract(Resource::Steel, 10);
    assert_eq!(production.steel, 0); // Clamped to 0
}
