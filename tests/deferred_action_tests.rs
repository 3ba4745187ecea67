#![allow(unused_imports, unused_variables, unused_mut)]

use simulation::{
    Action, ActionCard, ActionExecutor, Behavior, BehaviorExecutor, Board, BoardType, Card,
    CardCustomization, CardDiscount, CardPlay, CardRegistry, CardRequirements, CardResource,
    CardType, ClaimedMilestone, DeferredAction, DeferredActionQueue, DeferredActionResult,
    DraftType, DrawCardsDeferred, FundedAward, AwardData, GainResourcesDeferred, Game,
    GlobalParameter, GlobalParameterChange, GlobalParameters, MilestoneData, MinimalCard,
    PassDirection, Payment, PaymentMethod, Phase, Player, Priority, ProductionChange, Production,
    Resource, Resources, SeededRandom, SelectPaymentDeferred, SimpleDeferredAction, Space,
    SpaceBonus, SpaceType, StandardActions, StandardProjectEffect, StandardProjectParams,
    StandardProjectType, StandardProjects, StockChange, Tag, Tags, Tile, WinCondition,
    register_base_game_automated_cards, MAX_OCEANS, MAX_OXYGEN, MAX_TEMPERATURE, MAX_VENUS,
    MIN_TEMPERATURE,
};

#[test]
fn test_simple_deferred_action() {
    let mut action = SimpleDeferredAction::new(
        "p1".to_string(),
        Priority::Default,
        DeferredActionResult::Completed,
    );

    let mut game = Game::new(
        "test".to_string(),
        vec!["Player 1".to_string()],
        12345,
        BoardType::Tharsis,
        false, false, false, false, false, false, false, false,
    );

    assert_eq!(action.priority(), Priority::Default);
    assert_eq!(action.player_id(), "p1");
    let result = action.execute(&mut game).unwrap();
    assert_eq!(result, DeferredActionResult::Completed);
}
