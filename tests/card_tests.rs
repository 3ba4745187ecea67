#![allow(unused_imports, unused_variables, unused_mut)]

use simulation::{
    Action, ActionCard, ActionExecutor, Behavior, BehaviorExecutor, Board, BoardType, Card,
    CardCustomization, CardDiscount, CardPlay, CardRegistry, CardRequirements, CardResource,
    CardType, ClaimedMilestone, DeferredAction, DeferredActionQueue, DeferredActionResult,
    DraftType, DrawCardsDeferred, FundedAward, AwardData, GainResourcesDeferred, Game,
    GlobalParameter, GlobalParameterChange, GlobalParameters, MilestoneData, MinimalCard,
    PassDirection, Payment, PaymentMethod, Phase, Player, Priority, ProductionChange, Production,
    Resource, Resources, SeededRandom, SelectPaymentDeferred, SimpleDeferredAction, Space,
    SpaceBonus, SpaceType, StandardActions, StandardProjectEffect, StandardProjectParams,
    StandardProjectType, StandardProjects, StockChange, Tag, Tags, Tile, WinCondition,
    register_base_game_automated_cards, MAX_OCEANS, MAX_OXYGEN, MAX_TEMPERATURE, MAX_VENUS,
    MIN_TEMPERATURE,
};

#[test]
fn test_card_creation() {
    let card = Card::new(
        "card1".to_string(),
        "Test Card".to_string(),
        CardType::Automated,
    );
    assert_eq!(card.id, "card1");
    assert_eq!(card.name, "Test Card");
    assert_eq!(card.card_type, CardType::Automated);
    assert_eq!(card.get_cost(), 0);
}

#[test]
fn test_card_with_cost() {
    let card = Card::new(
        "card1".to_string(),
        "Test Card".to_string(),
        CardType::Automated,
    ).with_cost(10);
    assert_eq!(card.get_cost(), 10);
}

#[test]
fn test_card_with_tags() {
    let card = Card::new(
        "card1".to_string(),
        "Test Card".to_string(),
        CardType::Automated,
    ).with_tags(vec![Tag::Building, Tag::Space]);
    assert!(card.has_tag(Tag::Building));
    assert!(card.has_tag(Tag::Space));
    assert!(!card.has_tag(Tag::Science));
}

#[test]
fn test_card_with_behavior() {
    let behavior = Behavior::default();
    let card = Card::new(
        "card1".to_string(),
        "Test Card".to_string(),
        CardType::Automated,
    ).with_behavior(behavior.clone());
    assert_eq!(card.behavior, Some(behavior));
}
