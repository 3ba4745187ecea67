#![allow(unused_imports, unused_variables, unused_mut)]

use simulation::{
    Action, ActionCard, ActionExecutor, Behavior, BehaviorExecutor, Board, BoardType, Card,
    CardCustomization, CardDiscount, CardPlay, CardRegistry, CardRequirements, CardResource,
    CardType, ClaimedMilestone, DeferredAction, DeferredActionQueue, DeferredActionResult,
    DraftType, DrawCardsDeferred, FundedAward, AwardData, GainResourcesDeferred, Game,
    GlobalParameter, GlobalParameterChange, GlobalParameters, MilestoneData, MinimalCard,
    PassDirection, Payment, PaymentMethod, Phase, Player, Priority, ProductionChange, Production,
    Resource, Resources, SeededRandom, SelectPaymentDeferred, SimpleDeferredAction, Space,
    SpaceBonus, SpaceType, StandardActions, StandardProjectEffect, StandardProjectParams,
    StandardProjectType, StandardProjects, StockChange, Tag, Tags, Tile, WinCondition,
    register_base_game_automated_cards, MAX_OCEANS, MAX_OXYGEN, MAX_TEMPERATURE, MAX_VENUS,
    MIN_TEMPERATURE,
};

#[test]
fn test_global_parameters() {
    let mut params = GlobalParameters::new();
    
    assert_eq!(params.get(GlobalParameter::Temperature), MIN_TEMPERATURE);
    assert_eq!(params.get(GlobalParameter::Oceans), 0);
    
    // Increase temperature by 5 steps (5 * 2 = 10 degrees)
    params.increase(GlobalParameter::Temperature, 5);
    assert_eq!(params.get(GlobalParameter::Temperature), -20); // -30 + 10 = -20
    
    // Increase oceans by 5 steps (5 * 1 = 5 oceans)
    let steps = params.increase(GlobalParameter::Oceans, 5);
    assert_eq!(steps, 5);
    assert_eq!(params.get(GlobalParameter::Oceans), 5);
}

#[test]
fn test_global_parameter_limits() {
    let mut params = GlobalParameters::new();
    
    // Test max clamping
    params.increase(GlobalParameter::Oceans, 100);
    assert_eq!(params.get(GlobalParameter::Oceans), MAX_OCEANS as i32);
    
    params.increase(GlobalParameter::Oxygen, 100);
    assert_eq!(params.get(GlobalParameter::Oxygen), MAX_OXYGEN as i32);
    
    params.increase(GlobalParameter::Temperature, 100);
    assert_eq!(params.get(GlobalParameter::Temperature), MAX_TEMPERATURE);
    
    params.increase(GlobalParameter::Venus, 100);
    assert_eq!(params.get(GlobalParameter::Venus), MAX_VENUS as i32);
}

#[test]
fn test_step_sizes() {
    let mut params = GlobalParameters::new();
    
    // Temperature: steps of 2
    params.increase(GlobalParameter::Temperature, 1);
    assert_eq!(params.get(GlobalParameter::Temperature), -28); // -30 + 2 = -28
    
    params.increase(GlobalParameter::Temperature, 1);
    assert_eq!(params.get(GlobalParameter::Temperature), -26); // -28 + 2 = -26
    
    // Oxygen: steps of 1
    params.increase(GlobalParameter::Oxygen, 1);
    assert_eq!(params.get(GlobalParameter::Oxygen), 1);
    
    params.increase(GlobalParameter::Oxygen, 1);
    assert_eq!(params.get(GlobalParameter::Oxygen), 2);
    
    // Venus: steps of 2
    params.increase(GlobalParameter::Venus, 1);
    assert_eq!(params.get(GlobalParameter::Venus), 2);
    
    params.increase(GlobalParameter::Venus, 1);
    assert_eq!(params.get(GlobalParameter::Venus), 4);
}

#[test]
fn test_cannot_decrease() {
    let mut params = GlobalParameters::new();
    
    // Set to some value
    params.increase(GlobalParameter::Oceans, 5);
    assert_eq!(params.get(GlobalParameter::Oceans), 5);
    
    // Try to decrease using deprecated add (should be ignored)
    #[allow(deprecated)]
    params.add(GlobalParameter::Oceans, -10);
    assert_eq!(params.get(GlobalParameter::Oceans), 5); // Unchanged
    
    // Can only increase
    params.increase(GlobalParameter::Oceans, 1);
    assert_eq!(params.get(GlobalParameter::Oceans), 6);
}

#[test]
fn test_valid_step_validation() {
    // Valid values
    assert!(GlobalParameters::is_valid_step(GlobalParameter::Temperature, -30));
    assert!(GlobalParameters::is_valid_step(GlobalParameter::Temperature, -28));
    assert!(GlobalParameters::is_valid_step(GlobalParameter::Temperature, 0));
    assert!(GlobalParameters::is_valid_step(GlobalParameter::Temperature, 8));
    
    // Invalid values (not on step boundary)
    assert!(!GlobalParameters::is_valid_step(GlobalParameter::Temperature, -29));
    assert!(!GlobalParameters::is_valid_step(GlobalParameter::Temperature, -1));
    assert!(!GlobalParameters::is_valid_step(GlobalParameter::Temperature, 1));
    
    // Valid Venus values (steps of 2)
    assert!(GlobalParameters::is_valid_step(GlobalParameter::Venus, 0));
    assert!(GlobalParameters::is_valid_step(GlobalParameter::Venus, 2));
    assert!(GlobalParameters::is_valid_step(GlobalParameter::Venus, 30));
    
    // Invalid Venus values
    assert!(!GlobalParameters::is_valid_step(GlobalParameter::Venus, 1));
    assert!(!GlobalParameters::is_valid_step(GlobalParameter::Venus, 3));
}

#[test]
fn test_set_rounds_to_nearest_step() {
    let mut params = GlobalParameters::new();
    
    // Set temperature to -29 (should round to -28, nearest step of 2)
    params.set(GlobalParameter::Temperature, -29);
    assert_eq!(params.get(GlobalParameter::Temperature), -28);
    
    // Reset and test positive rounding
    params.set(GlobalParameter::Temperature, MIN_TEMPERATURE);
    
    // Set temperature to 1 (should round to 2, nearest step of 2)
    params.set(GlobalParameter::Temperature, 1);
    assert_eq!(params.get(GlobalParameter::Temperature), 2); // Rounds to 2
    
    // Set temperature to -1 (should round to 0)
    params.set(GlobalParameter::Temperature, -1);
    assert_eq!(params.get(GlobalParameter::Temperature), 0);
    
    // Set Venus to 1 (should round to 2)
    params.set(GlobalParameter::Venus, 1);
    assert_eq!(params.get(GlobalParameter::Venus), 2); // Rounds up
    
    // Set Venus to 3 (should round to 4)
    params.set(GlobalParameter::Venus, 3);
    assert_eq!(params.get(GlobalParameter::Venus), 4);
}

#[test]
fn test_can_increase() {
    let mut params = GlobalParameters::new();
    
    assert!(params.can_increase(GlobalParameter::Oceans));
    assert!(params.can_increase(GlobalParameter::Oxygen));
    assert!(params.can_increase(GlobalParameter::Temperature));
    assert!(params.can_increase(GlobalParameter::Venus));
    
    // Set to max
    params.increase(GlobalParameter::Oceans, 100);
    assert!(!params.can_increase(GlobalParameter::Oceans));
    
    params.increase(GlobalParameter::Temperature, 100);
    assert!(!params.can_increase(GlobalParameter::Temperature));
}

#[test]
fn test_increase_returns_actual_steps() {
    let mut params = GlobalParameters::new();
    
    // Normal increase - should return all requested steps
    let steps = params.increase(GlobalParameter::Oceans, 5);
    assert_eq!(steps, 5);
    assert_eq!(params.get(GlobalParameter::Oceans), 5);
    
    // Increase when near max - should return only available steps
    params.increase(GlobalParameter::Oceans, 3); // Now at 8 (max is 9, so 1 step left)
    let steps = params.increase(GlobalParameter::Oceans, 5); // Try to increase by 5
    assert_eq!(steps, 1); // Only 1 step was possible
    assert_eq!(params.get(GlobalParameter::Oceans), 9); // At max
    
    // Try to increase when at max - should return 0
    let steps = params.increase(GlobalParameter::Oceans, 10);
    assert_eq!(steps, 0);
    assert_eq!(params.get(GlobalParameter::Oceans), 9); // Still at max
    
    // Test with temperature
    params.set(GlobalParameter::Temperature, 6); // 1 step from max (8)
    let steps = params.increase(GlobalParameter::Temperature, 5);
    assert_eq!(steps, 1); // Only 1 step possible (6 -> 8)
    assert_eq!(params.get(GlobalParameter::Temperature), 8); // At max
}
