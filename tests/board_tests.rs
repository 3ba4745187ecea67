#![allow(unused_imports, unused_variables, unused_mut)]

use simulation::{
    Action, ActionCard, ActionExecutor, Behavior, BehaviorExecutor, Board, BoardType, Card,
    CardCustomization, CardDiscount, CardPlay, CardRegistry, CardRequirements, CardResource,
    CardType, ClaimedMilestone, DeferredAction, DeferredActionQueue, DeferredActionResult,
    DraftType, DrawCardsDeferred, FundedAward, AwardData, GainResourcesDeferred, Game,
    GlobalParameter, GlobalParameterChange, GlobalParameters, MilestoneData, MinimalCard,
    PassDirection, Payment, PaymentMethod, Phase, Player, Priority, ProductionChange, Production,
    Resource, Resources, SeededRandom, SelectPaymentDeferred, SimpleDeferredAction, Space,
    SpaceBonus, SpaceType, StandardActions, StandardProjectEffect, StandardProjectParams,
    StandardProjectType, StandardProjects, StockChange, Tag, Tags, Tile, WinCondition,
    register_base_game_automated_cards, MAX_OCEANS, MAX_OXYGEN, MAX_TEMPERATURE, MAX_VENUS,
    MIN_TEMPERATURE,
};

#[test]
fn test_board_creation() {
    let board = Board::new(BoardType::Tharsis);
    assert_eq!(board.board_type(), BoardType::Tharsis);
    assert_eq!(board.placed_oceans(), 0);
}

#[test]
fn test_space_management() {
    let mut board = Board::new(BoardType::Tharsis);

    // Add a test space
    let space = Space::new(
        "test01".to_string(),
        0,
        0,
        SpaceType::Land,
        vec![SpaceBonus::Steel],
    );
    board.add_space(space);

    // Get the space
    assert!(board.get_space(&"test01".to_string()).is_some());
    assert_eq!(
        board.get_space(&"test01".to_string()).unwrap().space_type,
        SpaceType::Land
    );

    // Get available spaces
    let available = board.available_spaces();
    assert_eq!(available.len(), 1);

    // Place a tile
    assert!(board
        .place_tile(
            &"test01".to_string(),
            Tile::City,
            "player1".to_string()
        )
        .is_ok());

    // Space should no longer be available
    let available = board.available_spaces();
    assert_eq!(available.len(), 0);
}

#[test]
fn test_ocean_tracking() {
    let mut board = Board::new(BoardType::Tharsis);

    // Add an ocean space
    let ocean_space = Space::new(
        "ocean01".to_string(),
        1,
        1,
        SpaceType::Ocean,
        vec![SpaceBonus::Ocean],
    );
    board.add_space(ocean_space);

    // Place an ocean tile
    assert!(board
        .place_tile(
            &"ocean01".to_string(),
            Tile::Ocean,
            "player1".to_string()
        )
        .is_ok());

    assert_eq!(board.placed_oceans(), 1);
}

#[test]
fn test_spaces_for_tile() {
    let mut board = Board::new(BoardType::Tharsis);

    // Add land and ocean spaces
    let land_space = Space::new(
        "land01".to_string(),
        0,
        0,
        SpaceType::Land,
        vec![],
    );
    let ocean_space = Space::new(
        "ocean01".to_string(),
        1,
        1,
        SpaceType::Ocean,
        vec![],
    );
    board.add_space(land_space);
    board.add_space(ocean_space);

    // Find spaces for city (should be land)
    let city_spaces = board.spaces_for_tile(&Tile::City);
    assert_eq!(city_spaces.len(), 1);
    assert_eq!(city_spaces[0].space_type, SpaceType::Land);

    // Find spaces for ocean (should be ocean space)
    let ocean_spaces = board.spaces_for_tile(&Tile::Ocean);
    assert_eq!(ocean_spaces.len(), 1);
    assert_eq!(ocean_spaces[0].space_type, SpaceType::Ocean);
}
