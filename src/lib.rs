//! Session engine for a multiplayer, turn-based terraforming board game:
//! phase state machine, turn scheduler, deferred-effect queue, draft rotation
//! and the global parameter track.

pub mod error;
pub mod ids;
pub mod phase;
pub mod global_params;
pub mod resources;
pub mod production;
pub mod tags;
pub mod player;
pub mod payment;
pub mod tile;
pub mod space;
pub mod board;
pub mod random;
pub mod awards;
pub mod milestones;
pub mod priority;
pub mod deferred;
pub mod queue;
pub mod game;
pub mod flow;
pub mod minimal_card;
pub mod action;
pub mod standard_actions;
pub mod standard_projects;
pub mod action_executor;
pub mod turn;
pub mod draft;
pub mod research;
pub mod preludes;
pub mod card_type;
pub mod card_resource;
pub mod behavior;
pub mod behavior_executor;
pub mod card;
pub mod requirements;
pub mod card_registry;
pub mod card_play;
pub mod base;
pub mod traits;

pub use action::{Action, AwardId, MilestoneId, StandardProjectParams, StandardProjectType};
pub use action_executor::ActionExecutor;
pub use awards::{Award, AwardData, FundedAward};
pub use base::register_base_game_automated_cards;
pub use behavior::{
    Behavior, CardResourceGain, CustomTilePlacement, GlobalParameterChange, ProductionChange,
    StandardResourceGain, StockChange, TilePlacement,
};
pub use behavior_executor::BehaviorExecutor;
pub use board::{Board, BoardType};
pub use card::Card;
pub use card_play::CardPlay;
pub use card_registry::CardRegistry;
pub use card_resource::CardResource;
pub use card_type::CardType;
pub use deferred::{
    DeferredAction, DeferredActionResult, DrawCardsDeferred, GainResourcesDeferred,
    PlaceTileDeferred, SelectPaymentDeferred, SimpleDeferredAction,
};
pub use draft::{DraftType, PassDirection};
pub use error::GameError;
pub use flow::WinCondition;
pub use game::Game;
pub use global_params::{
    GlobalParameter, GlobalParameters, MAX_OCEANS, MAX_OXYGEN, MAX_TEMPERATURE, MAX_VENUS,
    MIN_TEMPERATURE,
};
pub use milestones::{ClaimedMilestone, Milestone, MilestoneData};
pub use minimal_card::{CardId, MinimalCard};
pub use payment::{Payment, PaymentMethod, PaymentReserve};
pub use phase::Phase;
pub use player::{Player, PlayerId};
pub use priority::Priority;
pub use production::Production;
pub use queue::DeferredActionQueue;
pub use random::SeededRandom;
pub use requirements::{CardRequirements, RequirementType};
pub use resources::{Resource, Resources};
pub use space::{Space, SpaceBonus, SpaceId, SpaceType};
pub use standard_actions::StandardActions;
pub use standard_projects::{StandardProjectEffect, StandardProjects};
pub use tags::{Tag, Tags};
pub use tile::Tile;
pub use traits::{ActionCard, CardCustomization, CardDiscount, CardInteraction};
