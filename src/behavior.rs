use vstd::prelude::*;
use crate::card_resource::CardResource;
use crate::global_params::GlobalParameter;
use crate::resources::Resource;

verus! {

/// Declarative card effects.
#[derive(Debug, Clone, PartialEq, Eq)]
pub struct Behavior {
    pub production: Option<ProductionChange>,
    pub stock: Option<StockChange>,
    pub standard_resource: Option<StandardResourceGain>,
    pub add_resources: Option<CardResourceGain>,
    /// Change of terraform rating.
    pub tr: Option<i32>,
    pub global: Option<GlobalParameterChange>,
    pub city: Option<TilePlacement>,
    pub greenery: Option<TilePlacement>,
    pub ocean: Option<TilePlacement>,
    pub tile: Option<CustomTilePlacement>,
    pub draw_cards: Option<u32>,
    pub titanium_value: Option<i32>,
    pub steel_value: Option<i32>,
}

impl Default for Behavior {
    fn default() -> (r: Self)
        ensures
            r.production is None && r.stock is None && r.standard_resource is None
                && r.add_resources is None && r.tr is None && r.global is None && r.city is None
                && r.greenery is None && r.ocean is None && r.tile is None && r.draw_cards is None
                && r.titanium_value is None && r.steel_value is None,
    {
        Behavior {
            production: None,
            stock: None,
            standard_resource: None,
            add_resources: None,
            tr: None,
            global: None,
            city: None,
            greenery: None,
            ocean: None,
            tile: None,
            draw_cards: None,
            titanium_value: None,
            steel_value: None,
        }
    }
}

/// Production changes per resource (negative values lower production).
#[derive(Debug, Clone, Copy, PartialEq, Eq, Structural)]
pub struct ProductionChange {
    pub megacredits: Option<i32>,
    pub steel: Option<i32>,
    pub titanium: Option<i32>,
    pub plants: Option<i32>,
    pub energy: Option<i32>,
    pub heat: Option<i32>,
}

impl Default for ProductionChange {
    fn default() -> (r: Self)
        ensures
            r == (ProductionChange {
                megacredits: None,
                steel: None,
                titanium: None,
                plants: None,
                energy: None,
                heat: None,
            }),
    {
        ProductionChange {
            megacredits: None,
            steel: None,
            titanium: None,
            plants: None,
            energy: None,
            heat: None,
        }
    }
}

/// Stock changes per resource (negative values remove stock).
#[derive(Debug, Clone, Copy, PartialEq, Eq, Structural)]
pub struct StockChange {
    pub megacredits: Option<i32>,
    pub steel: Option<i32>,
    pub titanium: Option<i32>,
    pub plants: Option<i32>,
    pub energy: Option<i32>,
    pub heat: Option<i32>,
}

impl Default for StockChange {
    fn default() -> (r: Self)
        ensures
            r == (StockChange {
                megacredits: None,
                steel: None,
                titanium: None,
                plants: None,
                energy: None,
                heat: None,
            }),
    {
        StockChange {
            megacredits: None,
            steel: None,
            titanium: None,
            plants: None,
            energy: None,
            heat: None,
        }
    }
}

/// A gain of one standard resource.
#[derive(Debug, Clone, Copy, PartialEq, Eq, Structural)]
pub struct StandardResourceGain {
    pub resource: Resource,
    pub amount: u32,
}

/// Resources added to the card itself.
#[derive(Debug, Clone, Copy, PartialEq, Eq, Structural)]
pub struct CardResourceGain {
    pub resource: CardResource,
    pub amount: u32,
}

/// A change of a global parameter, in steps.
#[derive(Debug, Clone, Copy, PartialEq, Eq, Structural)]
pub struct GlobalParameterChange {
    pub parameter: GlobalParameter,
    pub steps: i32,
}

/// A tile placement; without a space the player chooses.
#[derive(Debug, Clone, PartialEq, Eq)]
pub struct TilePlacement {
    pub space_id: Option<String>,
}

/// Placement of a card-specific tile.
#[derive(Debug, Clone, PartialEq, Eq)]
pub struct CustomTilePlacement {
    pub tile_type: String,
    pub space_id: Option<String>,
}

} // verus!
