use vstd::prelude::*;
use crate::behavior::{Behavior, GlobalParameterChange, ProductionChange, StandardResourceGain, StockChange};
use crate::error::GameError;
use crate::game::Game;
use crate::player::Player;
use crate::production::Production;
use crate::resources::{Resource, Resources};

verus! {

/// Production after one optional change of one resource.
pub open spec fn production_step(p: Production, r: Resource, c: Option<i32>) -> Production {
    match c {
        Some(a) => p.with_rate(r, p.rate(r) + a),
        None => p,
    }
}

/// Production after a production change.
pub open spec fn production_changed(p: Production, c: ProductionChange) -> Production {
    production_step(
        production_step(
            production_step(
                production_step(
                    production_step(
                        production_step(p, Resource::Megacredits, c.megacredits),
                        Resource::Steel,
                        c.steel,
                    ),
                    Resource::Titanium,
                    c.titanium,
                ),
                Resource::Plants,
                c.plants,
            ),
            Resource::Energy,
            c.energy,
        ),
        Resource::Heat,
        c.heat,
    )
}

/// Stock after one optional change of one resource: positive amounts add,
/// others remove (stopping at zero).
pub open spec fn stock_step(s: Resources, r: Resource, c: Option<i32>) -> Resources {
    match c {
        Some(a) => if a > 0 {
            s.added(r, a as int)
        } else {
            s.subtracted(r, -a)
        },
        None => s,
    }
}

/// Stock after a stock change.
pub open spec fn stock_changed(s: Resources, c: StockChange) -> Resources {
    stock_step(
        stock_step(
            stock_step(
                stock_step(
                    stock_step(stock_step(s, Resource::Megacredits, c.megacredits), Resource::Steel, c.steel),
                    Resource::Titanium,
                    c.titanium,
                ),
                Resource::Plants,
                c.plants,
            ),
            Resource::Energy,
            c.energy,
        ),
        Resource::Heat,
        c.heat,
    )
}

/// Terraform rating after a change: never below zero, capped at `i32::MAX`.
pub open spec fn tr_changed(tr: i32, change: i32) -> i32 {
    let v = tr + change;
    if v < 0 {
        0
    } else if v > i32::MAX {
        i32::MAX
    } else {
        v as i32
    }
}

/// The player after the player-side effects of a behavior.
pub open spec fn behavior_on_player(b: Behavior, p: Player) -> Player {
    let p1 = match b.production {
        Some(c) => Player { production: production_changed(p.production, c), ..p },
        None => p,
    };
    let p2 = match b.stock {
        Some(c) => Player { resources: stock_changed(p1.resources, c), ..p1 },
        None => p1,
    };
    let p3 = match b.standard_resource {
        Some(g) => Player { resources: p2.resources.added(g.resource, g.amount as int), ..p2 },
        None => p2,
    };
    match b.tr {
        Some(t) => Player { terraform_rating: tr_changed(p3.terraform_rating, t), ..p3 },
        None => p3,
    }
}

/// The session after the global effect of a behavior: raises only (the
/// parameters never decrease).
pub open spec fn behavior_on_game(b: Behavior, g0: Game, g1: Game) -> bool {
    &&& g1 == (Game { global_parameters: g1.global_parameters, ..g0 })
    &&& g1.global_parameters@ == match b.global {
        Some(c) => if c.steps > 0 {
            g0.global_parameters@.increased(c.parameter, c.steps as nat)
        } else {
            g0.global_parameters@
        },
        None => g0.global_parameters@,
    }
}

/// Interprets declarative card behaviors.
pub struct BehaviorExecutor;

impl BehaviorExecutor {
    /// Applies a behavior: production, stock, resource gain and terraform
    /// rating to the player; global parameter raises to the session.
    pub fn execute(behavior: &Behavior, player: &mut Player, game: &mut Game) -> (r: Result<
        (),
        GameError,
    >)
        ensures
            r is Ok,
            *final(player) == behavior_on_player(*behavior, *old(player)),
            behavior_on_game(*behavior, *old(game), *final(game)),
    {
        match &behavior.production {
            Some(c) => {
                let _ = Self::apply_production_change(player, c);
            },
            None => {},
        }
        match &behavior.stock {
            Some(c) => {
                let _ = Self::apply_stock_change(player, c);
            },
            None => {},
        }
        match &behavior.standard_resource {
            Some(g) => {
                let _ = Self::apply_standard_resource_gain(player, g);
            },
            None => {},
        }
        match behavior.tr {
            Some(t) => {
                let v: i64 = player.terraform_rating as i64 + t as i64;
                player.terraform_rating = if v < 0 {
                    0
                } else if v > i32::MAX as i64 {
                    i32::MAX
                } else {
                    v as i32
                };
            },
            None => {},
        }
        match &behavior.global {
            Some(c) => {
                let _ = Self::apply_global_parameter_change(game, c);
            },
            None => {},
        }
        Ok(())
    }

    fn production_step(player: &mut Player, r: Resource, c: Option<i32>)
        ensures
            *final(player) == (Player {
                production: production_step(old(player).production, r, c),
                ..*old(player)
            }),
    {
        match c {
            Some(a) => player.production.add(r, a),
            None => {},
        }
    }

    /// Applies a production change to the player.
    pub fn apply_production_change(player: &mut Player, change: &ProductionChange) -> (r: Result<
        (),
        GameError,
    >)
        ensures
            r is Ok,
            *final(player) == (Player {
                production: production_changed(old(player).production, *change),
                ..*old(player)
            }),
    {
        Self::production_step(player, Resource::Megacredits, change.megacredits);
        Self::production_step(player, Resource::Steel, change.steel);
        Self::production_step(player, Resource::Titanium, change.titanium);
        Self::production_step(player, Resource::Plants, change.plants);
        Self::production_step(player, Resource::Energy, change.energy);
        Self::production_step(player, Resource::Heat, change.heat);
        Ok(())
    }

    fn stock_step(player: &mut Player, r: Resource, c: Option<i32>)
        ensures
            *final(player) == (Player {
                resources: stock_step(old(player).resources, r, c),
                ..*old(player)
            }),
    {
        match c {
            Some(a) => {
                if a > 0 {
                    player.resources.add(r, a as u32);
                } else {
                    player.resources.subtract(r, (0 - (a as i64)) as u32);
                }
            },
            None => {},
        }
    }

    /// Applies a stock change to the player.
    pub fn apply_stock_change(player: &mut Player, change: &StockChange) -> (r: Result<
        (),
        GameError,
    >)
        ensures
            r is Ok,
            *final(player) == (Player {
                resources: stock_changed(old(player).resources, *change),
                ..*old(player)
            }),
    {
        Self::stock_step(player, Resource::Megacredits, change.megacredits);
        Self::stock_step(player, Resource::Steel, change.steel);
        Self::stock_step(player, Resource::Titanium, change.titanium);
        Self::stock_step(player, Resource::Plants, change.plants);
        Self::stock_step(player, Resource::Energy, change.energy);
        Self::stock_step(player, Resource::Heat, change.heat);
        Ok(())
    }

    /// Gives the player a standard resource.
    pub fn apply_standard_resource_gain(player: &mut Player, gain: &StandardResourceGain) -> (r:
        Result<(), GameError>)
        ensures
            r is Ok,
            *final(player) == (Player {
                resources: old(player).resources.added(gain.resource, gain.amount as int),
                ..*old(player)
            }),
    {
        player.resources.add(gain.resource, gain.amount);
        Ok(())
    }

    /// Raises a global parameter; lowering requests are ignored, since the
    /// parameters never decrease.
    fn apply_global_parameter_change(game: &mut Game, change: &GlobalParameterChange) -> (r: Result<
        (),
        GameError,
    >)
        ensures
            r is Ok,
            *final(game) == (Game { global_parameters: final(game).global_parameters, ..*old(game) }),
            final(game).global_parameters@ == if change.steps > 0 {
                old(game).global_parameters@.increased(change.parameter, change.steps as nat)
            } else {
                old(game).global_parameters@
            },
    {
        if change.steps > 0 {
            game.global_parameters.increase(change.parameter, change.steps as u32);
        }
        Ok(())
    }
}

} // verus!
