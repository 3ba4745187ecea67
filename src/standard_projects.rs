use vstd::prelude::*;
use crate::action::{StandardProjectParams, StandardProjectType};
use crate::error::GameError;
use crate::ids::{all_held, first_index, find_text};
use crate::research::all_in;
use crate::player::Player;
use crate::production::Production;
use crate::resources::Resource;

verus! {

pub const SELL_PATENTS_COST: u32 = 0;
pub const POWER_PLANT_COST: u32 = 11;
pub const ASTEROID_COST: u32 = 14;
pub const AQUIFER_COST: u32 = 18;
pub const GREENERY_COST: u32 = 23;
pub const CITY_COST: u32 = 25;

/// The currency cost of a standard project.
pub open spec fn project_cost(t: StandardProjectType) -> u32 {
    match t {
        StandardProjectType::SellPatents => 0,
        StandardProjectType::PowerPlant => 11,
        StandardProjectType::Asteroid => 14,
        StandardProjectType::Aquifer => 18,
        StandardProjectType::Greenery => 23,
        StandardProjectType::City => 25,
    }
}

/// `hand` after removing the first copy of each of `ids` in turn; `None` when
/// one of them is missing by then.
pub open spec fn removed_each(hand: Seq<String>, ids: Seq<String>) -> Option<Seq<String>>
    decreases ids.len(),
{
    if ids.len() == 0 {
        Some(hand)
    } else {
        match removed_each(hand, ids.drop_last()) {
            None => None,
            Some(h) => match first_index(h, ids.last()@) {
                None => None,
                Some(i) => Some(h.remove(i)),
            },
        }
    }
}

/// What a standard project asks the session to do.
#[derive(Debug, Clone, Copy, PartialEq, Eq, Structural)]
pub enum StandardProjectEffect {
    NoEffect,
    RaiseTemperature { steps: u32 },
    PlaceOcean,
    PlaceGreenery,
    PlaceCity,
}

/// The check of a standard project's own requirements: Sell Patents needs
/// at least one card, each of them in hand.
pub open spec fn project_check(t: StandardProjectType, p: Player, params: StandardProjectParams) -> Result<
    (),
    GameError,
> {
    match t {
        StandardProjectType::SellPatents => if params.card_ids@.len() == 0 {
            Err(GameError::InvalidSelectionCount)
        } else if !all_in(params.card_ids@, p.cards_in_hand@) {
            Err(GameError::InvalidSelection)
        } else {
            Ok(())
        },
        _ => Ok(()),
    }
}

/// What `execute` returns: Sell Patents fails when its cards cannot all be
/// taken from the hand (with multiplicity); other projects always succeed.
pub open spec fn project_result(t: StandardProjectType, p: Player, params: StandardProjectParams) -> Result<
    StandardProjectEffect,
    GameError,
> {
    match t {
        StandardProjectType::SellPatents => if removed_each(p.cards_in_hand@, params.card_ids@) is None {
            Err(GameError::InvalidSelection)
        } else {
            Ok(StandardProjectEffect::NoEffect)
        },
        _ => Ok(project_effect(t)),
    }
}

/// The effect that a standard project hands back.
pub open spec fn project_effect(t: StandardProjectType) -> StandardProjectEffect {
    match t {
        StandardProjectType::SellPatents => StandardProjectEffect::NoEffect,
        StandardProjectType::PowerPlant => StandardProjectEffect::NoEffect,
        StandardProjectType::Asteroid => StandardProjectEffect::RaiseTemperature { steps: 1 },
        StandardProjectType::Aquifer => StandardProjectEffect::PlaceOcean,
        StandardProjectType::Greenery => StandardProjectEffect::PlaceGreenery,
        StandardProjectType::City => StandardProjectEffect::PlaceCity,
    }
}

/// The player after a standard project that passed its check.
pub open spec fn project_applied(
    t: StandardProjectType,
    p: Player,
    params: StandardProjectParams,
    q: Player,
) -> bool {
    match t {
        StandardProjectType::SellPatents => {
            &&& q == (Player { cards_in_hand: q.cards_in_hand, resources: q.resources, ..p })
            &&& removed_each(p.cards_in_hand@, params.card_ids@) == Some(q.cards_in_hand@)
            &&& q.resources == p.resources.added(
                Resource::Megacredits,
                params.card_ids@.len() as int,
            )
        },
        StandardProjectType::PowerPlant => q == (Player {
            production: p.production.with_rate(
                Resource::Energy,
                p.production.rate(Resource::Energy) + 1,
            ),
            ..p
        }),
        _ => q == p,
    }
}

/// Costs, checks and effects of the standard projects.
pub struct StandardProjects;

impl StandardProjects {
    /// The currency cost of a standard project.
    pub fn cost(project_type: StandardProjectType) -> (r: u32)
        ensures
            r == project_cost(project_type),
    {
        match project_type {
            StandardProjectType::SellPatents => SELL_PATENTS_COST,
            StandardProjectType::PowerPlant => POWER_PLANT_COST,
            StandardProjectType::Asteroid => ASTEROID_COST,
            StandardProjectType::Aquifer => AQUIFER_COST,
            StandardProjectType::Greenery => GREENERY_COST,
            StandardProjectType::City => CITY_COST,
        }
    }

    /// Removes the first copy of each of `ids` from `hand`, in turn.
    fn remove_each(hand: &Vec<String>, ids: &Vec<String>) -> (r: Option<Vec<String>>)
        ensures
            r is None <==> removed_each(hand@, ids@) is None,
            r matches Some(h) ==> removed_each(hand@, ids@) == Some(h@),
    {
        let mut h: Vec<String> = hand.clone();
        proof {
            assert(h@ =~= hand@);
            assert(ids@.take(0) =~= Seq::<String>::empty());
        }
        let mut k: usize = 0;
        while k < ids.len()
            invariant
                k <= ids.len(),
                removed_each(hand@, ids@.take(k as int)) == Some(h@),
            decreases ids.len() - k,
        {
            proof {
                assert(ids@.take(k as int + 1).drop_last() =~= ids@.take(k as int));
                assert(ids@.take(k as int + 1).last() == ids@[k as int]);
            }
            match find_text(&h, &ids[k]) {
                Some(i) => {
                    h.remove(i);
                },
                None => {
                    proof {
                        lemma_removed_each_none(hand@, ids@, k as int + 1);
                        assert(ids@.take(ids.len() as int) =~= ids@);
                    }
                    return None;
                },
            }
            k = k + 1;
        }
        proof {
            assert(ids@.take(ids.len() as int) =~= ids@);
        }
        Some(h)
    }

    /// Whether the project can take its cards from the hand: for Sell
    /// Patents, every listed copy; always for other projects.
    pub fn sell_patents_removable(
        project_type: StandardProjectType,
        player: &Player,
        params: &StandardProjectParams,
    ) -> (r: bool)
        ensures
            r == project_result(project_type, *player, *params) is Ok,
    {
        match project_type {
            StandardProjectType::SellPatents => Self::remove_each(
                &player.cards_in_hand,
                &params.card_ids,
            ).is_some(),
            _ => true,
        }
    }

    /// Checks a standard project's own requirements: Sell Patents needs at
    /// least one card, each of them in hand.
    pub fn can_execute(
        project_type: StandardProjectType,
        player: &Player,
        params: &StandardProjectParams,
    ) -> (r: Result<(), GameError>)
        ensures
            r == project_check(project_type, *player, *params),
    {
        match project_type {
            StandardProjectType::SellPatents => {
                if params.card_ids.len() == 0 {
                    return Err(GameError::InvalidSelectionCount);
                }
                if all_held(&params.card_ids, &player.cards_in_hand) {
                    Ok(())
                } else {
                    Err(GameError::InvalidSelection)
                }
            },
            _ => Ok(()),
        }
    }

    /// Applies a standard project's own part to the player and returns what
    /// the session must do. Sell Patents discards its cards (each listed copy
    /// from the hand) for 1 currency each, and fails, changing nothing, when
    /// the hand does not hold them all; with no cards it changes nothing.
    pub fn execute(
        project_type: StandardProjectType,
        player: &mut Player,
        params: &StandardProjectParams,
    ) -> (r: Result<StandardProjectEffect, GameError>)
        ensures
            r == project_result(project_type, *old(player), *params),
            r is Err ==> *final(player) == *old(player),
            r is Ok ==> project_applied(project_type, *old(player), *params, *final(player)),
            project_type == StandardProjectType::SellPatents && params.card_ids@.len() == 0
                ==> *final(player) == *old(player),
    {
        match project_type {
            StandardProjectType::SellPatents => {
                if params.card_ids.len() == 0 {
                    proof {
                        assert(player.resources.added(crate::resources::Resource::Megacredits, 0)
                            == player.resources);
                    }
                    return Ok(StandardProjectEffect::NoEffect);
                }
                let remaining = match Self::remove_each(&player.cards_in_hand, &params.card_ids) {
                    Some(h) => h,
                    None => {
                        return Err(GameError::InvalidSelection);
                    },
                };
                let count: u32 = if params.card_ids.len() > u32::MAX as usize {
                    u32::MAX
                } else {
                    params.card_ids.len() as u32
                };
                player.cards_in_hand = remaining;
                player.resources.add(Resource::Megacredits, count);
                Ok(StandardProjectEffect::NoEffect)
            },
            StandardProjectType::PowerPlant => {
                player.production.add(Resource::Energy, 1);
                Ok(StandardProjectEffect::NoEffect)
            },
            StandardProjectType::Asteroid => Ok(StandardProjectEffect::RaiseTemperature { steps: 1 }),
            StandardProjectType::Aquifer => Ok(StandardProjectEffect::PlaceOcean),
            StandardProjectType::Greenery => Ok(StandardProjectEffect::PlaceGreenery),
            StandardProjectType::City => Ok(StandardProjectEffect::PlaceCity),
        }
    }
}

/// Once a removal fails, removing more ids fails too.
proof fn lemma_removed_each_none(hand: Seq<String>, ids: Seq<String>, k: int)
    requires
        0 <= k <= ids.len(),
        removed_each(hand, ids.take(k)) is None,
    ensures
        removed_each(hand, ids) is None,
    decreases ids.len() - k,
{
    if k < ids.len() {
        assert(ids.take(k + 1).drop_last() =~= ids.take(k));
        lemma_removed_each_none(hand, ids, k + 1);
    } else {
        assert(ids.take(k) =~= ids);
    }
}

} // verus!
