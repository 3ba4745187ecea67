use vstd::prelude::*;
use crate::error::GameError;
use crate::player::Player;
use crate::resources::Resource;

verus! {

/// Plants spent by Convert Plants, and heat spent by Convert Heat.
pub const CONVERSION_COST: u32 = 8;

/// The terraform rating after a one-step raise (it stops at `i32::MAX`).
pub open spec fn raised_tr(tr: i32) -> i32 {
    if tr < i32::MAX {
        (tr + 1) as i32
    } else {
        tr
    }
}

/// The player after Convert Heat.
pub open spec fn after_convert_heat(p: Player) -> Player {
    Player {
        resources: p.resources.subtracted(Resource::Heat, 8),
        terraform_rating: raised_tr(p.terraform_rating),
        ..p
    }
}

/// The player after Convert Plants.
pub open spec fn after_convert_plants(p: Player) -> Player {
    Player { resources: p.resources.subtracted(Resource::Plants, 8), ..p }
}

/// The two conversions that every player has.
pub struct StandardActions;

impl StandardActions {
    /// Convert Plants needs 8 plants.
    pub fn can_convert_plants(player: &Player) -> (r: Result<(), GameError>)
        ensures
            r == if player.resources.plants >= 8 {
                Ok::<(), GameError>(())
            } else {
                Err(GameError::InsufficientResource)
            },
    {
        if player.resources.get(Resource::Plants) < CONVERSION_COST {
            return Err(GameError::InsufficientResource);
        }
        Ok(())
    }

    /// Spends 8 plants; the greenery and oxygen raise are applied by the
    /// caller. Fails, changing nothing, with fewer than 8 plants.
    pub fn convert_plants(player: &mut Player) -> (r: Result<(), GameError>)
        ensures
            r is Ok <==> old(player).resources.plants >= 8,
            r is Err ==> r == Err::<(), GameError>(GameError::InsufficientResource)
                && *final(player) == *old(player),
            r is Ok ==> *final(player) == after_convert_plants(*old(player)),
    {
        Self::can_convert_plants(player)?;
        player.resources.subtract(Resource::Plants, CONVERSION_COST);
        Ok(())
    }

    /// Convert Heat needs 8 heat.
    pub fn can_convert_heat(player: &Player) -> (r: Result<(), GameError>)
        ensures
            r == if player.resources.heat >= 8 {
                Ok::<(), GameError>(())
            } else {
                Err(GameError::InsufficientResource)
            },
    {
        if player.resources.get(Resource::Heat) < CONVERSION_COST {
            return Err(GameError::InsufficientResource);
        }
        Ok(())
    }

    /// Spends 8 heat and raises the terraform rating by 1. Fails, changing
    /// nothing, with less than 8 heat.
    pub fn convert_heat(player: &mut Player) -> (r: Result<(), GameError>)
        ensures
            r is Ok <==> old(player).resources.heat >= 8,
            r is Err ==> r == Err::<(), GameError>(GameError::InsufficientResource)
                && *final(player) == *old(player),
            r is Ok ==> *final(player) == after_convert_heat(*old(player)),
    {
        Self::can_convert_heat(player)?;
        player.resources.subtract(Resource::Heat, CONVERSION_COST);
        if player.terraform_rating < i32::MAX {
            player.terraform_rating = player.terraform_rating + 1;
        }
        Ok(())
    }
}

} // verus!
