use vstd::prelude::*;
use crate::error::GameError;
use crate::tile::Tile;

verus! {

/// Kinds of board space.
#[derive(Debug, Clone, Copy, PartialEq, Eq, Hash, Structural)]
pub enum SpaceType {
    /// Takes cities, greeneries and special tiles.
    Land,
    /// Takes ocean tiles.
    Ocean,
    /// Off-board colony space; takes no tile here.
    Colony,
}

/// Bonuses granted by placing a tile on a space.
#[derive(Debug, Clone, Copy, PartialEq, Eq, Hash, Structural)]
pub enum SpaceBonus {
    Titanium,
    Steel,
    Plant,
    DrawCard,
    Heat,
    Ocean,
}

/// Identifier of a space.
pub type SpaceId = String;

/// A space of the board.
#[derive(Debug, Clone)]
pub struct Space {
    pub id: SpaceId,
    pub x: i32,
    pub y: i32,
    pub space_type: SpaceType,
    pub tile: Option<Tile>,
    pub player_id: Option<String>,
    pub bonus: Vec<SpaceBonus>,
}

/// Whether a space of type `st` takes tile `t`.
pub open spec fn type_accepts(st: SpaceType, t: Tile) -> bool {
    match st {
        SpaceType::Ocean => t is Ocean,
        SpaceType::Land => !(t is Ocean),
        SpaceType::Colony => false,
    }
}

impl Space {
    /// Whether the space is free and of a type that takes tile `t`.
    pub open spec fn accepts(self, t: Tile) -> bool {
        self.tile is None && type_accepts(self.space_type, t)
    }

    /// An empty space.
    pub fn new(id: SpaceId, x: i32, y: i32, space_type: SpaceType, bonus: Vec<SpaceBonus>) -> (r: Self)
        ensures
            r.id == id,
            r.x == x,
            r.y == y,
            r.space_type == space_type,
            r.tile is None,
            r.player_id is None,
            r.bonus == bonus,
    {
        Space { id, x, y, space_type, tile: None, player_id: None, bonus }
    }

    /// Whether no tile is on the space.
    pub fn is_available(&self) -> (r: bool)
        ensures
            r == self.tile is None,
    {
        self.tile.is_none()
    }

    /// Whether the space is free and takes this tile.
    pub fn can_accept_tile(&self, tile: &Tile) -> (r: bool)
        ensures
            r == self.accepts(*tile),
    {
        if !self.is_available() {
            return false;
        }
        match self.space_type {
            SpaceType::Ocean => match tile {
                Tile::Ocean => true,
                _ => false,
            },
            SpaceType::Land => match tile {
                Tile::Ocean => false,
                _ => true,
            },
            SpaceType::Colony => false,
        }
    }

    /// Places a tile owned by `player_id`; fails, changing nothing, when the
    /// space is taken or does not take this tile.
    pub fn place_tile(&mut self, tile: Tile, player_id: String) -> (r: Result<(), GameError>)
        ensures
            r is Ok <==> old(self).accepts(tile),
            r is Err ==> *final(self) == *old(self) && r == Err::<(), GameError>(
                GameError::SpaceUnavailable,
            ),
            r is Ok ==> *final(self) == (Space {
                tile: Some(tile),
                player_id: Some(player_id),
                ..*old(self)
            }),
    {
        if !self.can_accept_tile(&tile) {
            return Err(GameError::SpaceUnavailable);
        }
        self.tile = Some(tile);
        self.player_id = Some(player_id);
        Ok(())
    }

    /// Clears the space.
    pub fn remove_tile(&mut self)
        ensures
            *final(self) == (Space { tile: None, player_id: None, ..*old(self) }),
    {
        self.tile = None;
        self.player_id = None;
    }
}

} // verus!
