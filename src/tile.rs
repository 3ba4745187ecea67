use vstd::prelude::*;

verus! {

/// Tiles that can be placed on the board.
#[derive(Debug, Clone, PartialEq, Eq, Hash)]
pub enum Tile {
    City,
    Greenery,
    Ocean,
    /// A card-specific tile, named by the card or tile identifier.
    Special(String),
}

impl Tile {
    /// The basic tiles: city, greenery and ocean.
    pub fn basic_types() -> (r: Vec<Tile>)
        ensures
            r@.len() == 3,
            r@[0] is City,
            r@[1] is Greenery,
            r@[2] is Ocean,
    {
        vec![Tile::City, Tile::Greenery, Tile::Ocean]
    }

    /// Whether this is a card-specific tile.
    pub fn is_special(&self) -> (r: bool)
        ensures
            r == self is Special,
    {
        match self {
            Tile::Special(_) => true,
            _ => false,
        }
    }
}

} // verus!
