use vstd::prelude::*;

verus! {

/// Identifier of a card.
pub type CardId = String;

/// A card known only by id and name.
#[derive(Debug, Clone, PartialEq, Eq)]
pub struct MinimalCard {
    pub id: CardId,
    pub name: String,
}

impl MinimalCard {
    pub fn new(id: CardId, name: String) -> (r: Self)
        ensures
            r.id == id,
            r.name == name,
    {
        MinimalCard { id, name }
    }
}

} // verus!
