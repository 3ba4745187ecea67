use vstd::prelude::*;

verus! {

/// Kinds of card.
#[derive(Debug, Clone, Copy, PartialEq, Eq, Hash, Structural)]
pub enum CardType {
    /// Effects apply when played.
    Automated,
    /// Has an action that can be used.
    Active,
    /// One-time effect, then discarded.
    Event,
    /// Played at the start of the game.
    Prelude,
    /// A starting corporation.
    Corporation,
    /// A standard project open to all players.
    StandardProject,
    /// A standard action open to all players.
    StandardAction,
}

impl CardType {
    /// All card types.
    pub fn all() -> (r: Vec<CardType>)
        ensures
            r@ == seq![
                CardType::Automated,
                CardType::Active,
                CardType::Event,
                CardType::Prelude,
                CardType::Corporation,
                CardType::StandardProject,
                CardType::StandardAction,
            ],
    {
        vec![
            CardType::Automated,
            CardType::Active,
            CardType::Event,
            CardType::Prelude,
            CardType::Corporation,
            CardType::StandardProject,
            CardType::StandardAction,
        ]
    }
}

} // verus!
