use vstd::prelude::*;

verus! {

/// Failure kinds reported by the session's operations.
///
/// `AwaitingInput` is a control signal rather than a failure: action dispatch
/// is held back until a stalled deferred effect gets its missing decision.
#[derive(Debug, Clone, Copy, PartialEq, Eq, Structural)]
pub enum GameError {
    /// The operation was invoked outside the phase that it needs.
    PhaseMismatch,
    /// An unknown player, award, milestone, card or space was named.
    NotFound,
    /// The milestone is already claimed.
    AlreadyClaimed,
    /// The award is already funded.
    AlreadyFunded,
    /// A payment, reserve or stock falls short.
    InsufficientResource,
    /// The active player already used the actions of this turn.
    ActionBudgetExceeded,
    /// A deferred effect waits for a decision of a player.
    AwaitingInput,
    /// A selection holds the wrong number of cards.
    InvalidSelectionCount,
    /// A selected card is not among the cards that it must come from.
    InvalidSelection,
    /// A payment uses a resource that cannot pay for this item.
    InvalidPayment,
    /// The optional rule module that the operation belongs to is disabled.
    ModuleDisabled,
    /// Not every player has finished the current step.
    NotReady,
    /// The card was already played.
    AlreadyPlayed,
    /// The space already holds a tile, or cannot hold this one.
    SpaceUnavailable,
    /// There is no active player.
    NoActivePlayer,
    /// The session holds no players.
    NoPlayers,
    /// The session has ended.
    GameOver,
    /// A card's play requirement is not met.
    RequirementNotMet,
}

impl GameError {
    /// A short human-readable description of the error.
    pub fn message(&self) -> (r: String)
        ensures
            r@.len() > 0,
    {
        let s: &str = match self {
            GameError::PhaseMismatch => "Operation not allowed in the current phase",
            GameError::NotFound => "Not found",
            GameError::AlreadyClaimed => "Milestone already claimed",
            GameError::AlreadyFunded => "Award already funded",
            GameError::InsufficientResource => "Cannot afford: insufficient resources",
            GameError::ActionBudgetExceeded => "No actions left this turn",
            GameError::AwaitingInput => "Awaiting player input",
            GameError::InvalidSelectionCount => "Wrong number of cards selected",
            GameError::InvalidSelection => "Selected card is not available",
            GameError::InvalidPayment => "Resource cannot be used for this payment",
            GameError::ModuleDisabled => "Expansion not enabled",
            GameError::NotReady => "Not all players are done",
            GameError::AlreadyPlayed => "Card already played",
            GameError::SpaceUnavailable => "Space cannot accept the tile",
            GameError::NoActivePlayer => "No active player",
            GameError::NoPlayers => "No players",
            GameError::GameOver => "Game has ended",
            GameError::RequirementNotMet => "Card requirement not met",
        };
        proof {
            reveal_strlit("Operation not allowed in the current phase");
            reveal_strlit("Not found");
            reveal_strlit("Milestone already claimed");
            reveal_strlit("Award already funded");
            reveal_strlit("Cannot afford: insufficient resources");
            reveal_strlit("No actions left this turn");
            reveal_strlit("Awaiting player input");
            reveal_strlit("Wrong number of cards selected");
            reveal_strlit("Selected card is not available");
            reveal_strlit("Resource cannot be used for this payment");
            reveal_strlit("Expansion not enabled");
            reveal_strlit("Not all players are done");
            reveal_strlit("Card already played");
            reveal_strlit("Space cannot accept the tile");
            reveal_strlit("No active player");
            reveal_strlit("No players");
            reveal_strlit("Game has ended");
            reveal_strlit("Card requirement not met");
        }
        s.to_owned()
    }
}

} // verus!
