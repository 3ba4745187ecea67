use vstd::prelude::*;

verus! {

/// The phases of a generation, plus the drafting phases and the terminal phase.
#[derive(Debug, Clone, Copy, PartialEq, Eq, Hash, Structural)]
pub enum Phase {
    /// Initial drafting of project (and optionally prelude) cards.
    InitialDrafting,
    /// Players play their selected prelude cards.
    Preludes,
    /// Players pick the cards that they keep.
    Research,
    /// Card drafting in later generations (draft variant).
    Drafting,
    /// Players take actions.
    Action,
    /// Production is added to resources.
    Production,
    /// World government terraforming (Venus module).
    Solar,
    /// Clean-up and generation increment.
    Intergeneration,
    /// The game is over.
    End,
}

/// The default successor of each phase, before module and generation
/// conditions are taken into account.
pub open spec fn default_next(p: Phase) -> Option<Phase> {
    match p {
        Phase::InitialDrafting => Some(Phase::Research),
        Phase::Research => Some(Phase::Preludes),
        Phase::Preludes => Some(Phase::Action),
        Phase::Drafting => Some(Phase::Research),
        Phase::Action => Some(Phase::Production),
        Phase::Production => Some(Phase::Solar),
        Phase::Solar => Some(Phase::Intergeneration),
        Phase::Intergeneration => Some(Phase::Research),
        Phase::End => None,
    }
}

impl Phase {
    /// The next phase in the default game flow; `None` for `End`.
    pub fn next(&self) -> (r: Option<Phase>)
        ensures
            r == default_next(*self),
    {
        match self {
            Phase::InitialDrafting => Some(Phase::Research),
            Phase::Research => Some(Phase::Preludes),
            Phase::Preludes => Some(Phase::Action),
            Phase::Drafting => Some(Phase::Research),
            Phase::Action => Some(Phase::Production),
            Phase::Production => Some(Phase::Solar),
            Phase::Solar => Some(Phase::Intergeneration),
            Phase::Intergeneration => Some(Phase::Research),
            Phase::End => None,
        }
    }
}

} // verus!
