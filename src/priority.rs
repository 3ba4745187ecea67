use vstd::prelude::*;

verus! {

/// Resolution rank of a deferred effect; lower ranks resolve first.
#[derive(Debug, Clone, Copy, PartialEq, Eq, PartialOrd, Ord, Hash, Structural)]
pub enum Priority {
    /// Paying a cost; comes before the effects it pays for.
    Cost,
    DrawCards,
    PlaceOceanTile,
    /// Anything without a more specific rank.
    Default,
    GainResourceOrProduction,
    LoseResourceOrProduction,
    DiscardCards,
    /// After everything else.
    BackOfTheLine,
}

/// The numeric rank of a priority.
pub open spec fn rank(p: Priority) -> u32 {
    match p {
        Priority::Cost => 0,
        Priority::DrawCards => 10,
        Priority::PlaceOceanTile => 20,
        Priority::Default => 50,
        Priority::GainResourceOrProduction => 60,
        Priority::LoseResourceOrProduction => 70,
        Priority::DiscardCards => 80,
        Priority::BackOfTheLine => 100,
    }
}

impl Priority {
    /// The numeric rank (lower resolves first).
    pub fn value(&self) -> (r: u32)
        ensures
            r == rank(*self),
    {
        match self {
            Priority::Cost => 0,
            Priority::DrawCards => 10,
            Priority::PlaceOceanTile => 20,
            Priority::Default => 50,
            Priority::GainResourceOrProduction => 60,
            Priority::LoseResourceOrProduction => 70,
            Priority::DiscardCards => 80,
            Priority::BackOfTheLine => 100,
        }
    }
}

impl Default for Priority {
    fn default() -> (r: Self)
        ensures
            r == Priority::Default,
    {
        Priority::Default
    }
}

} // verus!
