use vstd::prelude::*;
use crate::error::GameError;
use crate::game::Game;
use crate::global_params::GlobalParameter;
use crate::player::Player;
use crate::tags::Tag;

verus! {

/// One play requirement of a card.
#[derive(Debug, Clone, Copy, PartialEq, Eq, Structural)]
pub enum RequirementType {
    /// At least `count` tags `tag` (Wild tags not counted).
    Tag { tag: Tag, count: u32 },
    /// The parameter's value is at least `count`, or at most `count` when `max`.
    GlobalParameter { parameter: GlobalParameter, count: i32, max: bool },
}

/// Whether one requirement holds for a player in a session.
pub open spec fn requirement_met(r: RequirementType, p: Player, g: Game) -> bool {
    match r {
        RequirementType::Tag { tag, count } => p.tags.counted(tag, false) >= count,
        RequirementType::GlobalParameter { parameter, count, max } => if max {
            g.global_parameters@.value(parameter) <= count
        } else {
            g.global_parameters@.value(parameter) >= count
        },
    }
}

/// The requirements of a card.
#[derive(Debug, Clone, PartialEq, Eq)]
pub struct CardRequirements {
    pub requirements: Vec<RequirementType>,
}

impl CardRequirements {
    /// No requirements.
    pub fn new() -> (r: Self)
        ensures
            r.requirements@.len() == 0,
    {
        CardRequirements { requirements: Vec::new() }
    }

    /// These requirements plus a tag requirement.
    pub fn with_tag_requirement(self, tag: Tag, count: u32) -> (r: Self)
        ensures
            r.requirements@ == self.requirements@.push(RequirementType::Tag { tag, count }),
    {
        let mut c = self;
        c.requirements.push(RequirementType::Tag { tag, count });
        c
    }

    /// These requirements plus a global parameter requirement.
    pub fn with_global_parameter_requirement(self, parameter: GlobalParameter, count: i32, max: bool) -> (r:
        Self)
        ensures
            r.requirements@ == self.requirements@.push(
                RequirementType::GlobalParameter { parameter, count, max },
            ),
    {
        let mut c = self;
        c.requirements.push(RequirementType::GlobalParameter { parameter, count, max });
        c
    }

    /// Checks every requirement against the player and the session.
    pub fn satisfies(&self, player: &Player, game: &Game) -> (r: Result<(), GameError>)
        ensures
            r is Ok <==> forall|i: int|
                0 <= i < self.requirements@.len() ==> requirement_met(
                    #[trigger] self.requirements@[i],
                    *player,
                    *game,
                ),
            r is Err ==> r == Err::<(), GameError>(GameError::RequirementNotMet),
    {
        let mut i: usize = 0;
        while i < self.requirements.len()
            invariant
                i <= self.requirements.len(),
                forall|j: int|
                    0 <= j < i ==> requirement_met(#[trigger] self.requirements@[j], *player, *game),
            decreases self.requirements.len() - i,
        {
            let met = match self.requirements[i] {
                RequirementType::Tag { tag, count } => player.tags.count(tag, false) >= count,
                RequirementType::GlobalParameter { parameter, count, max } => {
                    let v = game.global_parameters.get(parameter);
                    if max {
                        v <= count
                    } else {
                        v >= count
                    }
                },
            };
            if !met {
                return Err(GameError::RequirementNotMet);
            }
            i = i + 1;
        }
        Ok(())
    }
}

impl Default for CardRequirements {
    fn default() -> (r: Self)
        ensures
            r.requirements@.len() == 0,
    {
        CardRequirements::new()
    }
}

} // verus!
