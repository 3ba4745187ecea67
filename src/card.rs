use vstd::prelude::*;
use crate::behavior::Behavior;
use crate::card_resource::CardResource;
use crate::card_type::CardType;
use crate::minimal_card::CardId;
use crate::requirements::CardRequirements;
use crate::tags::Tag;

verus! {

/// A card definition.
#[derive(Debug, Clone, PartialEq, Eq)]
pub struct Card {
    pub id: CardId,
    pub name: String,
    /// Currency cost; none means free.
    pub cost: Option<u32>,
    pub tags: Vec<Tag>,
    pub card_type: CardType,
    pub behavior: Option<Behavior>,
    /// The resource this card collects, if any.
    pub resource_type: Option<CardResource>,
    pub victory_points: Option<i32>,
    pub requirements: Option<CardRequirements>,
}

impl Card {
    /// A card with no cost, tags, behavior or requirements.
    pub fn new(id: CardId, name: String, card_type: CardType) -> (r: Self)
        ensures
            r.id == id,
            r.name == name,
            r.card_type == card_type,
            r.cost is None,
            r.tags@.len() == 0,
            r.behavior is None,
            r.resource_type is None,
            r.victory_points is None,
            r.requirements is None,
    {
        Card {
            id,
            name,
            cost: None,
            tags: Vec::new(),
            card_type,
            behavior: None,
            resource_type: None,
            victory_points: None,
            requirements: None,
        }
    }

    /// This card with a cost.
    pub fn with_cost(self, cost: u32) -> (r: Self)
        ensures
            r == (Card { cost: Some(cost), ..self }),
    {
        let mut c = self;
        c.cost = Some(cost);
        c
    }

    /// This card with these tags.
    pub fn with_tags(self, tags: Vec<Tag>) -> (r: Self)
        ensures
            r == (Card { tags, ..self }),
    {
        let mut c = self;
        c.tags = tags;
        c
    }

    /// This card with a behavior.
    pub fn with_behavior(self, behavior: Behavior) -> (r: Self)
        ensures
            r == (Card { behavior: Some(behavior), ..self }),
    {
        let mut c = self;
        c.behavior = Some(behavior);
        c
    }

    /// This card collecting a card resource.
    pub fn with_resource_type(self, resource_type: CardResource) -> (r: Self)
        ensures
            r == (Card { resource_type: Some(resource_type), ..self }),
    {
        let mut c = self;
        c.resource_type = Some(resource_type);
        c
    }

    /// This card worth victory points.
    pub fn with_victory_points(self, victory_points: i32) -> (r: Self)
        ensures
            r == (Card { victory_points: Some(victory_points), ..self }),
    {
        let mut c = self;
        c.victory_points = Some(victory_points);
        c
    }

    /// This card with play requirements.
    pub fn with_requirements(self, requirements: CardRequirements) -> (r: Self)
        ensures
            r == (Card { requirements: Some(requirements), ..self }),
    {
        let mut c = self;
        c.requirements = Some(requirements);
        c
    }

    /// Whether the card carries a tag.
    pub fn has_tag(&self, tag: Tag) -> (r: bool)
        ensures
            r == self.tags@.contains(tag),
    {
        let mut i: usize = 0;
        while i < self.tags.len()
            invariant
                i <= self.tags.len(),
                forall|j: int| 0 <= j < i ==> self.tags@[j] != tag,
            decreases self.tags.len() - i,
        {
            if self.tags[i] == tag {
                return true;
            }
            i = i + 1;
        }
        false
    }

    /// The card's cost; zero when it has none.
    pub fn get_cost(&self) -> (r: u32)
        ensures
            r == match self.cost {
                Some(c) => c,
                None => 0,
            },
    {
        match self.cost {
            Some(c) => c,
            None => 0,
        }
    }
}

} // verus!
