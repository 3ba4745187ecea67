use vstd::prelude::*;
use crate::ids::{first_index, find_text, text};
use crate::production::Production;
use crate::resources::Resources;
use crate::tags::{Tag, Tags};

verus! {

/// Identifier of a player.
pub type PlayerId = String;

/// Terraform rating of a player at the start of a multiplayer game.
pub const STARTING_TR: i32 = 20;

/// A player's ledgers, cards and per-generation selections.
#[derive(Debug, Clone)]
pub struct Player {
    pub id: PlayerId,
    pub name: String,
    pub resources: Resources,
    pub production: Production,
    pub terraform_rating: i32,
    pub tags: Tags,
    pub cards_in_hand: Vec<String>,
    pub played_cards: Vec<String>,
    pub victory_points: i32,
    /// Cards currently held in the draft.
    pub draft_hand: Vec<String>,
    /// Cards picked during the current draft iteration.
    pub drafted_cards: Vec<String>,
    /// Whether this player still owes a pick in the current draft round.
    pub needs_to_draft: bool,
    pub dealt_corporation_cards: Vec<String>,
    pub selected_corporation: Option<String>,
    pub selected_preludes: Vec<String>,
    pub dealt_prelude_cards: Vec<String>,
}

impl Player {
    /// A player with this id and name, empty ledgers and no cards.
    pub open spec fn is_fresh(self, id: Seq<char>, name: Seq<char>) -> bool {
        &&& self.id@ == id
        &&& self.name@ == name
        &&& self.resources.is_empty_stock()
        &&& self.production.is_zero()
        &&& self.terraform_rating == STARTING_TR
        &&& forall|t: Tag| self.tags.raw(t) == 0
        &&& self.cards_in_hand@.len() == 0
        &&& self.played_cards@.len() == 0
        &&& self.victory_points == 0
        &&& self.draft_hand@.len() == 0
        &&& self.drafted_cards@.len() == 0
        &&& !self.needs_to_draft
        &&& self.dealt_corporation_cards@.len() == 0
        &&& self.selected_corporation is None
        &&& self.selected_preludes@.len() == 0
        &&& self.dealt_prelude_cards@.len() == 0
    }

    /// A player with this id and name, empty ledgers, no cards and the given
    /// terraform rating.
    pub open spec fn is_fresh_with_tr(self, id: Seq<char>, name: Seq<char>, tr: i32) -> bool {
        &&& self.terraform_rating == tr
        &&& (Player { terraform_rating: STARTING_TR, ..self }).is_fresh(id, name)
    }

    /// A new player with empty ledgers and the starting terraform rating.
    pub fn new(id: PlayerId, name: String) -> (r: Self)
        ensures
            r.is_fresh(id@, name@),
    {
        Player {
            id,
            name,
            resources: Resources::new(),
            production: Production::new(),
            terraform_rating: STARTING_TR,
            tags: Tags::new(),
            cards_in_hand: Vec::new(),
            played_cards: Vec::new(),
            victory_points: 0,
            draft_hand: Vec::new(),
            drafted_cards: Vec::new(),
            needs_to_draft: false,
            dealt_corporation_cards: Vec::new(),
            selected_corporation: None,
            selected_preludes: Vec::new(),
            dealt_prelude_cards: Vec::new(),
        }
    }

    /// Adds a card to the hand.
    pub fn add_card_to_hand(&mut self, card_id: String)
        ensures
            *final(self) == (Player {
                cards_in_hand: final(self).cards_in_hand,
                ..*old(self)
            }),
            final(self).cards_in_hand@ == old(self).cards_in_hand@.push(card_id),
    {
        self.cards_in_hand.push(card_id);
    }

    /// Removes the first copy of a card from the hand; returns whether the
    /// card was there.
    pub fn remove_card_from_hand(&mut self, card_id: &str) -> (r: bool)
        ensures
            *final(self) == (Player {
                cards_in_hand: final(self).cards_in_hand,
                ..*old(self)
            }),
            r == first_index(old(self).cards_in_hand@, card_id@) is Some,
            match first_index(old(self).cards_in_hand@, card_id@) {
                Some(i) => final(self).cards_in_hand@ == old(self).cards_in_hand@.remove(i),
                None => final(self).cards_in_hand@ == old(self).cards_in_hand@,
            },
    {
        let key = text(card_id);
        match find_text(&self.cards_in_hand, &key) {
            Some(pos) => {
                self.cards_in_hand.remove(pos);
                true
            },
            None => false,
        }
    }

    /// Adds a card to the played cards.
    pub fn add_played_card(&mut self, card_id: String)
        ensures
            *final(self) == (Player {
                played_cards: final(self).played_cards,
                ..*old(self)
            }),
            final(self).played_cards@ == old(self).played_cards@.push(card_id),
    {
        self.played_cards.push(card_id);
    }
}

} // verus!
