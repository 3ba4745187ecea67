use vstd::prelude::*;
use crate::card::Card;
use crate::minimal_card::CardId;

verus! {

/// The index of the first card of `cards` with identifier `id`.
pub open spec fn card_index(cards: Seq<Card>, id: Seq<char>) -> Option<int>
    decreases cards.len(),
{
    if cards.len() == 0 {
        None
    } else if cards.last().id@ == id && card_index(cards.drop_last(), id) is None {
        Some(cards.len() - 1)
    } else {
        card_index(cards.drop_last(), id)
    }
}

proof fn lemma_card_index(cards: Seq<Card>, id: Seq<char>)
    ensures
        match card_index(cards, id) {
            Some(i) => 0 <= i < cards.len() && cards[i].id@ == id && forall|j: int|
                0 <= j < i ==> (#[trigger] cards[j]).id@ != id,
            None => forall|j: int| 0 <= j < cards.len() ==> (#[trigger] cards[j]).id@ != id,
        },
    decreases cards.len(),
{
    if cards.len() > 0 {
        lemma_card_index(cards.drop_last(), id);
        assert forall|j: int| 0 <= j < cards.len() - 1 implies cards.drop_last()[j]
            == #[trigger] cards[j] by {}
    }
}

/// No card of `cards` has identifier `id`, so `card_index` finds none.
pub proof fn lemma_card_index_none(cards: Seq<Card>, id: Seq<char>)
    requires
        forall|j: int| 0 <= j < cards.len() ==> (#[trigger] cards[j]).id@ != id,
    ensures
        card_index(cards, id) is None,
{
    lemma_card_index(cards, id);
}

/// Card definitions looked up by id; registering an id again replaces it.
#[derive(Debug)]
pub struct CardRegistry {
    cards: Vec<Card>,
}

impl CardRegistry {
    /// The registered cards, in registration order.
    pub closed spec fn entries(self) -> Seq<Card> {
        self.cards@
    }

    /// An empty registry.
    pub fn new() -> (r: Self)
        ensures
            r.entries().len() == 0,
    {
        CardRegistry { cards: Vec::new() }
    }

    fn find(&self, card_id: &CardId) -> (r: Option<usize>)
        ensures
            r matches Some(i) ==> card_index(self.entries(), card_id@) == Some(i as int) && i
                < self.entries().len(),
            r is None ==> card_index(self.entries(), card_id@) is None,
    {
        proof {
            lemma_card_index(self.cards@, card_id@);
        }
        let mut i: usize = 0;
        while i < self.cards.len()
            invariant
                i <= self.cards.len(),
                forall|j: int| 0 <= j < i ==> (#[trigger] self.cards@[j]).id@ != card_id@,
                match card_index(self.cards@, card_id@) {
                    Some(k) => 0 <= k < self.cards.len() && self.cards@[k].id@ == card_id@
                        && forall|j: int|
                        0 <= j < k ==> (#[trigger] self.cards@[j]).id@ != card_id@,
                    None => forall|j: int|
                        0 <= j < self.cards.len() ==> (#[trigger] self.cards@[j]).id@ != card_id@,
                },
            decreases self.cards.len() - i,
        {
            if self.cards[i].id == *card_id {
                return Some(i);
            }
            i = i + 1;
        }
        None
    }

    /// Registers a card, replacing a card with the same id.
    pub fn register(&mut self, card: Card)
        ensures
            match card_index(old(self).entries(), card.id@) {
                Some(i) => final(self).entries() == old(self).entries().update(i, card),
                None => final(self).entries() == old(self).entries().push(card),
            },
            card_index(final(self).entries(), card.id@) is Some,
            forall|x: Seq<char>|
                card_index(old(self).entries(), x) is Some ==> #[trigger] card_index(
                    final(self).entries(),
                    x,
                ) is Some,
    {
        let ghost old_cards = self.cards@;
        let ghost id = card.id@;
        match self.find(&card.id) {
            Some(i) => {
                self.cards.set(i, card);
            },
            None => {
                self.cards.push(card);
            },
        }
        proof {
            let new_cards = self.cards@;
            lemma_card_index(new_cards, id);
            lemma_card_index(old_cards, id);
            if card_index(new_cards, id) is None {
                match card_index(old_cards, id) {
                    Some(i) => {
                        assert(new_cards[i].id@ == id);
                    },
                    None => {
                        assert(new_cards[new_cards.len() - 1].id@ == id);
                    },
                }
            }
            assert forall|x: Seq<char>|
                card_index(old_cards, x) is Some implies #[trigger] card_index(new_cards, x) is Some by {
                lemma_card_index(old_cards, x);
                lemma_card_index(new_cards, x);
                let k = card_index(old_cards, x).unwrap();
                if new_cards[k].id@ != x {
                    assert(new_cards[k].id@ == id);
                    assert(old_cards[k].id@ == id);
                    assert(card_index(old_cards, id) is Some);
                }
            }
        }
    }

    /// The card with this id.
    pub fn get(&self, card_id: &CardId) -> (r: Option<&Card>)
        ensures
            match card_index(self.entries(), card_id@) {
                Some(i) => r == Some(&self.entries()[i]),
                None => r is None,
            },
    {
        match self.find(card_id) {
            Some(i) => Some(&self.cards[i]),
            None => None,
        }
    }

    /// The card with this id, for changes.
    pub fn get_mut(&mut self, card_id: &CardId) -> (r: Option<&mut Card>)
        ensures
            match card_index(old(self).entries(), card_id@) {
                Some(i) => (r matches Some(c) && *c == old(self).entries()[i]
                    && final(self).entries() == old(self).entries().update(i, *final(c))),
                None => r is None && final(self).entries() == old(self).entries(),
            },
    {
        match self.find(card_id) {
            Some(i) => Some(&mut self.cards[i]),
            None => None,
        }
    }

    /// Whether a card with this id is registered.
    pub fn contains(&self, card_id: &CardId) -> (r: bool)
        ensures
            r == card_index(self.entries(), card_id@) is Some,
    {
        self.find(card_id).is_some()
    }

    /// The ids of all registered cards, in registration order.
    pub fn all_card_ids(&self) -> (r: Vec<CardId>)
        ensures
            r@.len() == self.entries().len(),
            forall|i: int| 0 <= i < r@.len() ==> (#[trigger] r@[i]) == self.entries()[i].id,
    {
        let mut out: Vec<CardId> = Vec::new();
        let mut i: usize = 0;
        while i < self.cards.len()
            invariant
                i <= self.cards.len(),
                out@.len() == i,
                forall|j: int| 0 <= j < i ==> (#[trigger] out@[j]) == self.cards@[j].id,
            decreases self.cards.len() - i,
        {
            out.push(self.cards[i].id.clone());
            i = i + 1;
        }
        out
    }

    /// All registered cards, in registration order.
    pub fn all_cards(&self) -> (r: Vec<&Card>)
        ensures
            r@.len() == self.entries().len(),
            forall|i: int| 0 <= i < r@.len() ==> *(#[trigger] r@[i]) == self.entries()[i],
    {
        let mut out: Vec<&Card> = Vec::new();
        let mut i: usize = 0;
        while i < self.cards.len()
            invariant
                i <= self.cards.len(),
                out@.len() == i,
                forall|j: int| 0 <= j < i ==> *(#[trigger] out@[j]) == self.cards@[j],
            decreases self.cards.len() - i,
        {
            out.push(&self.cards[i]);
            i = i + 1;
        }
        out
    }

    /// The number of registered cards.
    pub fn len(&self) -> (r: usize)
        ensures
            r == self.entries().len(),
    {
        self.cards.len()
    }

    /// Whether no card is registered.
    pub fn is_empty(&self) -> (r: bool)
        ensures
            r == (self.entries().len() == 0),
    {
        self.cards.len() == 0
    }
}

impl Default for CardRegistry {
    fn default() -> (r: Self)
        ensures
            r.entries().len() == 0,
    {
        CardRegistry::new()
    }
}

} // verus!
