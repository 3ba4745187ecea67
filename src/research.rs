use vstd::prelude::*;
use crate::error::GameError;
use crate::game::Game;
use crate::ids::{
    all_held,
    contains_text,
    decimal,
    filter_listed,
    holds_text,
    numbered,
    remove_all_text,
    retain_listed,
    without_text,
};
use crate::phase::Phase;
use crate::player::{Player, PlayerId};
use crate::resources::Resource;

verus! {

/// Currency a player receives on choosing a corporation.
pub const CORPORATION_STARTING_MC: u32 = 42;

/// Currency paid per project card kept in research.
pub const CARD_COST: u32 = 3;

/// Most project cards that one research selection may keep.
pub const MAX_RESEARCH_CARDS: usize = 10;

/// Corporation cards dealt to each player in the first generation.
pub const CORPORATIONS_DEALT: usize = 2;

/// Prelude cards dealt to each player in the first generation.
pub const PRELUDES_DEALT: usize = 4;

/// Project cards dealt to each player in a later research phase.
pub const RESEARCH_CARDS_DEALT: usize = 4;

/// Prelude cards each player keeps.
pub const PRELUDES_KEPT: usize = 2;

/// `n` numbered card identifiers: `prefix` then `0`, `1`, ...
pub open spec fn numbered_ids(v: Seq<String>, prefix: Seq<char>, n: nat) -> bool {
    &&& v.len() == n
    &&& forall|k: int| 0 <= k < n ==> (#[trigger] v[k])@ == prefix + decimal(k as nat)
}

/// Whether every entry of `items` has its text in `pool`.
pub open spec fn all_in(items: Seq<String>, pool: Seq<String>) -> bool {
    forall|k: int| 0 <= k < items.len() ==> holds_text(pool, (#[trigger] items[k])@)
}

/// Whether the player in seat `i` has made every research choice owed.
pub open spec fn research_done(g: Game, p: Player) -> bool {
    g.generation != 1 || (p.selected_corporation is Some && (!g.prelude
        || p.selected_preludes@.len() == 2))
}

/// A first-generation deal to player `p`, giving `q`.
pub open spec fn initial_dealt(prelude: bool, p: Player, q: Player) -> bool {
    &&& q == (Player {
        dealt_corporation_cards: q.dealt_corporation_cards,
        dealt_prelude_cards: q.dealt_prelude_cards,
        ..p
    })
    &&& numbered_ids(q.dealt_corporation_cards@, "corporation_card_"@, 2)
    &&& if prelude {
        numbered_ids(q.dealt_prelude_cards@, "prelude_card_"@, 4)
    } else {
        q.dealt_prelude_cards == p.dealt_prelude_cards
    }
}

/// A later-generation deal to player `p`, giving `q`.
pub open spec fn standard_dealt(p: Player, q: Player) -> bool {
    &&& q == (Player { drafted_cards: q.drafted_cards, ..p })
    &&& if p.drafted_cards@.len() == 0 {
        numbered_ids(q.drafted_cards@, "project_card_"@, 4)
    } else {
        q.drafted_cards == p.drafted_cards
    }
}

fn numbered_cards(prefix: &str, n: usize) -> (r: Vec<String>)
    ensures
        numbered_ids(r@, prefix@, n as nat),
{
    let mut out: Vec<String> = Vec::new();
    let mut k: usize = 0;
    while k < n
        invariant
            k <= n,
            out@.len() == k,
            forall|j: int| 0 <= j < k ==> (#[trigger] out@[j])@ == prefix@ + decimal(j as nat),
        decreases n - k,
    {
        out.push(numbered(prefix, k));
        k = k + 1;
    }
    out
}

impl Game {
    /// Deals the research choices. In the first generation every player gets
    /// two corporation cards, and four prelude cards with the prelude module.
    /// Later, every player without picks gets four project cards to pick from.
    pub fn start_research_phase(&mut self) -> (r: Result<(), GameError>)
        ensures
            r is Ok,
            *final(self) == (Game { players: final(self).players, ..*old(self) }),
            final(self).players@.len() == old(self).players@.len(),
            forall|i: int|
                0 <= i < old(self).players@.len() ==> if old(self).generation == 1 {
                    initial_dealt(old(self).prelude, old(self).players@[i], #[trigger] final(self).players@[i])
                } else {
                    standard_dealt(old(self).players@[i], final(self).players@[i])
                },
    {
        if self.generation == 1 {
            self.start_initial_research_phase();
        } else {
            self.start_standard_research_phase();
        }
        Ok(())
    }

    /// First generation: two corporations each, and four preludes each with
    /// the prelude module.
    fn start_initial_research_phase(&mut self)
        ensures
            *final(self) == (Game { players: final(self).players, ..*old(self) }),
            final(self).players@.len() == old(self).players@.len(),
            forall|i: int|
                0 <= i < old(self).players@.len() ==> initial_dealt(
                    old(self).prelude,
                    old(self).players@[i],
                    #[trigger] final(self).players@[i],
                ),
    {
        let ghost g0 = *self;
        let mut i: usize = 0;
        while i < self.players.len()
            invariant
                i <= self.players.len(),
                *self == (Game { players: self.players, ..g0 }),
                self.players@.len() == g0.players@.len(),
                forall|j: int|
                    0 <= j < i ==> initial_dealt(g0.prelude, g0.players@[j], #[trigger] self.players@[j]),
                forall|j: int| i <= j < self.players@.len() ==> #[trigger] self.players@[j] == g0.players@[j],
            decreases self.players.len() - i,
        {
            self.players[i].dealt_corporation_cards = numbered_cards(
                "corporation_card_",
                CORPORATIONS_DEALT,
            );
            if self.prelude {
                self.players[i].dealt_prelude_cards = numbered_cards("prelude_card_", PRELUDES_DEALT);
            }
            i = i + 1;
        }
    }

    /// Later generations: four project cards to pick from for every player
    /// without picks.
    fn start_standard_research_phase(&mut self)
        ensures
            *final(self) == (Game { players: final(self).players, ..*old(self) }),
            final(self).players@.len() == old(self).players@.len(),
            forall|i: int|
                0 <= i < old(self).players@.len() ==> standard_dealt(
                    old(self).players@[i],
                    #[trigger] final(self).players@[i],
                ),
    {
        let ghost g0 = *self;
        let mut i: usize = 0;
        while i < self.players.len()
            invariant
                i <= self.players.len(),
                *self == (Game { players: self.players, ..g0 }),
                self.players@.len() == g0.players@.len(),
                forall|j: int| 0 <= j < i ==> standard_dealt(g0.players@[j], #[trigger] self.players@[j]),
                forall|j: int| i <= j < self.players@.len() ==> #[trigger] self.players@[j] == g0.players@[j],
            decreases self.players.len() - i,
        {
            if self.players[i].drafted_cards.len() == 0 {
                self.players[i].drafted_cards = numbered_cards("project_card_", RESEARCH_CARDS_DEALT);
            }
            i = i + 1;
        }
    }

    /// A player chooses one of their dealt corporations: it leaves the dealt
    /// cards, becomes their corporation, and pays out the starting currency.
    pub fn select_corporation(&mut self, player_id: &PlayerId, corporation_id: String) -> (r: Result<
        (),
        GameError,
    >)
        ensures
            old(self).seat_of(player_id@) is None ==> r == Err::<(), GameError>(GameError::NotFound)
                && *final(self) == *old(self),
            old(self).seat_of(player_id@) matches Some(i) ==> {
                let p = old(self).players@[i];
                if !holds_text(p.dealt_corporation_cards@, corporation_id@) {
                    r == Err::<(), GameError>(GameError::InvalidSelection) && *final(self) == *old(self)
                } else {
                    let q = final(self).players@[i];
                    &&& r is Ok
                    &&& *final(self) == (Game { players: final(self).players, ..*old(self) })
                    &&& final(self).players@ == old(self).players@.update(i, q)
                    &&& q == (Player {
                        selected_corporation: Some(corporation_id),
                        dealt_corporation_cards: q.dealt_corporation_cards,
                        resources: p.resources.added(Resource::Megacredits, 42),
                        ..p
                    })
                    &&& q.dealt_corporation_cards@ == without_text(
                        p.dealt_corporation_cards@,
                        corporation_id@,
                    )
                }
            },
    {
        let i = match self.find_player(player_id) {
            Some(i) => i,
            None => {
                return Err(GameError::NotFound);
            },
        };
        if !contains_text(&self.players[i].dealt_corporation_cards, &corporation_id) {
            return Err(GameError::InvalidSelection);
        }
        let ghost g0 = *self;
        remove_all_text(&mut self.players[i].dealt_corporation_cards, &corporation_id);
        self.players[i].selected_corporation = Some(corporation_id);
        self.players[i].resources.add(Resource::Megacredits, CORPORATION_STARTING_MC);
        proof {
            assert(self.players@ =~= g0.players@.update(i as int, self.players@[i as int]));
        }
        Ok(())
    }

    /// A player keeps exactly two of their dealt preludes; the others stay
    /// in the dealt cards as discards. Needs the prelude module.
    pub fn select_preludes(&mut self, player_id: &PlayerId, prelude_ids: Vec<String>) -> (r: Result<
        (),
        GameError,
    >)
        ensures
            !old(self).prelude ==> r == Err::<(), GameError>(GameError::ModuleDisabled) && *final(self) == *old(self),
            old(self).prelude && prelude_ids@.len() != 2 ==> r == Err::<(), GameError>(
                GameError::InvalidSelectionCount,
            ) && *final(self) == *old(self),
            old(self).prelude && prelude_ids@.len() == 2 && old(self).seat_of(player_id@) is None
                ==> r == Err::<(), GameError>(GameError::NotFound) && *final(self) == *old(self),
            old(self).prelude && prelude_ids@.len() == 2 ==> (old(self).seat_of(player_id@) matches Some(i)
                ==> {
                let p = old(self).players@[i];
                if !all_in(prelude_ids@, p.dealt_prelude_cards@) {
                    r == Err::<(), GameError>(GameError::InvalidSelection) && *final(self) == *old(self)
                } else {
                    let q = final(self).players@[i];
                    &&& r is Ok
                    &&& *final(self) == (Game { players: final(self).players, ..*old(self) })
                    &&& final(self).players@ == old(self).players@.update(i, q)
                    &&& q == (Player {
                        selected_preludes: q.selected_preludes,
                        dealt_prelude_cards: q.dealt_prelude_cards,
                        ..p
                    })
                    &&& q.selected_preludes@ == prelude_ids@
                    &&& q.dealt_prelude_cards@ == filter_listed(
                        p.dealt_prelude_cards@,
                        prelude_ids@,
                        false,
                    )
                }
            }),
    {
        if !self.prelude {
            return Err(GameError::ModuleDisabled);
        }
        if prelude_ids.len() != PRELUDES_KEPT {
            return Err(GameError::InvalidSelectionCount);
        }
        let i = match self.find_player(player_id) {
            Some(i) => i,
            None => {
                return Err(GameError::NotFound);
            },
        };
        if !all_held(&prelude_ids, &self.players[i].dealt_prelude_cards) {
            return Err(GameError::InvalidSelection);
        }
        let ghost g0 = *self;
        retain_listed(&mut self.players[i].dealt_prelude_cards, &prelude_ids, false);
        self.players[i].selected_preludes = prelude_ids;
        proof {
            assert(self.players@ =~= g0.players@.update(i as int, self.players@[i as int]));
        }
        Ok(())
    }

    /// A player keeps up to ten project cards at 3 currency each. In the
    /// first generation they come from the hand, whose other cards are
    /// dropped; later they come from the picks, whose other cards are
    /// dropped, and join the hand. Nothing changes on failure.
    pub fn select_project_cards(&mut self, player_id: &PlayerId, card_ids: Vec<String>) -> (r: Result<
        (),
        GameError,
    >)
        ensures
            card_ids@.len() > 10 ==> r == Err::<(), GameError>(GameError::InvalidSelectionCount)
                && *final(self) == *old(self),
            card_ids@.len() <= 10 && old(self).seat_of(player_id@) is None ==> r == Err::<
                (),
                GameError,
            >(GameError::NotFound) && *final(self) == *old(self),
            card_ids@.len() <= 10 ==> (old(self).seat_of(player_id@) matches Some(i) ==> {
                let p = old(self).players@[i];
                let cost = 3 * card_ids@.len();
                let pool = if old(self).generation == 1 {
                    p.cards_in_hand@
                } else {
                    p.drafted_cards@
                };
                if p.resources.megacredits < cost {
                    r == Err::<(), GameError>(GameError::InsufficientResource) && *final(self)
                        == *old(self)
                } else if !all_in(card_ids@, pool) {
                    r == Err::<(), GameError>(GameError::InvalidSelection) && *final(self) == *old(self)
                } else {
                    let q = final(self).players@[i];
                    &&& r is Ok
                    &&& *final(self) == (Game { players: final(self).players, ..*old(self) })
                    &&& final(self).players@ == old(self).players@.update(i, q)
                    &&& q == (Player {
                        cards_in_hand: q.cards_in_hand,
                        drafted_cards: q.drafted_cards,
                        resources: p.resources.subtracted(Resource::Megacredits, cost as int),
                        ..p
                    })
                    &&& if old(self).generation == 1 {
                        q.cards_in_hand@ == filter_listed(p.cards_in_hand@, card_ids@, true)
                            && q.drafted_cards == p.drafted_cards
                    } else {
                        q.cards_in_hand@ == p.cards_in_hand@ + card_ids@ && q.drafted_cards@
                            == filter_listed(p.drafted_cards@, card_ids@, false)
                    }
                }
            }),
    {
        if card_ids.len() > MAX_RESEARCH_CARDS {
            return Err(GameError::InvalidSelectionCount);
        }
        let first = self.generation == 1;
        let cost = (card_ids.len() as u32) * CARD_COST;
        let i = match self.find_player(player_id) {
            Some(i) => i,
            None => {
                return Err(GameError::NotFound);
            },
        };
        if self.players[i].resources.megacredits < cost {
            return Err(GameError::InsufficientResource);
        }
        let ghost g0 = *self;
        if first {
            if !all_held(&card_ids, &self.players[i].cards_in_hand) {
                return Err(GameError::InvalidSelection);
            }
            retain_listed(&mut self.players[i].cards_in_hand, &card_ids, true);
        } else {
            if !all_held(&card_ids, &self.players[i].drafted_cards) {
                return Err(GameError::InvalidSelection);
            }
            retain_listed(&mut self.players[i].drafted_cards, &card_ids, false);
            let mut chosen = card_ids;
            self.players[i].cards_in_hand.append(&mut chosen);
        }
        self.players[i].resources.subtract(Resource::Megacredits, cost);
        proof {
            assert(self.players@ =~= g0.players@.update(i as int, self.players@[i as int]));
        }
        Ok(())
    }

    /// Whether a player has made every research choice owed: in the first
    /// generation a corporation, and two preludes with the prelude module.
    /// Unknown players are not done.
    pub fn is_research_phase_complete(&self, player_id: &PlayerId) -> (r: bool)
        ensures
            r == match self.seat_of(player_id@) {
                None => false,
                Some(i) => research_done(*self, self.players@[i]),
            },
    {
        let i = match self.find_player(player_id) {
            Some(i) => i,
            None => {
                return false;
            },
        };
        let p = &self.players[i];
        if self.generation == 1 {
            if p.selected_corporation.is_none() {
                return false;
            }
            if self.prelude && p.selected_preludes.len() != PRELUDES_KEPT {
                return false;
            }
        }
        true
    }

    /// Whether every player has finished research.
    pub fn all_players_research_complete(&self) -> (r: bool)
        ensures
            r == forall|i: int|
                0 <= i < self.players@.len() ==> research_done(*self, #[trigger] self.players@[i]),
    {
        let mut i: usize = 0;
        while i < self.players.len()
            invariant
                i <= self.players.len(),
                forall|j: int| 0 <= j < i ==> research_done(*self, #[trigger] self.players@[j]),
            decreases self.players.len() - i,
        {
            let p = &self.players[i];
            let done = if self.generation == 1 {
                p.selected_corporation.is_some() && (!self.prelude || p.selected_preludes.len()
                    == PRELUDES_KEPT)
            } else {
                true
            };
            if !done {
                return false;
            }
            i = i + 1;
        }
        true
    }

    /// Ends research once every player is done: the first generation goes
    /// to Preludes with the prelude module, otherwise to Action.
    pub fn complete_research_phase(&mut self) -> (r: Result<(), GameError>)
        ensures
            !(forall|i: int|
                0 <= i < old(self).players@.len() ==> research_done(
                    *old(self),
                    #[trigger] old(self).players@[i],
                )) ==> r == Err::<(), GameError>(GameError::NotReady) && *final(self) == *old(self),
            (forall|i: int|
                0 <= i < old(self).players@.len() ==> research_done(
                    *old(self),
                    #[trigger] old(self).players@[i],
                )) ==> r is Ok && *final(self) == (Game {
                phase: if old(self).generation == 1 && old(self).prelude {
                    Phase::Preludes
                } else {
                    Phase::Action
                },
                ..*old(self)
            }),
    {
        if !self.all_players_research_complete() {
            return Err(GameError::NotReady);
        }
        if self.generation == 1 && self.prelude {
            self.phase = Phase::Preludes;
        } else {
            self.phase = Phase::Action;
        }
        Ok(())
    }
}

} // verus!
