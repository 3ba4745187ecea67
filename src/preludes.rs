use vstd::prelude::*;
use crate::error::GameError;
use crate::game::Game;
use crate::ids::{all_held, contains_text, holds_text};
use crate::phase::Phase;
use crate::player::{Player, PlayerId};
use crate::research::{PRELUDES_KEPT, all_in};

verus! {

/// Whether a player kept two preludes and has played both.
pub open spec fn preludes_done(p: Player) -> bool {
    p.selected_preludes@.len() == 2 && all_in(p.selected_preludes@, p.played_cards@)
}

/// Whether every player has played their preludes.
pub open spec fn all_preludes_done(players: Seq<Player>) -> bool {
    forall|i: int| 0 <= i < players.len() ==> preludes_done(#[trigger] players[i])
}

/// The first seat that has not played its preludes.
pub open spec fn first_pending(players: Seq<Player>) -> Option<int> {
    if all_preludes_done(players) {
        None
    } else {
        Some(
            choose|i: int|
                0 <= i < players.len() && !preludes_done(#[trigger] players[i]) && forall|j: int|
                    0 <= j < i ==> preludes_done(#[trigger] players[j]),
        )
    }
}

impl Game {
    /// Starts the Preludes phase: needs the prelude module and two kept
    /// preludes per player; the first player becomes active.
    pub fn start_preludes_phase(&mut self) -> (r: Result<(), GameError>)
        ensures
            !old(self).prelude ==> r == Err::<(), GameError>(GameError::ModuleDisabled)
                && *final(self) == *old(self),
            old(self).prelude && !(forall|i: int|
                0 <= i < old(self).players@.len()
                    ==> (#[trigger] old(self).players@[i]).selected_preludes@.len() == 2) ==> r
                == Err::<(), GameError>(GameError::NotReady) && *final(self) == *old(self),
            old(self).prelude && (forall|i: int|
                0 <= i < old(self).players@.len()
                    ==> (#[trigger] old(self).players@[i]).selected_preludes@.len() == 2) ==> r is Ok
                && *final(self) == (Game {
                active_player_id: if old(self).players@.len() > 0 {
                    Some(old(self).players@[0].id)
                } else {
                    old(self).active_player_id
                },
                ..*old(self)
            }),
    {
        if !self.prelude {
            return Err(GameError::ModuleDisabled);
        }
        let mut i: usize = 0;
        while i < self.players.len()
            invariant
                i <= self.players.len(),
                self.prelude,
                forall|j: int| 0 <= j < i ==> (#[trigger] self.players@[j]).selected_preludes@.len() == 2,
            decreases self.players.len() - i,
        {
            if self.players[i].selected_preludes.len() != PRELUDES_KEPT {
                return Err(GameError::NotReady);
            }
            i = i + 1;
        }
        if self.players.len() > 0 {
            self.active_player_id = Some(self.players[0].id.clone());
        }
        Ok(())
    }

    fn done_with_preludes(p: &Player) -> (r: bool)
        ensures
            r == preludes_done(*p),
    {
        p.selected_preludes.len() == PRELUDES_KEPT && all_held(&p.selected_preludes, &p.played_cards)
    }

    /// Whether a player kept two preludes and has played both; unknown
    /// players have not.
    pub fn has_played_all_preludes(&self, player_id: &PlayerId) -> (r: bool)
        ensures
            r == match self.seat_of(player_id@) {
                None => false,
                Some(i) => preludes_done(self.players@[i]),
            },
    {
        match self.find_player(player_id) {
            Some(i) => Self::done_with_preludes(&self.players[i]),
            None => false,
        }
    }

    /// Whether every player has played their preludes.
    pub fn all_players_played_preludes(&self) -> (r: bool)
        ensures
            r == all_preludes_done(self.players@),
    {
        let mut i: usize = 0;
        while i < self.players.len()
            invariant
                i <= self.players.len(),
                forall|j: int| 0 <= j < i ==> preludes_done(#[trigger] self.players@[j]),
            decreases self.players.len() - i,
        {
            if !Self::done_with_preludes(&self.players[i]) {
                return false;
            }
            i = i + 1;
        }
        true
    }

    /// Plays one of a player's kept preludes (its effects belong to the card
    /// content). Needs the prelude module; each prelude plays once.
    pub fn play_prelude(&mut self, player_id: &PlayerId, prelude_id: String) -> (r: Result<
        (),
        GameError,
    >)
        ensures
            !old(self).prelude ==> r == Err::<(), GameError>(GameError::ModuleDisabled)
                && *final(self) == *old(self),
            old(self).prelude && old(self).seat_of(player_id@) is None ==> r == Err::<(), GameError>(
                GameError::NotFound,
            ) && *final(self) == *old(self),
            old(self).prelude ==> (old(self).seat_of(player_id@) matches Some(i) ==> {
                let p = old(self).players@[i];
                if !holds_text(p.selected_preludes@, prelude_id@) {
                    r == Err::<(), GameError>(GameError::InvalidSelection) && *final(self)
                        == *old(self)
                } else if holds_text(p.played_cards@, prelude_id@) {
                    r == Err::<(), GameError>(GameError::AlreadyPlayed) && *final(self)
                        == *old(self)
                } else {
                    &&& r is Ok
                    &&& *final(self) == (Game { players: final(self).players, ..*old(self) })
                    &&& final(self).players@ == old(self).players@.update(
                        i,
                        final(self).players@[i],
                    )
                    &&& final(self).players@[i] == (Player {
                        played_cards: final(self).players@[i].played_cards,
                        ..p
                    })
                    &&& final(self).players@[i].played_cards@ == p.played_cards@.push(prelude_id)
                }
            }),
    {
        if !self.prelude {
            return Err(GameError::ModuleDisabled);
        }
        let i = match self.find_player(player_id) {
            Some(i) => i,
            None => {
                return Err(GameError::NotFound);
            },
        };
        if !contains_text(&self.players[i].selected_preludes, &prelude_id) {
            return Err(GameError::InvalidSelection);
        }
        if contains_text(&self.players[i].played_cards, &prelude_id) {
            return Err(GameError::AlreadyPlayed);
        }
        let ghost g0 = *self;
        self.players[i].add_played_card(prelude_id);
        proof {
            assert(self.players@ =~= g0.players@.update(i as int, self.players@[i as int]));
        }
        Ok(())
    }

    /// Ends the Preludes phase once every player has played their preludes:
    /// the Action phase starts with the first player active.
    pub fn complete_preludes_phase(&mut self) -> (r: Result<(), GameError>)
        ensures
            !all_preludes_done(old(self).players@) ==> r == Err::<(), GameError>(GameError::NotReady)
                && *final(self) == *old(self),
            all_preludes_done(old(self).players@) ==> r is Ok && *final(self) == (Game {
                phase: Phase::Action,
                active_player_id: if old(self).players@.len() > 0 {
                    Some(old(self).players@[0].id)
                } else {
                    old(self).active_player_id
                },
                ..*old(self)
            }),
    {
        if !self.all_players_played_preludes() {
            return Err(GameError::NotReady);
        }
        self.phase = Phase::Action;
        if self.players.len() > 0 {
            self.active_player_id = Some(self.players[0].id.clone());
        }
        Ok(())
    }

    /// The first player (in seat order) who has not played their preludes.
    pub fn next_prelude_player(&self) -> (r: Option<PlayerId>)
        ensures
            match first_pending(self.players@) {
                None => r is None,
                Some(i) => r == Some(self.players@[i].id),
            },
    {
        let mut i: usize = 0;
        while i < self.players.len()
            invariant
                i <= self.players.len(),
                forall|j: int| 0 <= j < i ==> preludes_done(#[trigger] self.players@[j]),
            decreases self.players.len() - i,
        {
            if !Self::done_with_preludes(&self.players[i]) {
                proof {
                    let c = first_pending(self.players@).unwrap();
                    if c < i as int {
                        assert(preludes_done(self.players@[c]));
                    }
                    if c > i as int {
                        assert(!preludes_done(self.players@[i as int]));
                    }
                }
                return Some(self.players[i].id.clone());
            }
            i = i + 1;
        }
        None
    }

    /// After a prelude is played: once the active player has played both of
    /// theirs, the next player who has not becomes active; when there is
    /// none, the Preludes phase ends.
    pub fn advance_prelude_turn(&mut self) -> (r: Result<(), GameError>)
        ensures
            r is Ok,
            ({
                let owed = match old(self).active_player_id {
                    Some(id) => match old(self).seat_of(id@) {
                        Some(i) => preludes_done(old(self).players@[i]),
                        None => false,
                    },
                    None => true,
                };
                if !owed {
                    *final(self) == *old(self)
                } else {
                    match first_pending(old(self).players@) {
                        Some(i) => *final(self) == (Game {
                            active_player_id: Some(old(self).players@[i].id),
                            ..*old(self)
                        }),
                        None => *final(self) == (Game {
                            phase: Phase::Action,
                            active_player_id: if old(self).players@.len() > 0 {
                                Some(old(self).players@[0].id)
                            } else {
                                old(self).active_player_id
                            },
                            ..*old(self)
                        }),
                    }
                }
            }),
    {
        let owed = match &self.active_player_id {
            Some(id) => self.has_played_all_preludes(id),
            None => true,
        };
        if !owed {
            return Ok(());
        }
        match self.next_prelude_player() {
            Some(next) => {
                self.active_player_id = Some(next);
                Ok(())
            },
            None => self.complete_preludes_phase(),
        }
    }
}

} // verus!
