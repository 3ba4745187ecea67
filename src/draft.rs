use vstd::prelude::*;
use crate::error::GameError;
use crate::game::Game;
use crate::ids::{contains_text, decimal, holds_text, push_decimal, remove_all_text, without_text};
use crate::phase::Phase;
use crate::player::{Player, PlayerId};

verus! {

/// The kind of draft being run.
#[derive(Debug, Clone, Copy, PartialEq, Eq, Structural)]
pub enum DraftType {
    /// The initial draft of project (and optionally prelude) cards.
    Initial,
    /// The draft of later generations (draft variant).
    Standard,
    /// The prelude iteration of the initial draft.
    Prelude,
}

/// Which way hands travel.
#[derive(Debug, Clone, Copy, PartialEq, Eq, Structural)]
pub enum PassDirection {
    /// Towards the higher seat index: each seat receives the hand of the seat before it.
    After,
    /// Towards the lower seat index: each seat receives the hand of the seat after it.
    Before,
}

/// The direction of the current draft: the second initial iteration goes
/// before, every other initial iteration after; the standard draft goes
/// before in odd generations and after in even ones; preludes go after.
pub open spec fn pass_direction(g: Game, t: DraftType) -> PassDirection {
    match t {
        DraftType::Initial => if g.initial_draft_iteration == 2 {
            PassDirection::Before
        } else {
            PassDirection::After
        },
        DraftType::Standard => if g.generation % 2 == 0 {
            PassDirection::After
        } else {
            PassDirection::Before
        },
        DraftType::Prelude => PassDirection::After,
    }
}

/// The seat whose hand seat `i` receives, among `n` seats.
pub open spec fn source_seat(d: PassDirection, i: int, n: int) -> int {
    match d {
        PassDirection::After => if i == 0 {
            n - 1
        } else {
            i - 1
        },
        PassDirection::Before => if i == n - 1 {
            0
        } else {
            i + 1
        },
    }
}

/// Cards dealt to each player in the first round of a draft.
pub open spec fn deal_size(t: DraftType) -> nat {
    match t {
        DraftType::Initial => 5,
        DraftType::Standard => 4,
        DraftType::Prelude => 4,
    }
}

/// The identifier of the `k`-th card dealt for a draft of type `t`.
pub open spec fn dealt_card_id(t: DraftType, k: nat) -> Seq<char> {
    match t {
        DraftType::Prelude => seq!['p', 'r', 'e', 'l', 'u', 'd', 'e', '_', 'c', 'a', 'r', 'd', '_']
            + decimal(k),
        _ => seq!['p', 'r', 'o', 'j', 'e', 'c', 't', '_', 'c', 'a', 'r', 'd', '_'] + decimal(k),
    }
}

/// `g1` is `g0` with each player's draft hand replaced by the hand of their
/// source seat, and every player owing a pick.
pub open spec fn rotated(g0: Game, g1: Game, d: PassDirection) -> bool {
    let n = g0.players@.len() as int;
    &&& g1 == (Game { players: g1.players, ..g0 })
    &&& g1.players@.len() == n
    &&& forall|i: int|
        0 <= i < n ==> {
            let q = #[trigger] g1.players@[i];
            &&& q == (Player {
                draft_hand: q.draft_hand,
                needs_to_draft: true,
                ..g0.players@[i]
            })
            &&& q.draft_hand@ == g0.players@[source_seat(d, i, n)].draft_hand@
        }
}

/// `g1` is `g0` with a freshly dealt draft hand for every player.
pub open spec fn dealt(g0: Game, g1: Game, t: DraftType) -> bool {
    &&& g1 == (Game { players: g1.players, ..g0 })
    &&& g1.players@.len() == g0.players@.len()
    &&& forall|i: int|
        0 <= i < g0.players@.len() ==> {
            let q = #[trigger] g1.players@[i];
            &&& q == (Player {
                draft_hand: q.draft_hand,
                needs_to_draft: true,
                ..g0.players@[i]
            })
            &&& q.draft_hand@.len() == deal_size(t)
            &&& forall|k: int| 0 <= k < deal_size(t) ==> (#[trigger] q.draft_hand@[k])@ == dealt_card_id(t, k as nat)
        }
}

/// `g1` is `g0` after the terminal hand-off: each player adds the whole
/// remaining hand of their source seat to their picks; all hands are empty.
pub open spec fn handed_off(g0: Game, g1: Game, d: PassDirection) -> bool {
    let n = g0.players@.len() as int;
    &&& g1 == (Game { players: g1.players, ..g0 })
    &&& g1.players@.len() == n
    &&& forall|i: int|
        0 <= i < n ==> {
            let q = #[trigger] g1.players@[i];
            &&& q == (Player {
                draft_hand: q.draft_hand,
                drafted_cards: q.drafted_cards,
                needs_to_draft: false,
                ..g0.players@[i]
            })
            &&& q.draft_hand@.len() == 0
            &&& q.drafted_cards@ == g0.players@[i].drafted_cards@ + g0.players@[source_seat(
                d,
                i,
                n,
            )].draft_hand@
        }
}

/// Someone still has to pick in the current round.
pub open spec fn someone_owes_pick(players: Seq<Player>) -> bool {
    exists|i: int| 0 <= i < players.len() && (#[trigger] players[i]).needs_to_draft
}

/// Some hand still holds more than one card.
pub open spec fn hands_remain(players: Seq<Player>) -> bool {
    exists|i: int| 0 <= i < players.len() && (#[trigger] players[i]).draft_hand@.len() > 1
}

/// The placeholder cards dealt to one player for a draft of type `t`.
fn draw_draft_cards(t: DraftType) -> (r: Vec<String>)
    ensures
        r@.len() == deal_size(t),
        forall|k: int| 0 <= k < deal_size(t) ==> (#[trigger] r@[k])@ == dealt_card_id(t, k as nat),
{
    let count: usize = match t {
        DraftType::Initial => 5,
        DraftType::Standard => 4,
        DraftType::Prelude => 4,
    };
    let mut out: Vec<String> = Vec::new();
    let mut k: usize = 0;
    while k < count
        invariant
            k <= count,
            count == deal_size(t),
            out@.len() == k,
            forall|j: int| 0 <= j < k ==> (#[trigger] out@[j])@ == dealt_card_id(t, j as nat),
        decreases count - k,
    {
        proof {
            reveal_strlit("prelude_card_");
            reveal_strlit("project_card_");
        }
        let mut id = match t {
            DraftType::Prelude => String::from_str("prelude_card_"),
            _ => String::from_str("project_card_"),
        };
        push_decimal(&mut id, k);
        out.push(id);
        k = k + 1;
    }
    out
}

fn source_of(d: PassDirection, i: usize, n: usize) -> (r: usize)
    requires
        i < n,
    ensures
        r == source_seat(d, i as int, n as int),
        r < n,
{
    match d {
        PassDirection::After => if i == 0 {
            n - 1
        } else {
            i - 1
        },
        PassDirection::Before => if i == n - 1 {
            0
        } else {
            i + 1
        },
    }
}

impl Game {
    /// The direction of the current draft of type `draft_type`.
    pub fn get_pass_direction(&self, draft_type: DraftType) -> (r: PassDirection)
        ensures
            r == pass_direction(*self, draft_type),
    {
        match draft_type {
            DraftType::Initial => if self.initial_draft_iteration == 2 {
                PassDirection::Before
            } else {
                PassDirection::After
            },
            DraftType::Standard => if self.generation % 2 == 0 {
                PassDirection::After
            } else {
                PassDirection::Before
            },
            DraftType::Prelude => PassDirection::After,
        }
    }

    /// Cards each player keeps per draft round: one.
    pub fn cards_to_keep(&self, draft_type: DraftType, player_id: &PlayerId) -> (r: u32)
        ensures
            r == 1,
    {
        1
    }

    /// Takes every player's draft hand out, leaving it empty.
    fn take_hands(&mut self) -> (r: Vec<Vec<String>>)
        ensures
            *final(self) == (Game { players: final(self).players, ..*old(self) }),
            final(self).players@.len() == old(self).players@.len(),
            r@.len() == old(self).players@.len(),
            forall|i: int|
                0 <= i < old(self).players@.len() ==> {
                    let q = #[trigger] final(self).players@[i];
                    &&& q == (Player { draft_hand: q.draft_hand, ..old(self).players@[i] })
                    &&& q.draft_hand@.len() == 0
                },
            forall|i: int|
                0 <= i < old(self).players@.len() ==> (#[trigger] r@[i])@ == old(self).players@[i].draft_hand@,
    {
        let ghost g0 = *self;
        let mut hands: Vec<Vec<String>> = Vec::new();
        let mut i: usize = 0;
        while i < self.players.len()
            invariant
                i <= self.players.len(),
                *self == (Game { players: self.players, ..g0 }),
                self.players@.len() == g0.players@.len(),
                hands@.len() == i,
                forall|j: int|
                    0 <= j < i ==> {
                        let q = #[trigger] self.players@[j];
                        &&& q == (Player { draft_hand: q.draft_hand, ..g0.players@[j] })
                        &&& q.draft_hand@.len() == 0
                    },
                forall|j: int| 0 <= j < i ==> (#[trigger] hands@[j])@ == g0.players@[j].draft_hand@,
                forall|j: int| i <= j < self.players@.len() ==> #[trigger] self.players@[j] == g0.players@[j],
            decreases self.players.len() - i,
        {
            let mut h: Vec<String> = Vec::new();
            core::mem::swap(&mut h, &mut self.players[i].draft_hand);
            hands.push(h);
            i = i + 1;
        }
        hands
    }

    /// Starts a draft round: the first round deals a fresh hand to every
    /// player; later rounds rotate the hands. Fails with no players.
    pub fn start_draft(&mut self, draft_type: DraftType) -> (r: Result<(), GameError>)
        ensures
            old(self).players@.len() == 0 ==> r == Err::<(), GameError>(GameError::NoPlayers)
                && *final(self) == *old(self),
            old(self).players@.len() > 0 ==> r is Ok && if old(self).draft_round == 1 {
                dealt(*old(self), *final(self), draft_type)
            } else {
                rotated(*old(self), *final(self), pass_direction(*old(self), draft_type))
            },
    {
        if self.players.len() == 0 {
            return Err(GameError::NoPlayers);
        }
        if self.draft_round == 1 {
            let ghost g0 = *self;
            let mut i: usize = 0;
            while i < self.players.len()
                invariant
                    i <= self.players.len(),
                    *self == (Game { players: self.players, ..g0 }),
                    self.players@.len() == g0.players@.len(),
                    forall|j: int|
                        0 <= j < i ==> {
                            let q = #[trigger] self.players@[j];
                            &&& q == (Player {
                                draft_hand: q.draft_hand,
                                needs_to_draft: true,
                                ..g0.players@[j]
                            })
                            &&& q.draft_hand@.len() == deal_size(draft_type)
                            &&& forall|k: int|
                                0 <= k < deal_size(draft_type) ==> (#[trigger] q.draft_hand@[k])@
                                    == dealt_card_id(draft_type, k as nat)
                        },
                    forall|j: int| i <= j < self.players@.len() ==> #[trigger] self.players@[j] == g0.players@[j],
                decreases self.players.len() - i,
            {
                self.players[i].draft_hand = draw_draft_cards(draft_type);
                self.players[i].needs_to_draft = true;
                i = i + 1;
            }
            Ok(())
        } else {
            self.pass_draft_cards(draft_type)
        }
    }

    /// Rotates the draft hands in the current direction; every player then
    /// owes a pick.
    pub fn pass_draft_cards(&mut self, draft_type: DraftType) -> (r: Result<(), GameError>)
        ensures
            r is Ok,
            rotated(*old(self), *final(self), pass_direction(*old(self), draft_type)),
    {
        let direction = self.get_pass_direction(draft_type);
        let ghost g0 = *self;
        let mut hands = self.take_hands();
        let ghost g1 = *self;
        let ghost taken = hands@;
        let n = self.players.len();
        let mut i: usize = 0;
        while i < n
            invariant
                i <= n,
                n == g0.players@.len(),
                hands@.len() == n,
                self.players@.len() == n,
                *self == (Game { players: self.players, ..g0 }),
                forall|j: int| 0 <= j < n ==> (#[trigger] taken[j])@ == g0.players@[j].draft_hand@,
                forall|j: int|
                    0 <= j < n ==> (#[trigger] hands@[j] == taken[j]) || (exists|m: int|
                        0 <= m < i && source_seat(direction, m, n as int) == j),
                forall|j: int|
                    0 <= j < i ==> {
                        let q = #[trigger] self.players@[j];
                        &&& q == (Player {
                            draft_hand: q.draft_hand,
                            needs_to_draft: true,
                            ..g0.players@[j]
                        })
                        &&& q.draft_hand@ == g0.players@[source_seat(direction, j, n as int)].draft_hand@
                    },
                forall|j: int|
                    i <= j < n ==> #[trigger] self.players@[j] == (Player {
                        draft_hand: self.players@[j].draft_hand,
                        ..g0.players@[j]
                    }),
            decreases n - i,
        {
            let src = source_of(direction, i, n);
            proof {
                assert(hands@[src as int] == taken[src as int]) by {
                    if hands@[src as int] != taken[src as int] {
                        let m = choose|m: int| 0 <= m < i && source_seat(direction, m, n as int) == src;
                        assert(m == i as int);
                    }
                }
            }
            let mut h: Vec<String> = Vec::new();
            core::mem::swap(&mut h, &mut hands[src]);
            self.players[i].draft_hand = h;
            self.players[i].needs_to_draft = true;
            i = i + 1;
        }
        Ok(())
    }

    /// Records a player's pick of exactly one card from their draft hand.
    /// Once every player has picked, either rotates the hands for the next
    /// round or, when no hand holds more than one card, hands off the rest;
    /// returns whether the iteration is complete.
    pub fn process_draft_selection(
        &mut self,
        player_id: &PlayerId,
        selected_cards: Vec<String>,
        draft_type: DraftType,
    ) -> (r: Result<bool, GameError>)
        ensures
            selected_cards@.len() != 1 ==> r == Err::<bool, GameError>(
                GameError::InvalidSelectionCount,
            ) && *final(self) == *old(self),
            selected_cards@.len() == 1 && old(self).seat_of(player_id@) is None ==> r == Err::<
                bool,
                GameError,
            >(GameError::NotFound) && *final(self) == *old(self),
            selected_cards@.len() == 1 ==> (old(self).seat_of(player_id@) matches Some(i) ==> if !holds_text(
                old(self).players@[i].draft_hand@,
                selected_cards@[0]@,
            ) {
                r == Err::<bool, GameError>(GameError::InvalidSelection) && *final(self) == *old(self)
            } else {
                r is Ok && exists|g1: Game|
                    pick_recorded(*old(self), i, selected_cards@[0], g1) && after_pick(
                        g1,
                        draft_type,
                        *final(self),
                        r == Ok::<bool, GameError>(true),
                    )
            }),
    {
        if selected_cards.len() != 1 {
            return Err(GameError::InvalidSelectionCount);
        }
        let i = match self.find_player(player_id) {
            Some(i) => i,
            None => {
                return Err(GameError::NotFound);
            },
        };
        let card = &selected_cards[0];
        if !contains_text(&self.players[i].draft_hand, card) {
            return Err(GameError::InvalidSelection);
        }
        let ghost g0 = *self;
        self.players[i].drafted_cards.push(card.clone());
        remove_all_text(&mut self.players[i].draft_hand, card);
        self.players[i].needs_to_draft = false;
        let ghost g1 = *self;
        proof {
            assert(self.players@ =~= g0.players@.update(i as int, self.players@[i as int]));
            assert(pick_recorded(g0, i as int, selected_cards@[0], g1));
        }
        if self.anyone_needs_to_draft() {
            return Ok(false);
        }
        if self.any_hand_has_more_than_one() {
            if self.draft_round < u32::MAX {
                self.draft_round = self.draft_round + 1;
            }
            let _ = self.start_draft(draft_type);
            Ok(false)
        } else {
            self.finish_draft_round(draft_type);
            Ok(true)
        }
    }

    fn anyone_needs_to_draft(&self) -> (r: bool)
        ensures
            r == someone_owes_pick(self.players@),
    {
        let mut i: usize = 0;
        while i < self.players.len()
            invariant
                i <= self.players.len(),
                forall|j: int| 0 <= j < i ==> !(#[trigger] self.players@[j]).needs_to_draft,
            decreases self.players.len() - i,
        {
            if self.players[i].needs_to_draft {
                return true;
            }
            i = i + 1;
        }
        false
    }

    fn any_hand_has_more_than_one(&self) -> (r: bool)
        ensures
            r == hands_remain(self.players@),
    {
        let mut i: usize = 0;
        while i < self.players.len()
            invariant
                i <= self.players.len(),
                forall|j: int| 0 <= j < i ==> (#[trigger] self.players@[j]).draft_hand@.len() <= 1,
            decreases self.players.len() - i,
        {
            if self.players[i].draft_hand.len() > 1 {
                return true;
            }
            i = i + 1;
        }
        false
    }

    /// The terminal hand-off: each player adds the whole remaining hand of
    /// the seat at the trailing edge of the rotation to their picks; all
    /// hands end empty.
    fn finish_draft_round(&mut self, draft_type: DraftType)
        ensures
            handed_off(*old(self), *final(self), pass_direction(*old(self), draft_type)),
    {
        let direction = self.get_pass_direction(draft_type);
        let ghost g0 = *self;
        let mut hands = self.take_hands();
        let ghost taken = hands@;
        let n = self.players.len();
        let mut i: usize = 0;
        while i < n
            invariant
                i <= n,
                n == g0.players@.len(),
                hands@.len() == n,
                self.players@.len() == n,
                *self == (Game { players: self.players, ..g0 }),
                forall|j: int| 0 <= j < n ==> (#[trigger] taken[j])@ == g0.players@[j].draft_hand@,
                forall|j: int|
                    0 <= j < n ==> (#[trigger] hands@[j] == taken[j]) || (exists|m: int|
                        0 <= m < i && source_seat(direction, m, n as int) == j),
                forall|j: int|
                    0 <= j < i ==> {
                        let q = #[trigger] self.players@[j];
                        &&& q == (Player {
                            draft_hand: q.draft_hand,
                            drafted_cards: q.drafted_cards,
                            needs_to_draft: false,
                            ..g0.players@[j]
                        })
                        &&& q.draft_hand@.len() == 0
                        &&& q.drafted_cards@ == g0.players@[j].drafted_cards@ + g0.players@[source_seat(
                            direction,
                            j,
                            n as int,
                        )].draft_hand@
                    },
                forall|j: int|
                    i <= j < n ==> {
                        let q = #[trigger] self.players@[j];
                        &&& q == (Player { draft_hand: q.draft_hand, ..g0.players@[j] })
                        &&& q.draft_hand@.len() == 0
                    },
            decreases n - i,
        {
            let src = source_of(direction, i, n);
            proof {
                assert(hands@[src as int] == taken[src as int]) by {
                    if hands@[src as int] != taken[src as int] {
                        let m = choose|m: int| 0 <= m < i && source_seat(direction, m, n as int) == src;
                        assert(m == i as int);
                    }
                }
            }
            let mut h: Vec<String> = Vec::new();
            core::mem::swap(&mut h, &mut hands[src]);
            self.players[i].drafted_cards.append(&mut h);
            self.players[i].needs_to_draft = false;
            i = i + 1;
        }
    }

    /// Moves every player's picks to the end of their hand.
    fn move_picks_to_hand(&mut self)
        ensures
            *final(self) == (Game { players: final(self).players, ..*old(self) }),
            picks_to_hand(*old(self), *final(self)),
    {
        let ghost g0 = *self;
        let mut i: usize = 0;
        while i < self.players.len()
            invariant
                i <= self.players.len(),
                *self == (Game { players: self.players, ..g0 }),
                self.players@.len() == g0.players@.len(),
                forall|j: int|
                    0 <= j < i ==> {
                        let q = #[trigger] self.players@[j];
                        &&& q == (Player {
                            cards_in_hand: q.cards_in_hand,
                            drafted_cards: q.drafted_cards,
                            ..g0.players@[j]
                        })
                        &&& q.cards_in_hand@ == g0.players@[j].cards_in_hand@
                            + g0.players@[j].drafted_cards@
                        &&& q.drafted_cards@.len() == 0
                    },
                forall|j: int| i <= j < self.players@.len() ==> #[trigger] self.players@[j] == g0.players@[j],
            decreases self.players.len() - i,
        {
            let mut picks: Vec<String> = Vec::new();
            core::mem::swap(&mut picks, &mut self.players[i].drafted_cards);
            self.players[i].cards_in_hand.append(&mut picks);
            i = i + 1;
        }
    }

    /// Ends a draft iteration. The first initial iteration is followed by
    /// the second; after the second, and after a standard or prelude
    /// iteration, every player's picks join their hand and the Research
    /// phase begins. The round counter restarts.
    pub fn end_draft_iteration(&mut self, draft_type: DraftType) -> (r: Result<(), GameError>)
        ensures
            draft_type == DraftType::Initial && old(self).initial_draft_iteration != 1
                && old(self).initial_draft_iteration != 2 ==> r == Err::<(), GameError>(
                GameError::PhaseMismatch,
            ) && *final(self) == *old(self),
            draft_type == DraftType::Initial && old(self).initial_draft_iteration == 1 ==> {
                let g1 = Game { initial_draft_iteration: 2, draft_round: 1, ..*old(self) };
                &&& g1.players@.len() == 0 ==> r == Err::<(), GameError>(GameError::NoPlayers)
                    && *final(self) == g1
                &&& g1.players@.len() > 0 ==> r is Ok && dealt(g1, *final(self), DraftType::Initial)
            },
            draft_type != DraftType::Initial || old(self).initial_draft_iteration == 2 ==> {
                &&& r is Ok
                &&& picks_to_hand(*old(self), *final(self))
                &&& final(self).phase == Phase::Research
                &&& final(self).draft_round == 1
                &&& final(self).initial_draft_iteration == if draft_type == DraftType::Initial {
                    3
                } else {
                    old(self).initial_draft_iteration
                }
                &&& *final(self) == (Game {
                    players: final(self).players,
                    phase: Phase::Research,
                    draft_round: 1,
                    initial_draft_iteration: final(self).initial_draft_iteration,
                    ..*old(self)
                })
            },
    {
        match draft_type {
            DraftType::Initial => {
                if self.initial_draft_iteration == 1 {
                    self.initial_draft_iteration = 2;
                    self.draft_round = 1;
                    return self.start_draft(DraftType::Initial);
                } else if self.initial_draft_iteration != 2 {
                    return Err(GameError::PhaseMismatch);
                }
                self.initial_draft_iteration = 3;
            },
            _ => {},
        }
        self.draft_round = 1;
        self.move_picks_to_hand();
        self.phase = Phase::Research;
        Ok(())
    }

    /// The seat before the player with this id (wrapping).
    pub fn get_player_before(&self, player_id: &PlayerId) -> (r: Option<PlayerId>)
        ensures
            match self.seat_of(player_id@) {
                None => r is None,
                Some(i) => r == Some(
                    self.players@[source_seat(
                        PassDirection::After,
                        i,
                        self.players@.len() as int,
                    )].id,
                ),
            },
    {
        let pos = match self.find_player(player_id) {
            Some(p) => p,
            None => {
                return None;
            },
        };
        let src = source_of(PassDirection::After, pos, self.players.len());
        Some(self.players[src].id.clone())
    }

    /// The seat after the player with this id (wrapping).
    pub fn get_player_after(&self, player_id: &PlayerId) -> (r: Option<PlayerId>)
        ensures
            match self.seat_of(player_id@) {
                None => r is None,
                Some(i) => r == Some(
                    self.players@[source_seat(
                        PassDirection::Before,
                        i,
                        self.players@.len() as int,
                    )].id,
                ),
            },
    {
        let pos = match self.find_player(player_id) {
            Some(p) => p,
            None => {
                return None;
            },
        };
        let src = source_of(PassDirection::Before, pos, self.players.len());
        Some(self.players[src].id.clone())
    }
}

/// `g1` is `g0` after the player in seat `i` picks card `c`: the card joins
/// their picks, every copy leaves their hand, and they owe no pick.
pub open spec fn pick_recorded(g0: Game, i: int, c: String, g1: Game) -> bool {
    let p = g0.players@[i];
    &&& g1 == (Game { players: g1.players, ..g0 })
    &&& g1.players@ == g0.players@.update(
        i,
        g1.players@[i],
    )
    &&& g1.players@[i] == (Player {
        draft_hand: g1.players@[i].draft_hand,
        drafted_cards: g1.players@[i].drafted_cards,
        needs_to_draft: false,
        ..p
    })
    &&& g1.players@[i].drafted_cards@ == p.drafted_cards@.push(c)
    &&& g1.players@[i].draft_hand@ == without_text(p.draft_hand@, c@)
}

/// `g1` is `g0` with every player's picks moved to the end of their hand.
pub open spec fn picks_to_hand(g0: Game, g1: Game) -> bool {
    &&& g1.players@.len() == g0.players@.len()
    &&& forall|i: int|
        0 <= i < g0.players@.len() ==> {
            let q = #[trigger] g1.players@[i];
            &&& q == (Player {
                cards_in_hand: q.cards_in_hand,
                drafted_cards: q.drafted_cards,
                ..g0.players@[i]
            })
            &&& q.cards_in_hand@ == g0.players@[i].cards_in_hand@ + g0.players@[i].drafted_cards@
            &&& q.drafted_cards@.len() == 0
        }
}

/// What follows a pick in session `g1`: once nobody owes a pick, either the
/// next round starts (some hand holds more than one card) or the hand-off
/// ends the iteration.
pub open spec fn after_pick(g1: Game, t: DraftType, g2: Game, done: bool) -> bool {
    if someone_owes_pick(g1.players@) {
        g2 == g1 && !done
    } else if hands_remain(g1.players@) {
        let gr = Game {
            draft_round: if g1.draft_round < u32::MAX {
                (g1.draft_round + 1) as u32
            } else {
                g1.draft_round
            },
            ..g1
        };
        &&& !done
        &&& if gr.draft_round == 1 {
            dealt(gr, g2, t)
        } else {
            rotated(gr, g2, pass_direction(gr, t))
        }
    } else {
        done && handed_off(g1, g2, pass_direction(g1, t))
    }
}

/// With three players in the standard draft, an odd generation passes
/// toward the lower seat (seat 0 receives seat 1's hand) and an even one
/// toward the higher seat (seat 0 receives seat 2's hand).
pub proof fn lemma_standard_draft_geometry(g: Game)
    requires
        g.players@.len() == 3,
    ensures
        g.generation % 2 == 1 ==> pass_direction(g, DraftType::Standard) == PassDirection::Before
            && source_seat(pass_direction(g, DraftType::Standard), 0, 3) == 1,
        g.generation % 2 == 0 ==> pass_direction(g, DraftType::Standard) == PassDirection::After
            && source_seat(pass_direction(g, DraftType::Standard), 0, 3) == 2,
{
}

} // verus!
