use vstd::prelude::*;
use crate::awards::{AwardData, FundedAward};
use crate::board::{Board, BoardType};
use crate::global_params::GlobalParameters;
use crate::ids::{make_seat_id, seat_id, text};
use crate::milestones::{ClaimedMilestone, MilestoneData};
use crate::phase::Phase;
use crate::player::{Player, PlayerId};
use crate::queue::DeferredActionQueue;
use crate::random::SeededRandom;

verus! {

/// Terraform rating of the player at the start of a solo game.
pub const SOLO_STARTING_TR: i32 = 14;

/// The session: all mutable world state of one game.
#[derive(Debug)]
pub struct Game {
    pub id: String,
    /// Players in seat order.
    pub players: Vec<Player>,
    pub phase: Phase,
    /// Current generation; starts at 1 and never decreases.
    pub generation: u32,
    pub active_player_id: Option<PlayerId>,
    /// Players who passed in the current action round.
    pub passed_players: Vec<PlayerId>,
    /// Non-pass actions taken by the active player in the current turn.
    pub actions_taken: u32,
    pub global_parameters: GlobalParameters,
    pub board: Board,
    pub rng_seed: u64,
    pub rng: SeededRandom,
    pub corporate_era: bool,
    pub venus_next: bool,
    pub colonies: bool,
    pub prelude: bool,
    pub prelude2: bool,
    pub turmoil: bool,
    pub promos: bool,
    /// Standard drafting in generations after the first.
    pub draft_variant: bool,
    pub milestones: Vec<MilestoneData>,
    pub claimed_milestones: Vec<ClaimedMilestone>,
    pub awards: Vec<AwardData>,
    pub funded_awards: Vec<FundedAward>,
    pub solo_mode: bool,
    /// The neutral opponent of a solo game.
    pub neutral_player: Option<Player>,
    /// Round of the current draft iteration, from 1.
    pub draft_round: u32,
    /// Iteration of the initial draft (1, 2, or 3 for the prelude iteration).
    pub initial_draft_iteration: u32,
    /// Effects that resolve before the next player action.
    pub deferred: DeferredActionQueue,
}

/// The seat of the first player whose id is `id`.
pub open spec fn player_index(players: Seq<Player>, id: Seq<char>) -> Option<int>
    decreases players.len(),
{
    if players.len() == 0 {
        None
    } else if players.last().id@ == id && player_index(players.drop_last(), id) is None {
        Some(players.len() - 1)
    } else {
        player_index(players.drop_last(), id)
    }
}

/// What `player_index` finds is the first player with that id.
pub proof fn lemma_player_index(players: Seq<Player>, id: Seq<char>)
    ensures
        match player_index(players, id) {
            Some(i) => 0 <= i < players.len() && players[i].id@ == id && forall|j: int|
                0 <= j < i ==> (#[trigger] players[j]).id@ != id,
            None => forall|j: int| 0 <= j < players.len() ==> (#[trigger] players[j]).id@ != id,
        },
    decreases players.len(),
{
    if players.len() > 0 {
        lemma_player_index(players.drop_last(), id);
        assert forall|j: int| 0 <= j < players.len() - 1 implies players.drop_last()[j]
            == #[trigger] players[j] by {}
    }
}

impl Game {
    /// The seat of the player with this id.
    pub open spec fn seat_of(self, id: Seq<char>) -> Option<int> {
        player_index(self.players@, id)
    }

    /// The seat of the active player, when there is one and it is seated.
    pub open spec fn active_seat(self) -> Option<int> {
        match self.active_player_id {
            Some(id) => self.seat_of(id@),
            None => None,
        }
    }

    /// Creates a session. Player `i` (0-based) gets the id `p{i+1}`; a single
    /// player means a solo game, with a neutral opponent and a lower starting
    /// terraform rating. The first player is active.
    pub fn new(
        id: String,
        player_names: Vec<String>,
        rng_seed: u64,
        board_type: BoardType,
        corporate_era: bool,
        venus_next: bool,
        colonies: bool,
        prelude: bool,
        prelude2: bool,
        turmoil: bool,
        promos: bool,
        draft_variant: bool,
    ) -> (r: Self)
        requires
            player_names.len() < usize::MAX,
        ensures
            r.id == id,
            r.players@.len() == player_names@.len(),
            forall|i: int|
                0 <= i < player_names@.len() ==> {
                    let p = #[trigger] r.players@[i];
                    &&& p.id@ == seat_id((i + 1) as nat)
                    &&& p.is_fresh_with_tr(
                        seat_id((i + 1) as nat),
                        player_names@[i]@,
                        if player_names@.len() == 1 {
                            SOLO_STARTING_TR
                        } else {
                            crate::player::STARTING_TR
                        },
                    )
                },
            r.phase == Phase::InitialDrafting,
            r.generation == 1,
            r.active_player_id == if player_names@.len() > 0 {
                Some(r.players@[0].id)
            } else {
                None::<String>
            },
            r.passed_players@.len() == 0,
            r.actions_taken == 0,
            r.global_parameters@ == crate::global_params::Levels::zero(),
            r.board.kind() == board_type,
            r.board.space_seq().len() == 0,
            r.rng_seed == rng_seed,
            r.corporate_era == corporate_era,
            r.venus_next == venus_next,
            r.colonies == colonies,
            r.prelude == prelude,
            r.prelude2 == prelude2,
            r.turmoil == turmoil,
            r.promos == promos,
            r.draft_variant == draft_variant,
            r.milestones@.len() == 0,
            r.claimed_milestones@.len() == 0,
            r.awards@.len() == 0,
            r.funded_awards@.len() == 0,
            r.solo_mode == (player_names@.len() == 1),
            r.solo_mode ==> (r.neutral_player matches Some(n) && n.is_fresh(
                seq!['n', 'e', 'u', 't', 'r', 'a', 'l'],
                seq!['N', 'e', 'u', 't', 'r', 'a', 'l'],
            )),
            !r.solo_mode ==> r.neutral_player is None,
            r.draft_round == 1,
            r.initial_draft_iteration == 1,
            r.deferred.entries().len() == 0,
    {
        let solo_mode = player_names.len() == 1;
        let mut players: Vec<Player> = Vec::new();
        let mut i: usize = 0;
        while i < player_names.len()
            invariant
                i <= player_names.len(),
                player_names.len() < usize::MAX,
                solo_mode == (player_names@.len() == 1),
                players@.len() == i,
                forall|k: int|
                    0 <= k < i ==> {
                        let p = #[trigger] players@[k];
                        &&& p.id@ == seat_id((k + 1) as nat)
                        &&& p.is_fresh_with_tr(
                            seat_id((k + 1) as nat),
                            player_names@[k]@,
                            if solo_mode {
                                SOLO_STARTING_TR
                            } else {
                                crate::player::STARTING_TR
                            },
                        )
                    },
            decreases player_names.len() - i,
        {
            let mut player = Player::new(make_seat_id(i + 1), player_names[i].clone());
            if solo_mode {
                player.terraform_rating = SOLO_STARTING_TR;
            }
            players.push(player);
            i = i + 1;
        }
        let neutral_player = if solo_mode {
            proof {
                reveal_strlit("neutral");
                reveal_strlit("Neutral");
                assert("neutral"@ =~= seq!['n', 'e', 'u', 't', 'r', 'a', 'l']);
                assert("Neutral"@ =~= seq!['N', 'e', 'u', 't', 'r', 'a', 'l']);
            }
            Some(Player::new(text("neutral"), text("Neutral")))
        } else {
            None
        };
        let active_player_id = if players.len() > 0 {
            Some(players[0].id.clone())
        } else {
            None
        };
        Game {
            id,
            players,
            phase: Phase::InitialDrafting,
            generation: 1,
            active_player_id,
            passed_players: Vec::new(),
            actions_taken: 0,
            global_parameters: GlobalParameters::new(),
            board: Board::new(board_type),
            rng_seed,
            rng: SeededRandom::new(rng_seed),
            corporate_era,
            venus_next,
            colonies,
            prelude,
            prelude2,
            turmoil,
            promos,
            draft_variant,
            milestones: Vec::new(),
            claimed_milestones: Vec::new(),
            awards: Vec::new(),
            funded_awards: Vec::new(),
            solo_mode,
            neutral_player,
            draft_round: 1,
            initial_draft_iteration: 1,
            deferred: DeferredActionQueue::new(),
        }
    }

    /// The seat of the player with this id.
    pub fn find_player(&self, player_id: &PlayerId) -> (r: Option<usize>)
        ensures
            r matches Some(i) ==> self.seat_of(player_id@) == Some(i as int) && i
                < self.players@.len() && self.players@[i as int].id@ == player_id@,
            r is None ==> self.seat_of(player_id@) is None,
    {
        proof {
            lemma_player_index(self.players@, player_id@);
        }
        let mut i: usize = 0;
        while i < self.players.len()
            invariant
                i <= self.players.len(),
                forall|j: int| 0 <= j < i ==> (#[trigger] self.players@[j]).id@ != player_id@,
                match player_index(self.players@, player_id@) {
                    Some(k) => 0 <= k < self.players.len() && self.players@[k].id@ == player_id@
                        && forall|j: int|
                        0 <= j < k ==> (#[trigger] self.players@[j]).id@ != player_id@,
                    None => forall|j: int|
                        0 <= j < self.players.len() ==> (#[trigger] self.players@[j]).id@
                            != player_id@,
                },
            decreases self.players.len() - i,
        {
            if self.players[i].id == *player_id {
                return Some(i);
            }
            i = i + 1;
        }
        None
    }

    /// The player with this id.
    pub fn get_player(&self, player_id: &PlayerId) -> (r: Option<&Player>)
        ensures
            match self.seat_of(player_id@) {
                Some(i) => r == Some(&self.players@[i]),
                None => r is None,
            },
    {
        match self.find_player(player_id) {
            Some(i) => Some(&self.players[i]),
            None => None,
        }
    }

    /// The player with this id, for changes.
    pub fn get_player_mut(&mut self, player_id: &PlayerId) -> (r: Option<&mut Player>)
        ensures
            match old(self).seat_of(player_id@) {
                Some(i) => (r matches Some(p) && *p == old(self).players@[i]
                    && *final(self) == (Game { players: final(self).players, ..*old(self) })
                    && final(self).players@ == old(self).players@.update(i, *final(p))),
                None => r is None && *final(self) == *old(self),
            },
    {
        match self.find_player(player_id) {
            Some(i) => Some(&mut self.players[i]),
            None => None,
        }
    }

    /// Whether every global parameter, Venus included, is at its maximum.
    pub fn is_fully_terraformed(&self) -> (r: bool)
        ensures
            r == self.global_parameters@.all_maxed(),
    {
        self.global_parameters.is_fully_terraformed()
    }

    /// Whether this is a solo game.
    pub fn is_solo_mode(&self) -> (r: bool)
        ensures
            r == self.solo_mode,
    {
        self.solo_mode
    }

    /// The active player.
    pub fn active_player(&self) -> (r: Option<&Player>)
        ensures
            match self.active_seat() {
                Some(i) => r == Some(&self.players@[i]),
                None => r is None,
            },
    {
        match &self.active_player_id {
            Some(id) => self.get_player(id),
            None => None,
        }
    }

    /// The active player, for changes.
    pub fn active_player_mut(&mut self) -> (r: Option<&mut Player>)
        ensures
            match old(self).active_seat() {
                Some(i) => (r matches Some(p) && *p == old(self).players@[i]
                    && *final(self) == (Game { players: final(self).players, ..*old(self) })
                    && final(self).players@ == old(self).players@.update(i, *final(p))),
                None => r is None && *final(self) == *old(self),
            },
    {
        let player_id = match &self.active_player_id {
            Some(id) => id.clone(),
            None => {
                return None;
            },
        };
        self.get_player_mut(&player_id)
    }
}

} // verus!
