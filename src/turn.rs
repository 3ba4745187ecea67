use vstd::prelude::*;
use crate::action::Action;
use crate::action_executor::{ActionExecutor, action_applied, action_check};
use crate::deferred::DeferredAction;
use crate::error::GameError;
use crate::flow::{all_passed, seat_after, unpassed_offset, win_of};
use crate::game::Game;
use crate::ids::{contains_text, holds_text};
use crate::phase::Phase;
use crate::player::Player;
use crate::queue::{DeferredActionQueue, pushed, QueueEntry, ran_in_order};
use crate::deferred::{DeferredActionResult, lemma_outcome_ignores_queue};

verus! {

/// Non-pass actions a player may take in one turn.
pub const ACTIONS_PER_TURN: u32 = 2;

/// The passed set after the active player (id `id`) passes.
pub open spec fn passed_after(passed: Seq<String>, id: String) -> Seq<String> {
    if holds_text(passed, id@) {
        passed
    } else {
        passed.push(id)
    }
}

/// What `pass_turn` does to an Action-phase session whose active player sits
/// in seat `s`.
pub open spec fn pass_applied(g0: Game, s: int, g1: Game) -> bool {
    let id = g0.players@[s].id;
    let passed = passed_after(g0.passed_players@, id);
    let n = g0.players@.len() as int;
    if all_passed(g0.players@, passed) {
        &&& g1 == (Game {
            phase: Phase::Production,
            passed_players: g1.passed_players,
            actions_taken: 0,
            ..g0
        })
        &&& g1.passed_players@.len() == 0
    } else {
        let k = unpassed_offset(g0.players@, passed, s, 1);
        &&& 1 <= k < n
        &&& !holds_text(passed, g0.players@[seat_after(s, k, n)].id@)
        &&& forall|j: int|
            1 <= j < k ==> holds_text(passed, (#[trigger] g0.players@[seat_after(s, j, n)]).id@)
        &&& g1 == (Game {
            passed_players: g1.passed_players,
            active_player_id: Some(g0.players@[seat_after(s, k, n)].id),
            actions_taken: 0,
            ..g0
        })
        &&& g1.passed_players@ == passed
    }
}

/// The phase that `advance_phase` moves to, or `None` where it refuses.
pub open spec fn phase_after(g: Game) -> Option<Phase> {
    match g.phase {
        Phase::InitialDrafting => Some(Phase::Research),
        Phase::Research => if g.generation == 1 && g.prelude {
            Some(Phase::Preludes)
        } else {
            Some(Phase::Action)
        },
        Phase::Preludes => Some(Phase::Action),
        Phase::Drafting => Some(Phase::Research),
        Phase::Action => None,
        Phase::Production => if g.venus_next {
            Some(Phase::Solar)
        } else if win_of(g) is Some {
            Some(Phase::End)
        } else {
            Some(Phase::Intergeneration)
        },
        Phase::Solar => if crate::flow::mars_maxed(g.global_parameters@) || win_of(g) is Some {
            Some(Phase::End)
        } else {
            Some(Phase::Intergeneration)
        },
        Phase::Intergeneration => if win_of(g) is Some {
            Some(Phase::End)
        } else if g.draft_variant {
            Some(Phase::Drafting)
        } else {
            Some(Phase::Research)
        },
        Phase::End => None,
    }
}

/// The generation after leaving phase `p` of session `g`: it grows by one
/// when the game leaves Intergeneration for another generation.
pub open spec fn generation_after(g: Game) -> u32 {
    if g.phase == Phase::Intergeneration && win_of(g) is None && g.generation < u32::MAX {
        (g.generation + 1) as u32
    } else {
        g.generation
    }
}

/// `g1` is `g0` after draining its queue: the first `k` effects ran once each,
/// in queue order and without asking for input, on the session (its queue
/// aside); the queue holds the rest, and a non-empty rest starts with an
/// effect that needs input.
pub open spec fn drained(g0: Game, g1: Game) -> bool {
    exists|k: int, ga: Game, gb: Game|
        0 <= k <= g0.deferred.entries().len() && #[trigger] ran_in_order(
            g0.deferred.entries().take(k),
            ga,
            gb,
        ) && ga == (Game { deferred: ga.deferred, ..g0 }) && g1 == (Game {
            deferred: g1.deferred,
            ..gb
        }) && g1.deferred.entries() == g0.deferred.entries().skip(k) && (
        g1.deferred.entries().len() > 0 ==> g1.deferred.entries()[0].action.outcome(g1) == Ok::<
            DeferredActionResult,
            GameError,
        >(DeferredActionResult::NeedsInput))
}

/// One action of the active player in session `g`, whose queue is empty,
/// giving result `r` and session `g2`: a pass is always accepted and hands
/// the turn on (or ends the Action phase); any other action needs budget
/// left in this turn, counts against it when it succeeds, and leaves the turn
/// with the same player (`next_player` or a pass hands it on, each with a
/// fresh budget).
pub open spec fn turn_step(g: Game, action: Action, r: Result<(), GameError>, g2: Game) -> bool {
    match g.active_seat() {
        None => r == Err::<(), GameError>(GameError::NoActivePlayer) && g2 == g,
        Some(s) => if action is Pass {
            r is Ok && pass_applied(g, s, g2)
        } else if g.actions_taken >= ACTIONS_PER_TURN {
            r == Err::<(), GameError>(GameError::ActionBudgetExceeded) && g2 == g
        } else {
            let id = g.players@[s].id;
            &&& r == action_check(action, g, id@)
            &&& r is Err ==> g2 == g
            &&& r is Ok ==> g2.actions_taken == g.actions_taken + 1 && action_applied(
                action,
                g,
                s,
                Game { actions_taken: g.actions_taken, ..g2 },
            )
        },
    }
}

/// Seat `s + k`, wrapping at `n`.
fn wrap_seat(s: usize, k: usize, n: usize) -> (r: usize)
    requires
        s < n,
        k < n,
    ensures
        r == seat_after(s as int, k as int, n as int),
        r < n,
{
    if k < n - s {
        s + k
    } else {
        k - (n - s)
    }
}

/// The offset from seat `s` to the next seat (wrapping) that has not passed.
fn next_unpassed(players: &Vec<Player>, passed: &Vec<String>, s: usize) -> (k: usize)
    requires
        s < players@.len(),
        holds_text(passed@, players@[s as int].id@),
        !all_passed(players@, passed@),
    ensures
        1 <= k < players@.len(),
        k == unpassed_offset(players@, passed@, s as int, 1),
        !holds_text(passed@, players@[seat_after(s as int, k as int, players@.len() as int)].id@),
        forall|j: int|
            1 <= j < k ==> holds_text(
                passed@,
                (#[trigger] players@[seat_after(s as int, j, players@.len() as int)]).id@,
            ),
{
    let n = players.len();
    let mut k: usize = 1;
    while k < n && contains_text(passed, &players[wrap_seat(s, k, n)].id)
        invariant
            1 <= k <= n,
            n == players@.len(),
            s < n,
            unpassed_offset(players@, passed@, s as int, 1) == unpassed_offset(
                players@,
                passed@,
                s as int,
                k as int,
            ),
            forall|j: int|
                1 <= j < k ==> holds_text(
                    passed@,
                    (#[trigger] players@[seat_after(s as int, j, n as int)]).id@,
                ),
        decreases n - k,
    {
        k = k + 1;
    }
    proof {
        if k == n {
            assert forall|i: int| 0 <= i < n implies holds_text(
                passed@,
                (#[trigger] players@[i]).id@,
            ) by {
                if i != s {
                    let j = if i > s {
                        i - s
                    } else {
                        i + n - s
                    };
                    assert(seat_after(s as int, j, n as int) == i);
                    assert(holds_text(passed@, players@[seat_after(s as int, j, n as int)].id@));
                }
            }
            assert(false);
        }
    }
    k
}

impl Game {
    /// Queues a deferred effect.
    pub fn defer(&mut self, action: DeferredAction)
        ensures
            *final(self) == (Game { deferred: final(self).deferred, ..*old(self) }),
            final(self).deferred.entries() == pushed(
                old(self).deferred.entries(),
                QueueEntry { action, insertion_order: old(self).deferred.counter() },
            ),
    {
        self.deferred.push(action);
    }

    /// Runs queued effects until the queue is empty or one needs input.
    /// Returns how many left the queue, or `AwaitingInput` when an effect
    /// is stalled at the front (it keeps its place).
    pub fn drain_deferred(&mut self) -> (r: Result<usize, GameError>)
        ensures
            drained(*old(self), *final(self)),
            old(self).deferred.entries().len() == 0 ==> r == Ok::<usize, GameError>(0)
                && *final(self) == *old(self),
            *final(self) == (Game {
                players: final(self).players,
                deferred: final(self).deferred,
                ..*old(self)
            }),
            r is Ok <==> final(self).deferred.entries().len() == 0,
            r matches Ok(k) ==> k == old(self).deferred.entries().len(),
            r is Err ==> r == Err::<usize, GameError>(GameError::AwaitingInput),
    {
        if self.deferred.is_empty() {
            proof {
                let es = self.deferred.entries();
                assert(es.take(0) =~= Seq::<QueueEntry>::empty());
                assert(es.skip(0) =~= es);
                assert(ran_in_order(es.take(0), *self, *self));
            }
            return Ok(0);
        }
        let ghost g0 = *self;
        let mut queue = DeferredActionQueue::new();
        core::mem::swap(&mut queue, &mut self.deferred);
        let ghost ga = *self;
        let done = queue.execute_all(self);
        let ghost gb = *self;
        core::mem::swap(&mut queue, &mut self.deferred);
        proof {
            let k = done as int;
            assert(ran_in_order(g0.deferred.entries().take(k), ga, gb));
            if self.deferred.entries().len() > 0 {
                lemma_outcome_ignores_queue(self.deferred.entries()[0].action, gb, *self);
            }
        }
        if self.deferred.is_empty() {
            Ok(done)
        } else {
            Err(GameError::AwaitingInput)
        }
    }

    /// Opens an action round in the Action phase: the first player becomes
    /// active with a fresh budget and nobody has passed.
    pub fn start_action_phase(&mut self) -> (r: Result<(), GameError>)
        ensures
            old(self).phase != Phase::Action ==> r == Err::<(), GameError>(GameError::PhaseMismatch)
                && *final(self) == *old(self),
            old(self).phase == Phase::Action ==> r is Ok && *final(self) == (Game {
                active_player_id: if old(self).players@.len() > 0 {
                    Some(old(self).players@[0].id)
                } else {
                    None
                },
                passed_players: final(self).passed_players,
                actions_taken: 0,
                ..*old(self)
            }) && final(self).passed_players@.len() == 0,
    {
        if self.phase != Phase::Action {
            return Err(GameError::PhaseMismatch);
        }
        self.active_player_id = if self.players.len() > 0 {
            Some(self.players[0].id.clone())
        } else {
            None
        };
        self.passed_players.clear();
        self.actions_taken = 0;
        Ok(())
    }

    /// Ends the Action phase once every player has passed: moves to
    /// Production and clears the passed set and the action budget. Refused
    /// outside the Action phase, and while someone has not passed.
    pub fn end_action_phase(&mut self) -> (r: Result<(), GameError>)
        ensures
            old(self).phase != Phase::Action ==> r == Err::<(), GameError>(GameError::PhaseMismatch)
                && *final(self) == *old(self),
            old(self).phase == Phase::Action && !all_passed(
                old(self).players@,
                old(self).passed_players@,
            ) ==> r == Err::<(), GameError>(GameError::NotReady) && *final(self) == *old(self),
            old(self).phase == Phase::Action && all_passed(
                old(self).players@,
                old(self).passed_players@,
            ) ==> r is Ok && *final(self) == (Game {
                phase: Phase::Production,
                passed_players: final(self).passed_players,
                actions_taken: 0,
                ..*old(self)
            }) && final(self).passed_players@.len() == 0,
    {
        if self.phase != Phase::Action {
            return Err(GameError::PhaseMismatch);
        }
        if !self.all_players_passed() {
            return Err(GameError::NotReady);
        }
        self.phase = Phase::Production;
        self.passed_players.clear();
        self.actions_taken = 0;
        Ok(())
    }

    /// The active player passes: they join the passed set and the next seat
    /// (wrapping) that has not passed becomes active with a fresh budget;
    /// once everyone has passed, the Action phase ends instead.
    pub fn pass_turn(&mut self) -> (r: Result<(), GameError>)
        ensures
            old(self).phase != Phase::Action ==> r == Err::<(), GameError>(GameError::PhaseMismatch)
                && *final(self) == *old(self),
            old(self).phase == Phase::Action && old(self).active_seat() is None ==> r == Err::<
                (),
                GameError,
            >(GameError::NoActivePlayer) && *final(self) == *old(self),
            old(self).phase == Phase::Action ==> (old(self).active_seat() matches Some(s) ==> r is Ok
                && pass_applied(*old(self), s, *final(self))),
    {
        if self.phase != Phase::Action {
            return Err(GameError::PhaseMismatch);
        }
        let s = match &self.active_player_id {
            Some(id) => match self.find_player(id) {
                Some(s) => s,
                None => {
                    return Err(GameError::NoActivePlayer);
                },
            },
            None => {
                return Err(GameError::NoActivePlayer);
            },
        };
        let ghost g0 = *self;
        let id = self.players[s].id.clone();
        if !contains_text(&self.passed_players, &id) {
            self.passed_players.push(id);
        }
        let ghost passed = self.passed_players@;
        assert(passed == passed_after(g0.passed_players@, g0.players@[s as int].id));
        if self.all_players_passed() {
            self.phase = Phase::Production;
            self.passed_players.clear();
            self.actions_taken = 0;
            return Ok(());
        }
        let n = self.players.len();
        proof {
            let id0 = g0.players@[s as int].id;
            if !holds_text(g0.passed_players@, id0@) {
                assert(passed[passed.len() - 1] == id0);
            }
            assert(holds_text(passed, g0.players@[s as int].id@));
        }
        let k = next_unpassed(&self.players, &self.passed_players, s);
        self.active_player_id = Some(self.players[wrap_seat(s, k, n)].id.clone());
        self.actions_taken = 0;
        Ok(())
    }

    /// Moves to the next phase where that is allowed, evaluating the win
    /// conditions on the way: Action only ends through `end_action_phase`;
    /// leaving Production, Solar or Intergeneration ends the game on a win;
    /// leaving Intergeneration starts the next generation.
    pub fn advance_phase(&mut self) -> (r: Result<(), GameError>)
        ensures
            phase_after(*old(self)) is None ==> r == Err::<(), GameError>(
                if old(self).phase == Phase::End {
                    GameError::GameOver
                } else {
                    GameError::PhaseMismatch
                },
            ) && *final(self) == *old(self),
            phase_after(*old(self)) matches Some(p) ==> r is Ok && *final(self) == (Game {
                phase: p,
                generation: generation_after(*old(self)),
                ..*old(self)
            }),
    {
        let next = match self.phase {
            Phase::InitialDrafting => Phase::Research,
            Phase::Research => if self.generation == 1 && self.prelude {
                Phase::Preludes
            } else {
                Phase::Action
            },
            Phase::Preludes => Phase::Action,
            Phase::Drafting => Phase::Research,
            Phase::Action => {
                return Err(GameError::PhaseMismatch);
            },
            Phase::Production => if self.venus_next {
                Phase::Solar
            } else if self.check_win_conditions().is_some() {
                Phase::End
            } else {
                Phase::Intergeneration
            },
            Phase::Solar => if self.mars_terraformed() || self.check_win_conditions().is_some() {
                Phase::End
            } else {
                Phase::Intergeneration
            },
            Phase::Intergeneration => {
                if self.check_win_conditions().is_some() {
                    Phase::End
                } else {
                    self.increment_generation();
                    if self.check_win_conditions().is_some() {
                        Phase::End
                    } else if self.draft_variant {
                        Phase::Drafting
                    } else {
                        Phase::Research
                    }
                }
            },
            Phase::End => {
                return Err(GameError::GameOver);
            },
        };
        self.phase = next;
        Ok(())
    }

    /// Executes an action of the active player. Outside the Action phase it
    /// fails with `PhaseMismatch`. Queued effects are drained first; a stall
    /// refuses the action with `AwaitingInput`. A pass is always accepted;
    /// any other action needs budget left this turn, and counts against it
    /// when it succeeds.
    pub fn execute_action(&mut self, action: &Action) -> (r: Result<(), GameError>)
        ensures
            old(self).phase != Phase::Action ==> r == Err::<(), GameError>(GameError::PhaseMismatch)
                && *final(self) == *old(self),
            old(self).phase == Phase::Action && old(self).active_player_id is None ==> r == Err::<
                (),
                GameError,
            >(GameError::NoActivePlayer) && *final(self) == *old(self),
            old(self).phase == Phase::Action && old(self).deferred.entries().len() == 0 ==> turn_step(
                *old(self),
                *action,
                r,
                *final(self),
            ),
            old(self).phase == Phase::Action && old(self).active_player_id is Some ==> exists|gd: Game|
                #[trigger] drained(*old(self), gd) && gd.phase == Phase::Action && (
                gd.deferred.entries().len() > 0 ==> r == Err::<(), GameError>(
                    GameError::AwaitingInput,
                ) && *final(self) == gd) && (gd.deferred.entries().len() == 0 ==> turn_step(
                    gd,
                    *action,
                    r,
                    *final(self),
                )),
    {
        if self.phase != Phase::Action {
            return Err(GameError::PhaseMismatch);
        }
        if self.active_player_id.is_none() {
            return Err(GameError::NoActivePlayer);
        }
        match self.drain_deferred() {
            Err(e) => {
                return Err(e);
            },
            Ok(_) => {},
        }
        let ghost gd = *self;
        let r = self.act_on_drained(action);
        proof {
            assert(drained(*old(self), gd));
        }
        r
    }

    /// The action step on a session whose queue is empty.
    fn act_on_drained(&mut self, action: &Action) -> (r: Result<(), GameError>)
        requires
            old(self).phase == Phase::Action,
            old(self).deferred.entries().len() == 0,
        ensures
            turn_step(*old(self), *action, r, *final(self)),
    {
        let s = match &self.active_player_id {
            Some(id) => match self.find_player(id) {
                Some(s) => s,
                None => {
                    return Err(GameError::NoActivePlayer);
                },
            },
            None => {
                return Err(GameError::NoActivePlayer);
            },
        };
        if action.is_pass() {
            return self.pass_turn();
        }
        if self.actions_taken >= ACTIONS_PER_TURN {
            return Err(GameError::ActionBudgetExceeded);
        }
        let id = self.players[s].id.clone();
        match ActionExecutor::execute(action, self, id.as_str()) {
            Err(e) => Err(e),
            Ok(_) => {
                self.actions_taken = self.actions_taken + 1;
                Ok(())
            },
        }
    }
}

/// The edges of the phase graph (Action to Production is taken only by
/// `end_action_phase`).
pub open spec fn phase_edge(from: Phase, to: Phase) -> bool {
    match from {
        Phase::InitialDrafting => to == Phase::Research,
        Phase::Research => to == Phase::Preludes || to == Phase::Action,
        Phase::Preludes => to == Phase::Action,
        Phase::Drafting => to == Phase::Research,
        Phase::Action => to == Phase::Production,
        Phase::Production => to == Phase::Solar || to == Phase::Intergeneration || to == Phase::End,
        Phase::Solar => to == Phase::Intergeneration || to == Phase::End,
        Phase::Intergeneration => to == Phase::Drafting || to == Phase::Research || to
            == Phase::End,
        Phase::End => false,
    }
}

/// `advance_phase` only follows edges of the phase graph, never leaves
/// `End`, and never lowers the generation.
pub proof fn lemma_advance_follows_graph(g: Game)
    ensures
        phase_after(g) matches Some(p) ==> phase_edge(g.phase, p),
        g.phase == Phase::End ==> phase_after(g) is None,
        g.phase == Phase::Action ==> phase_after(g) is None,
        generation_after(g) >= g.generation,
{
}

} // verus!
