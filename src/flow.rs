use vstd::prelude::*;
use crate::error::GameError;
use crate::game::{Game, player_index};
use crate::global_params::{GlobalParameter, Levels};
use crate::ids::{holds_text, contains_text};
use crate::phase::Phase;
use crate::player::{Player, PlayerId};
use crate::resources::{Resource, Resources};

verus! {

/// Terraform rating that wins a solo game.
pub const SOLO_WIN_TR: i32 = 63;

/// Why a game was won.
#[derive(Debug, Clone, Copy, PartialEq, Eq, Structural)]
pub enum WinCondition {
    /// The solo player reached the terraform rating threshold.
    SoloTr63,
    /// All enabled global parameters are at their maximum.
    Terraformed,
}

/// Oceans, oxygen and temperature at their maximum.
pub open spec fn mars_maxed(l: Levels) -> bool {
    l.oceans >= 9 && l.oxygen >= 14 && l.temperature >= 19
}

/// Every enabled global parameter at its maximum.
pub open spec fn enabled_maxed(g: Game) -> bool {
    mars_maxed(g.global_parameters@) && (!g.venus_next || g.global_parameters@.venus >= 15)
}

/// The solo player has reached the winning terraform rating.
pub open spec fn solo_threshold_reached(g: Game) -> bool {
    g.solo_mode && g.players@.len() > 0 && g.players@[0].terraform_rating >= SOLO_WIN_TR
}

/// The win that `check_win_conditions` reports.
pub open spec fn win_of(g: Game) -> Option<WinCondition> {
    if solo_threshold_reached(g) {
        Some(WinCondition::SoloTr63)
    } else if enabled_maxed(g) {
        Some(WinCondition::Terraformed)
    } else {
        None
    }
}

/// Every seated player is in the passed set.
pub open spec fn all_passed(players: Seq<Player>, passed: Seq<String>) -> bool {
    forall|i: int| 0 <= i < players.len() ==> holds_text(passed, (#[trigger] players[i]).id@)
}

/// Seat `s + k` around a table of `n` seats, for `s, k < n`.
pub open spec fn seat_after(s: int, k: int, n: int) -> int {
    if s + k < n {
        s + k
    } else {
        s + k - n
    }
}

/// The first offset `k` in `[from, n)` such that seat `s + k` (wrapping) has not
/// passed; `n` when there is none.
pub open spec fn unpassed_offset(players: Seq<Player>, passed: Seq<String>, s: int, from: int) -> int
    decreases players.len() - from,
{
    if from >= players.len() {
        players.len() as int
    } else if !holds_text(passed, players[seat_after(s, from, players.len() as int)].id@) {
        from
    } else {
        unpassed_offset(players, passed, s, from + 1)
    }
}

/// The terraform rating as a non-negative amount.
pub open spec fn tr_amount(p: Player) -> int {
    if p.terraform_rating > 0 {
        p.terraform_rating as int
    } else {
        0
    }
}

/// A player's stock after production: currency production plus terraform
/// rating, every other production, then all energy turns into heat.
pub open spec fn produced(p: Player) -> Resources {
    let r = p.resources;
    let mc = p.production.megacredits as int;
    let r1 = if mc >= 0 {
        r.added(Resource::Megacredits, mc + tr_amount(p))
    } else {
        r.added(Resource::Megacredits, tr_amount(p)).subtracted(Resource::Megacredits, -mc)
    };
    let r2 = r1.added(Resource::Steel, p.production.steel as int).added(
        Resource::Titanium,
        p.production.titanium as int,
    ).added(Resource::Plants, p.production.plants as int).added(
        Resource::Energy,
        p.production.energy as int,
    ).added(Resource::Heat, p.production.heat as int);
    if r2.energy > 0 {
        r2.added(Resource::Heat, r2.energy as int).with_amount(Resource::Energy, 0)
    } else {
        r2
    }
}

/// Victory points of a player: the terraform rating, never below zero.
pub open spec fn vp_of(p: Player) -> int {
    tr_amount(p)
}

/// Player `a` ranks at least as high as player `b`: more points, then a
/// higher terraform rating.
pub open spec fn ranks_at_least(a: Player, b: Player) -> bool {
    vp_of(a) > vp_of(b) || (vp_of(a) == vp_of(b) && a.terraform_rating >= b.terraform_rating)
}

/// The stock of `p` after production.
fn produce(p: &Player) -> (r: Resources)
    ensures
        r == produced(*p),
{
    let mut res = p.resources;
    let tr: u32 = if p.terraform_rating > 0 {
        p.terraform_rating as u32
    } else {
        0
    };
    let mc = p.production.megacredits;
    if mc >= 0 {
        res.add(Resource::Megacredits, (mc as u32) + tr);
    } else {
        res.add(Resource::Megacredits, tr);
        res.subtract(Resource::Megacredits, (0 - (mc as i64)) as u32);
    }
    res.add(Resource::Steel, p.production.steel);
    res.add(Resource::Titanium, p.production.titanium);
    res.add(Resource::Plants, p.production.plants);
    res.add(Resource::Energy, p.production.energy);
    res.add(Resource::Heat, p.production.heat);
    let energy = res.get(Resource::Energy);
    if energy > 0 {
        res.add(Resource::Heat, energy);
        res.set(Resource::Energy, 0);
    }
    res
}

impl Game {
    /// Moves to the next phase by the phase table; the same as
    /// `advance_phase`.
    pub fn next_phase(&mut self) -> (r: Result<(), GameError>)
        ensures
            crate::turn::phase_after(*old(self)) is None ==> r == Err::<(), GameError>(
                if old(self).phase == Phase::End {
                    GameError::GameOver
                } else {
                    GameError::PhaseMismatch
                },
            ) && *final(self) == *old(self),
            crate::turn::phase_after(*old(self)) matches Some(p) ==> r is Ok && *final(self) == (
            Game { phase: p, generation: crate::turn::generation_after(*old(self)), ..*old(self) }),
    {
        self.advance_phase()
    }

    /// Hands the turn to the next seat (wrapping), whose turn starts with a
    /// fresh action budget. Without an active seated player, the seat after
    /// the first becomes active.
    pub fn next_player(&mut self)
        ensures
            old(self).players@.len() == 0 ==> *final(self) == *old(self),
            old(self).players@.len() > 0 ==> {
                let n = old(self).players@.len() as int;
                let cur = match old(self).active_seat() {
                    Some(i) => i,
                    None => 0,
                };
                *final(self) == (Game {
                    active_player_id: Some(old(self).players@[(cur + 1) % n].id),
                    actions_taken: 0,
                    ..*old(self)
                })
            },
    {
        if self.players.len() == 0 {
            return ;
        }
        let current: usize = match &self.active_player_id {
            Some(id) => match self.find_player(id) {
                Some(i) => i,
                None => 0,
            },
            None => 0,
        };
        let next = (current + 1) % self.players.len();
        self.active_player_id = Some(self.players[next].id.clone());
        self.actions_taken = 0;
    }

    /// The active player passes. In the Action phase this is `pass_turn`:
    /// the next player who has not passed becomes active, and the last pass
    /// ends the Action phase with an empty passed set. In other phases the
    /// pass is only recorded in the passed set (once).
    pub fn pass_player(&mut self) -> (r: Result<(), GameError>)
        ensures
            old(self).phase == Phase::Action && old(self).active_seat() is None ==> r == Err::<
                (),
                GameError,
            >(GameError::NoActivePlayer) && *final(self) == *old(self),
            old(self).phase == Phase::Action ==> (old(self).active_seat() matches Some(s) ==> r is Ok
                && crate::turn::pass_applied(*old(self), s, *final(self))),
            old(self).phase != Phase::Action && old(self).active_player_id is None ==> r == Err::<
                (),
                GameError,
            >(GameError::NoActivePlayer) && *final(self) == *old(self),
            old(self).phase != Phase::Action ==> (old(self).active_player_id matches Some(id) ==> r is Ok && *final(self) == (Game {
                passed_players: final(self).passed_players,
                ..*old(self)
            }) && final(self).passed_players@ == if holds_text(old(self).passed_players@, id@) {
                old(self).passed_players@
            } else {
                old(self).passed_players@.push(id)
            }),
    {
        if self.phase == Phase::Action {
            return self.pass_turn();
        }
        let player_id = match &self.active_player_id {
            Some(id) => id.clone(),
            None => {
                return Err(GameError::NoActivePlayer);
            },
        };
        if !contains_text(&self.passed_players, &player_id) {
            self.passed_players.push(player_id);
        }
        Ok(())
    }

    /// Whether every player has passed.
    pub fn all_players_passed(&self) -> (r: bool)
        ensures
            r == all_passed(self.players@, self.passed_players@),
    {
        let mut i: usize = 0;
        while i < self.players.len()
            invariant
                i <= self.players.len(),
                forall|j: int|
                    0 <= j < i ==> holds_text(
                        self.passed_players@,
                        (#[trigger] self.players@[j]).id@,
                    ),
            decreases self.players.len() - i,
        {
            if !contains_text(&self.passed_players, &self.players[i].id) {
                return false;
            }
            i = i + 1;
        }
        true
    }

    /// Empties the passed set.
    pub fn reset_passed_players(&mut self)
        ensures
            *final(self) == (Game { passed_players: final(self).passed_players, ..*old(self) }),
            final(self).passed_players@.len() == 0,
    {
        self.passed_players.clear();
    }

    /// Starts the next generation (the counter saturates at `u32::MAX`).
    pub fn increment_generation(&mut self)
        ensures
            *final(self) == (Game {
                generation: if old(self).generation < u32::MAX {
                    (old(self).generation + 1) as u32
                } else {
                    old(self).generation
                },
                ..*old(self)
            }),
    {
        if self.generation < u32::MAX {
            self.generation = self.generation + 1;
        }
    }

    /// Adds each player's production to their stock: currency production
    /// plus terraform rating, every other production, then energy becomes heat.
    pub fn execute_production_phase(&mut self)
        ensures
            *final(self) == (Game { players: final(self).players, ..*old(self) }),
            final(self).players@.len() == old(self).players@.len(),
            forall|i: int|
                0 <= i < old(self).players@.len() ==> #[trigger] final(self).players@[i] == (
                Player { resources: produced(old(self).players@[i]), ..old(self).players@[i] }),
    {
        let ghost g0 = *self;
        let mut i: usize = 0;
        while i < self.players.len()
            invariant
                i <= self.players.len(),
                *self == (Game { players: self.players, ..g0 }),
                self.players@.len() == g0.players@.len(),
                forall|j: int|
                    0 <= j < i ==> #[trigger] self.players@[j] == (Player {
                        resources: produced(g0.players@[j]),
                        ..g0.players@[j]
                    }),
                forall|j: int| i <= j < self.players@.len() ==> #[trigger] self.players@[j] == g0.players@[j],
            decreases self.players.len() - i,
        {
            let stock = produce(&self.players[i]);
            self.players[i].resources = stock;
            i = i + 1;
        }
    }

    /// The win reached, if any: in a solo game the terraform rating threshold
    /// is checked first; otherwise, every enabled global parameter at its
    /// maximum (Venus only with the Venus module).
    pub fn check_win_conditions(&self) -> (r: Option<WinCondition>)
        ensures
            r == win_of(*self),
    {
        if self.solo_mode && self.players.len() > 0 {
            if self.players[0].terraform_rating >= SOLO_WIN_TR {
                return Some(WinCondition::SoloTr63);
            }
        }
        if self.mars_terraformed() {
            let venus_maxed = if self.venus_next {
                self.global_parameters.get(GlobalParameter::Venus)
                    >= crate::global_params::MAX_VENUS as i32
            } else {
                true
            };
            if venus_maxed {
                return Some(WinCondition::Terraformed);
            }
        }
        None
    }

    /// Whether oceans, oxygen and temperature are at their maximum.
    pub fn mars_terraformed(&self) -> (r: bool)
        ensures
            r == mars_maxed(self.global_parameters@),
    {
        self.global_parameters.get(GlobalParameter::Oceans) >= crate::global_params::MAX_OCEANS as i32
            && self.global_parameters.get(GlobalParameter::Oxygen)
            >= crate::global_params::MAX_OXYGEN as i32 && self.global_parameters.get(
            GlobalParameter::Temperature,
        ) >= crate::global_params::MAX_TEMPERATURE
    }

    /// Each player's id with their victory points, in seat order.
    pub fn calculate_victory_points(&self) -> (r: Vec<(PlayerId, u32)>)
        ensures
            r@.len() == self.players@.len(),
            forall|i: int|
                0 <= i < r@.len() ==> (#[trigger] r@[i]).0 == self.players@[i].id && r@[i].1
                    == vp_of(self.players@[i]),
    {
        let mut out: Vec<(PlayerId, u32)> = Vec::new();
        let mut i: usize = 0;
        while i < self.players.len()
            invariant
                i <= self.players.len(),
                out@.len() == i,
                forall|j: int|
                    0 <= j < i ==> (#[trigger] out@[j]).0 == self.players@[j].id && out@[j].1
                        == vp_of(self.players@[j]),
            decreases self.players.len() - i,
        {
            let tr = self.players[i].terraform_rating;
            let vp: u32 = if tr > 0 {
                tr as u32
            } else {
                0
            };
            out.push((self.players[i].id.clone(), vp));
            i = i + 1;
        }
        out
    }

    /// The id of the winner: the most victory points, then the highest
    /// terraform rating; among players equal on both, the last seat.
    pub fn determine_winner(&self) -> (r: Option<PlayerId>)
        ensures
            self.players@.len() == 0 ==> r is None,
            self.players@.len() > 0 ==> exists|w: int|
                0 <= w < self.players@.len() && r == Some(self.players@[w].id) && (forall|j: int|
                    0 <= j < self.players@.len() ==> ranks_at_least(
                        self.players@[w],
                        #[trigger] self.players@[j],
                    )) && (forall|j: int|
                    w < j < self.players@.len() ==> !ranks_at_least(
                        #[trigger] self.players@[j],
                        self.players@[w],
                    )),
    {
        if self.players.len() == 0 {
            return None;
        }
        let mut best: usize = 0;
        let mut i: usize = 1;
        while i < self.players.len()
            invariant
                1 <= i <= self.players.len(),
                best < i,
                forall|j: int|
                    0 <= j < i ==> ranks_at_least(
                        self.players@[best as int],
                        #[trigger] self.players@[j],
                    ),
                forall|j: int|
                    best < j < i ==> !ranks_at_least(
                        #[trigger] self.players@[j],
                        self.players@[best as int],
                    ),
            decreases self.players.len() - i,
        {
            let vi: i32 = if self.players[i].terraform_rating > 0 {
                self.players[i].terraform_rating
            } else {
                0
            };
            let vb: i32 = if self.players[best].terraform_rating > 0 {
                self.players[best].terraform_rating
            } else {
                0
            };
            if vi > vb || (vi == vb && self.players[i].terraform_rating
                >= self.players[best].terraform_rating) {
                best = i;
            }
            i = i + 1;
        }
        Some(self.players[best].id.clone())
    }
}

/// Maxing every enabled global parameter wins the game, as a terraformed
/// win unless the solo threshold is also reached; in a solo game, reaching
/// the terraform rating threshold wins whatever the parameters.
pub proof fn lemma_win_conditions(g: Game)
    ensures
        enabled_maxed(g) ==> win_of(g) is Some,
        enabled_maxed(g) && !solo_threshold_reached(g) ==> win_of(g) == Some(
            WinCondition::Terraformed,
        ),
        solo_threshold_reached(g) ==> win_of(g) == Some(WinCondition::SoloTr63),
        !enabled_maxed(g) && !solo_threshold_reached(g) ==> win_of(g) is None,
{
}

} // verus!
