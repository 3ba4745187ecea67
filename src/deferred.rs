use vstd::prelude::*;
use crate::error::GameError;
use crate::game::Game;
use crate::ids::{decimal, push_decimal};
use crate::player::{Player, PlayerId};
use crate::priority::Priority;
use crate::resources::Resource;

verus! {

/// Outcome of running a deferred effect once.
#[derive(Debug, Clone, Copy, PartialEq, Eq, Structural)]
pub enum DeferredActionResult {
    /// The effect is done.
    Completed,
    /// The effect waits for a decision of its player and stays queued.
    NeedsInput,
    /// The effect is dropped (skipped or cancelled).
    Remove,
}

/// Asks a player to pay `amount`; paid from currency when it covers the amount.
#[derive(Debug, Clone)]
pub struct SelectPaymentDeferred {
    pub player_id: PlayerId,
    pub amount: u32,
}

/// Gives a player `amount` of a resource.
#[derive(Debug, Clone)]
pub struct GainResourcesDeferred {
    pub player_id: PlayerId,
    pub resource: Resource,
    pub amount: u32,
}

/// Asks a player to place a tile.
#[derive(Debug, Clone)]
pub struct PlaceTileDeferred {
    pub player_id: PlayerId,
    pub tile_type: String,
}

/// Draws `count` cards into a player's hand.
#[derive(Debug, Clone)]
pub struct DrawCardsDeferred {
    pub player_id: PlayerId,
    pub count: u32,
}

/// An effect with a fixed priority and a fixed outcome, changing nothing.
#[derive(Debug, Clone)]
pub struct SimpleDeferredAction {
    pub player_id: PlayerId,
    pub priority: Priority,
    pub outcome: DeferredActionResult,
}

/// A deferred effect: one variant per kind, each with its own data.
#[derive(Debug, Clone)]
pub enum DeferredAction {
    SelectPayment(SelectPaymentDeferred),
    GainResources(GainResourcesDeferred),
    PlaceTile(PlaceTileDeferred),
    DrawCards(DrawCardsDeferred),
    Simple(SimpleDeferredAction),
}

/// The text of the `k`-th card drawn by one draw effect.
pub open spec fn drawn_card_id(k: nat) -> Seq<char> {
    seq!['d', 'r', 'a', 'w', 'n', '_', 'c', 'a', 'r', 'd', '_'] + decimal(k)
}

/// `g1` is `g0` with the player in seat `i` replaced by `p`.
pub open spec fn replaces_player(g0: Game, g1: Game, i: int, p: Player) -> bool {
    &&& 0 <= i < g0.players@.len()
    &&& g1 == (Game { players: g1.players, ..g0 })
    &&& g1.players@ == g0.players@.update(i, p)
}

impl DeferredAction {
    pub open spec fn rank_of(self) -> Priority {
        match self {
            DeferredAction::SelectPayment(_) => Priority::Cost,
            DeferredAction::GainResources(_) => Priority::GainResourceOrProduction,
            DeferredAction::PlaceTile(_) => Priority::Default,
            DeferredAction::DrawCards(_) => Priority::DrawCards,
            DeferredAction::Simple(s) => s.priority,
        }
    }

    pub open spec fn owner(self) -> PlayerId {
        match self {
            DeferredAction::SelectPayment(a) => a.player_id,
            DeferredAction::GainResources(a) => a.player_id,
            DeferredAction::PlaceTile(a) => a.player_id,
            DeferredAction::DrawCards(a) => a.player_id,
            DeferredAction::Simple(a) => a.player_id,
        }
    }

    /// What running the effect once on `g` returns.
    pub open spec fn outcome(self, g: Game) -> Result<DeferredActionResult, GameError> {
        match self {
            DeferredAction::SelectPayment(a) => match g.seat_of(a.player_id@) {
                None => Err(GameError::NotFound),
                Some(i) => if a.amount == 0 {
                    Ok(DeferredActionResult::Completed)
                } else if g.players@[i].resources.megacredits >= a.amount {
                    Ok(DeferredActionResult::Completed)
                } else {
                    Ok(DeferredActionResult::NeedsInput)
                },
            },
            DeferredAction::GainResources(a) => match g.seat_of(a.player_id@) {
                None => Err(GameError::NotFound),
                Some(i) => Ok(DeferredActionResult::Completed),
            },
            DeferredAction::PlaceTile(_) => Ok(DeferredActionResult::NeedsInput),
            DeferredAction::DrawCards(a) => match g.seat_of(a.player_id@) {
                None => Err(GameError::NotFound),
                Some(i) => Ok(DeferredActionResult::Completed),
            },
            DeferredAction::Simple(a) => Ok(a.outcome),
        }
    }

    /// How running the effect once turns `g0` into `g1`.
    pub open spec fn applied(self, g0: Game, g1: Game) -> bool {
        match self {
            DeferredAction::SelectPayment(a) => match g0.seat_of(a.player_id@) {
                Some(i) => if a.amount > 0 && g0.players@[i].resources.megacredits >= a.amount {
                    replaces_player(
                        g0,
                        g1,
                        i,
                        Player {
                            resources: g0.players@[i].resources.subtracted(
                                Resource::Megacredits,
                                a.amount as int,
                            ),
                            ..g0.players@[i]
                        },
                    )
                } else {
                    g1 == g0
                },
                None => g1 == g0,
            },
            DeferredAction::GainResources(a) => match g0.seat_of(a.player_id@) {
                Some(i) => replaces_player(
                    g0,
                    g1,
                    i,
                    Player {
                        resources: g0.players@[i].resources.added(a.resource, a.amount as int),
                        ..g0.players@[i]
                    },
                ),
                None => g1 == g0,
            },
            DeferredAction::PlaceTile(_) => g1 == g0,
            DeferredAction::DrawCards(a) => match g0.seat_of(a.player_id@) {
                Some(i) => {
                    let p = g0.players@[i];
                    let q = g1.players@[i];
                    &&& replaces_player(g0, g1, i, q)
                    &&& q == (Player { cards_in_hand: q.cards_in_hand, ..p })
                    &&& q.cards_in_hand@.len() == p.cards_in_hand@.len() + a.count
                    &&& q.cards_in_hand@.take(p.cards_in_hand@.len() as int)
                        == p.cards_in_hand@
                    &&& forall|k: int|
                        0 <= k < a.count ==> (#[trigger] q.cards_in_hand@[p.cards_in_hand@.len()
                            + k])@ == drawn_card_id(k as nat)
                },
                None => g1 == g0,
            },
            DeferredAction::Simple(_) => g1 == g0,
        }
    }

    /// The effect's priority.
    pub fn priority(&self) -> (r: Priority)
        ensures
            r == self.rank_of(),
    {
        match self {
            DeferredAction::SelectPayment(_) => Priority::Cost,
            DeferredAction::GainResources(_) => Priority::GainResourceOrProduction,
            DeferredAction::PlaceTile(_) => Priority::Default,
            DeferredAction::DrawCards(_) => Priority::DrawCards,
            DeferredAction::Simple(s) => s.priority,
        }
    }

    /// The player the effect belongs to.
    pub fn player_id(&self) -> (r: &PlayerId)
        ensures
            *r == self.owner(),
    {
        match self {
            DeferredAction::SelectPayment(a) => &a.player_id,
            DeferredAction::GainResources(a) => &a.player_id,
            DeferredAction::PlaceTile(a) => &a.player_id,
            DeferredAction::DrawCards(a) => &a.player_id,
            DeferredAction::Simple(a) => &a.player_id,
        }
    }

    /// Runs the effect once against the session.
    pub fn execute(&self, game: &mut Game) -> (r: Result<DeferredActionResult, GameError>)
        ensures
            r == self.outcome(*old(game)),
            self.applied(*old(game), *final(game)),
    {
        match self {
            DeferredAction::SelectPayment(a) => a.execute(game),
            DeferredAction::GainResources(a) => a.execute(game),
            DeferredAction::PlaceTile(a) => a.execute(game),
            DeferredAction::DrawCards(a) => a.execute(game),
            DeferredAction::Simple(a) => a.execute(game),
        }
    }
}

impl SelectPaymentDeferred {
    pub fn new(player_id: PlayerId, amount: u32) -> (r: Self)
        ensures
            r.player_id == player_id,
            r.amount == amount,
    {
        SelectPaymentDeferred { player_id, amount }
    }

    pub fn priority(&self) -> (r: Priority)
        ensures
            r == Priority::Cost,
    {
        Priority::Cost
    }

    pub fn player_id(&self) -> (r: &PlayerId)
        ensures
            *r == self.player_id,
    {
        &self.player_id
    }

    /// Pays from the player's currency when it covers the amount; otherwise
    /// waits for the player to choose how to pay.
    pub fn execute(&self, game: &mut Game) -> (r: Result<DeferredActionResult, GameError>)
        ensures
            r == DeferredAction::SelectPayment(*self).outcome(*old(game)),
            DeferredAction::SelectPayment(*self).applied(*old(game), *final(game)),
    {
        let i = match game.find_player(&self.player_id) {
            Some(i) => i,
            None => {
                return Err(GameError::NotFound);
            },
        };
        if self.amount == 0 {
            return Ok(DeferredActionResult::Completed);
        }
        if game.players[i].resources.megacredits >= self.amount {
            game.players[i].resources.subtract(Resource::Megacredits, self.amount);
            Ok(DeferredActionResult::Completed)
        } else {
            Ok(DeferredActionResult::NeedsInput)
        }
    }
}

impl GainResourcesDeferred {
    pub fn new(player_id: PlayerId, resource: Resource, amount: u32) -> (r: Self)
        ensures
            r.player_id == player_id,
            r.resource == resource,
            r.amount == amount,
    {
        GainResourcesDeferred { player_id, resource, amount }
    }

    pub fn priority(&self) -> (r: Priority)
        ensures
            r == Priority::GainResourceOrProduction,
    {
        Priority::GainResourceOrProduction
    }

    pub fn player_id(&self) -> (r: &PlayerId)
        ensures
            *r == self.player_id,
    {
        &self.player_id
    }

    /// Gives the resources to the player.
    pub fn execute(&self, game: &mut Game) -> (r: Result<DeferredActionResult, GameError>)
        ensures
            r == DeferredAction::GainResources(*self).outcome(*old(game)),
            DeferredAction::GainResources(*self).applied(*old(game), *final(game)),
    {
        let i = match game.find_player(&self.player_id) {
            Some(i) => i,
            None => {
                return Err(GameError::NotFound);
            },
        };
        game.players[i].resources.add(self.resource, self.amount);
        Ok(DeferredActionResult::Completed)
    }
}

impl PlaceTileDeferred {
    pub fn new(player_id: PlayerId, tile_type: String) -> (r: Self)
        ensures
            r.player_id == player_id,
            r.tile_type == tile_type,
    {
        PlaceTileDeferred { player_id, tile_type }
    }

    pub fn priority(&self) -> (r: Priority)
        ensures
            r == Priority::Default,
    {
        Priority::Default
    }

    pub fn player_id(&self) -> (r: &PlayerId)
        ensures
            *r == self.player_id,
    {
        &self.player_id
    }

    /// Waits for the player to choose a space.
    pub fn execute(&self, game: &mut Game) -> (r: Result<DeferredActionResult, GameError>)
        ensures
            r == DeferredAction::PlaceTile(*self).outcome(*old(game)),
            DeferredAction::PlaceTile(*self).applied(*old(game), *final(game)),
    {
        Ok(DeferredActionResult::NeedsInput)
    }
}

impl DrawCardsDeferred {
    pub fn new(player_id: PlayerId, count: u32) -> (r: Self)
        ensures
            r.player_id == player_id,
            r.count == count,
    {
        DrawCardsDeferred { player_id, count }
    }

    pub fn priority(&self) -> (r: Priority)
        ensures
            r == Priority::DrawCards,
    {
        Priority::DrawCards
    }

    pub fn player_id(&self) -> (r: &PlayerId)
        ensures
            *r == self.player_id,
    {
        &self.player_id
    }

    /// Adds `count` drawn cards to the player's hand.
    pub fn execute(&self, game: &mut Game) -> (r: Result<DeferredActionResult, GameError>)
        ensures
            r == DeferredAction::DrawCards(*self).outcome(*old(game)),
            DeferredAction::DrawCards(*self).applied(*old(game), *final(game)),
    {
        let i = match game.find_player(&self.player_id) {
            Some(i) => i,
            None => {
                return Err(GameError::NotFound);
            },
        };
        let ghost g0 = *game;
        let ghost start = game.players@[i as int].cards_in_hand@.len();
        proof {
            assert(g0.players@.update(i as int, g0.players@[i as int]) =~= g0.players@);
            assert(g0.players@[i as int].cards_in_hand@.take(start as int)
                =~= g0.players@[i as int].cards_in_hand@);
        }
        let mut k: u32 = 0;
        while k < self.count
            invariant
                k <= self.count,
                i < g0.players@.len(),
                start == g0.players@[i as int].cards_in_hand@.len(),
                replaces_player(g0, *game, i as int, game.players@[i as int]),
                game.players@[i as int] == (Player {
                    cards_in_hand: game.players@[i as int].cards_in_hand,
                    ..g0.players@[i as int]
                }),
                game.players@[i as int].cards_in_hand@.len() == start + k,
                game.players@[i as int].cards_in_hand@.take(start as int)
                    == g0.players@[i as int].cards_in_hand@,
                forall|j: int|
                    0 <= j < k ==> (#[trigger] game.players@[i as int].cards_in_hand@[start
                        + j])@ == drawn_card_id(j as nat),
            decreases self.count - k,
        {
            proof {
                reveal_strlit("drawn_card_");
            }
            let mut id = String::from_str("drawn_card_");
            push_decimal(&mut id, k as usize);
            game.players[i].add_card_to_hand(id);
            proof {
                assert(game.players@ =~= g0.players@.update(i as int, game.players@[i as int]));
                assert(game.players@[i as int].cards_in_hand@.take(start as int)
                    =~= g0.players@[i as int].cards_in_hand@);
            }
            k = k + 1;
        }
        Ok(DeferredActionResult::Completed)
    }
}

impl SimpleDeferredAction {
    pub fn new(player_id: PlayerId, priority: Priority, outcome: DeferredActionResult) -> (r: Self)
        ensures
            r.player_id == player_id,
            r.priority == priority,
            r.outcome == outcome,
    {
        SimpleDeferredAction { player_id, priority, outcome }
    }

    pub fn priority(&self) -> (r: Priority)
        ensures
            r == self.priority,
    {
        self.priority
    }

    pub fn player_id(&self) -> (r: &PlayerId)
        ensures
            *r == self.player_id,
    {
        &self.player_id
    }

    /// Returns the fixed outcome.
    pub fn execute(&self, game: &mut Game) -> (r: Result<DeferredActionResult, GameError>)
        ensures
            r == DeferredAction::Simple(*self).outcome(*old(game)),
            DeferredAction::Simple(*self).applied(*old(game), *final(game)),
    {
        Ok(self.outcome)
    }
}

/// What an effect does never depends on the session's own queue.
pub proof fn lemma_outcome_ignores_queue(a: DeferredAction, g: Game, h: Game)
    requires
        h == (Game { deferred: h.deferred, ..g }),
    ensures
        a.outcome(h) == a.outcome(g),
{
    assert(h.players == g.players);
}

} // verus!
