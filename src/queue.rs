use vstd::prelude::*;
use crate::deferred::{DeferredAction, DeferredActionResult};
use crate::error::GameError;
use crate::game::Game;
use crate::priority::{Priority, rank};

verus! {

/// A queued effect and its insertion sequence number.
#[derive(Debug, Clone)]
pub struct QueueEntry {
    pub action: DeferredAction,
    pub insertion_order: u64,
}

pub open spec fn entry_rank(e: QueueEntry) -> u32 {
    rank(e.action.rank_of())
}

/// Entries in resolution order: by rank, then by insertion.
pub open spec fn sorted(s: Seq<QueueEntry>) -> bool {
    forall|i: int, j: int|
        0 <= i < j < s.len() ==> entry_rank(#[trigger] s[i]) < entry_rank(#[trigger] s[j]) || (
        entry_rank(s[i]) == entry_rank(s[j]) && s[i].insertion_order <= s[j].insertion_order)
}

/// Where an entry of rank `r` goes: after every entry of rank `r` or lower.
pub open spec fn insert_pos(s: Seq<QueueEntry>, r: u32) -> int
    decreases s.len(),
{
    if s.len() == 0 {
        0
    } else if entry_rank(s.last()) <= r {
        s.len() as int
    } else {
        insert_pos(s.drop_last(), r)
    }
}

/// The queue after adding `e`.
pub open spec fn pushed(s: Seq<QueueEntry>, e: QueueEntry) -> Seq<QueueEntry> {
    s.insert(insert_pos(s, entry_rank(e)), e)
}

/// In a sorted queue, `insert_pos` splits the entries at rank `r`.
pub proof fn lemma_insert_pos(s: Seq<QueueEntry>, r: u32)
    requires
        sorted(s),
    ensures
        0 <= insert_pos(s, r) <= s.len(),
        forall|i: int| 0 <= i < insert_pos(s, r) ==> entry_rank(#[trigger] s[i]) <= r,
        forall|i: int| insert_pos(s, r) <= i < s.len() ==> entry_rank(#[trigger] s[i]) > r,
    decreases s.len(),
{
    if s.len() > 0 {
        let d = s.drop_last();
        assert forall|i: int, j: int|
            0 <= i < j < d.len() implies entry_rank(#[trigger] d[i]) < entry_rank(#[trigger] d[j])
            || (entry_rank(d[i]) == entry_rank(d[j]) && d[i].insertion_order
            <= d[j].insertion_order) by {
            assert(d[i] == s[i] && d[j] == s[j]);
        }
        lemma_insert_pos(d, r);
        if entry_rank(s.last()) <= r {
            assert forall|i: int| 0 <= i < s.len() implies entry_rank(#[trigger] s[i]) <= r by {
                if i < s.len() - 1 {
                    assert(entry_rank(s[i]) <= entry_rank(s[s.len() - 1]));
                }
            }
        } else {
            assert forall|i: int| 0 <= i < insert_pos(s, r) implies entry_rank(#[trigger] s[i])
                <= r by {
                assert(d[i] == s[i]);
            }
            assert forall|i: int| insert_pos(s, r) <= i < s.len() implies entry_rank(
                #[trigger] s[i],
            ) > r by {
                if i < s.len() - 1 {
                    assert(d[i] == s[i]);
                }
            }
        }
    }
}

/// The effects of `es` ran once each, in order, turning `g0` into `g1`; none
/// of them asked for input on the state it ran in.
pub open spec fn ran_in_order(es: Seq<QueueEntry>, g0: Game, g1: Game) -> bool
    decreases es.len(),
{
    if es.len() == 0 {
        g1 == g0
    } else {
        exists|gm: Game|
            #[trigger] es[0].action.applied(g0, gm) && es[0].action.outcome(g0) != Ok::<
                DeferredActionResult,
                GameError,
            >(DeferredActionResult::NeedsInput) && ran_in_order(es.drop_first(), gm, g1)
    }
}

/// Running one more effect extends a run.
pub proof fn lemma_ran_push(es: Seq<QueueEntry>, e: QueueEntry, g0: Game, g1: Game, g2: Game)
    requires
        ran_in_order(es, g0, g1),
        e.action.applied(g1, g2),
        e.action.outcome(g1) != Ok::<DeferredActionResult, GameError>(
            DeferredActionResult::NeedsInput,
        ),
    ensures
        ran_in_order(es.push(e), g0, g2),
    decreases es.len(),
{
    if es.len() == 0 {
        assert(es.push(e).drop_first() =~= Seq::<QueueEntry>::empty());
        assert(es.push(e)[0] == e);
        assert(ran_in_order(es.push(e).drop_first(), g2, g2));
        assert(es.push(e)[0].action.applied(g0, g2));
    } else {
        let gm = choose|gm: Game|
            #[trigger] es[0].action.applied(g0, gm) && es[0].action.outcome(g0) != Ok::<
                DeferredActionResult,
                GameError,
            >(DeferredActionResult::NeedsInput) && ran_in_order(es.drop_first(), gm, g1);
        lemma_ran_push(es.drop_first(), e, gm, g1, g2);
        assert(es.push(e).drop_first() =~= es.drop_first().push(e));
        assert(es.push(e)[0] == es[0]);
        assert(es.push(e)[0].action.applied(g0, gm));
    }
}

/// Priority queue of deferred effects. Lower ranks resolve first; equal
/// ranks resolve in insertion order.
#[derive(Debug)]
pub struct DeferredActionQueue {
    queue: Vec<QueueEntry>,
    insertion_counter: u64,
}

impl DeferredActionQueue {
    /// The queued entries, in resolution order.
    pub closed spec fn entries(self) -> Seq<QueueEntry> {
        self.queue@
    }

    /// The sequence number that the next entry gets.
    pub closed spec fn counter(self) -> u64 {
        self.insertion_counter
    }

    #[verifier::type_invariant]
    closed spec fn inv(&self) -> bool {
        &&& sorted(self.queue@)
        &&& forall|i: int|
            0 <= i < self.queue@.len() ==> (#[trigger] self.queue@[i]).insertion_order
                <= self.insertion_counter
    }

    /// An empty queue.
    pub fn new() -> (r: Self)
        ensures
            r.entries().len() == 0,
            r.counter() == 0,
    {
        DeferredActionQueue { queue: Vec::new(), insertion_counter: 0 }
    }

    /// Adds an effect after every queued effect of the same or a lower rank.
    pub fn push(&mut self, action: DeferredAction)
        ensures
            final(self).entries() == pushed(
                old(self).entries(),
                QueueEntry { action, insertion_order: old(self).counter() },
            ),
            final(self).counter() == if old(self).counter() < u64::MAX {
                (old(self).counter() + 1) as u64
            } else {
                old(self).counter()
            },
            sorted(final(self).entries()),
    {
        proof {
            use_type_invariant(&*self);
        }
        let order = self.insertion_counter;
        let r = action.priority().value();
        let entry = QueueEntry { action, insertion_order: order };
        let mut items: Vec<QueueEntry> = Vec::new();
        core::mem::swap(&mut items, &mut self.queue);
        proof {
            lemma_insert_pos(items@, r);
        }
        let mut pos: usize = items.len();
        while pos > 0 && items[pos - 1].action.priority().value() > r
            invariant
                pos <= items.len(),
                insert_pos(items@, r) <= pos,
                forall|i: int| pos <= i < items.len() ==> entry_rank(#[trigger] items@[i]) > r,
                0 <= insert_pos(items@, r) <= items.len(),
                forall|i: int| 0 <= i < insert_pos(items@, r) ==> entry_rank(#[trigger] items@[i]) <= r,
            decreases pos,
        {
            pos = pos - 1;
        }
        proof {
            if pos > insert_pos(items@, r) {
                assert(entry_rank(items@[pos - 1]) <= r);
            }
            assert(pos == insert_pos(items@, r));
            let s = items@.insert(pos as int, entry);
            assert forall|i: int, j: int|
                0 <= i < j < s.len() implies entry_rank(#[trigger] s[i]) < entry_rank(
                #[trigger] s[j],
            ) || (entry_rank(s[i]) == entry_rank(s[j]) && s[i].insertion_order
                <= s[j].insertion_order) by {
                if i < pos && j < pos {
                    assert(s[i] == items@[i] && s[j] == items@[j]);
                } else if i < pos && j == pos {
                    assert(s[i] == items@[i]);
                } else if i < pos {
                    assert(s[i] == items@[i] && s[j] == items@[j - 1]);
                } else if i == pos {
                    assert(s[j] == items@[j - 1]);
                } else {
                    assert(s[i] == items@[i - 1] && s[j] == items@[j - 1]);
                }
            }
        }
        items.insert(pos, entry);
        core::mem::swap(&mut items, &mut self.queue);
        if self.insertion_counter < u64::MAX {
            self.insertion_counter = self.insertion_counter + 1;
        }
    }

    /// Whether nothing is queued.
    pub fn is_empty(&self) -> (r: bool)
        ensures
            r == (self.entries().len() == 0),
    {
        self.queue.len() == 0
    }

    /// The number of queued effects.
    pub fn len(&self) -> (r: usize)
        ensures
            r == self.entries().len(),
    {
        self.queue.len()
    }

    /// The priority of the effect that resolves next.
    pub fn next_priority(&self) -> (r: Option<Priority>)
        ensures
            self.entries().len() == 0 ==> r is None,
            self.entries().len() > 0 ==> r == Some(self.entries()[0].action.rank_of()),
    {
        if self.queue.len() == 0 {
            None
        } else {
            Some(self.queue[0].action.priority())
        }
    }

    /// Runs the front effect once. An effect that needs input stays at the
    /// front; any other outcome (errors included) drops it. `None` when the
    /// queue is empty.
    pub fn execute_next(&mut self, game: &mut Game) -> (r: Option<
        Result<DeferredActionResult, GameError>,
    >)
        ensures
            old(self).entries().len() == 0 ==> r is None && *final(game) == *old(game)
                && final(self).entries() == old(self).entries(),
            old(self).entries().len() > 0 ==> {
                let a = old(self).entries()[0].action;
                &&& r == Some(a.outcome(*old(game)))
                &&& a.applied(*old(game), *final(game))
                &&& final(self).entries() == if a.outcome(*old(game)) == Ok::<
                    DeferredActionResult,
                    GameError,
                >(DeferredActionResult::NeedsInput) {
                    old(self).entries()
                } else {
                    old(self).entries().drop_first()
                }
            },
            final(self).counter() == old(self).counter(),
            sorted(final(self).entries()),
    {
        proof {
            use_type_invariant(&*self);
        }
        if self.queue.len() == 0 {
            return None;
        }
        let result = self.queue[0].action.execute(game);
        match result {
            Ok(DeferredActionResult::NeedsInput) => {},
            _ => {
                let mut items: Vec<QueueEntry> = Vec::new();
                core::mem::swap(&mut items, &mut self.queue);
                proof {
                    let s = items@.remove(0);
                    assert forall|i: int, j: int|
                        0 <= i < j < s.len() implies entry_rank(#[trigger] s[i]) < entry_rank(
                        #[trigger] s[j],
                    ) || (entry_rank(s[i]) == entry_rank(s[j]) && s[i].insertion_order
                        <= s[j].insertion_order) by {
                        assert(s[i] == items@[i + 1] && s[j] == items@[j + 1]);
                    }
                    assert(s == items@.drop_first());
                }
                items.remove(0);
                core::mem::swap(&mut items, &mut self.queue);
            },
        }
        proof {
            use_type_invariant(&*self);
        }
        Some(result)
    }

    /// Runs effects from the front until the queue is empty or an effect
    /// needs input. Returns the number of effects that left the queue; they
    /// are the first ones, and each ran once, in queue order, without asking
    /// for input. When it stops early, the front effect needs input in the
    /// final session state and keeps its place.
    pub fn execute_all(&mut self, game: &mut Game) -> (r: usize)
        ensures
            r <= old(self).entries().len(),
            ran_in_order(old(self).entries().take(r as int), *old(game), *final(game)),
            final(self).entries() == old(self).entries().skip(r as int),
            final(self).entries().len() > 0 ==> final(self).entries()[0].action.outcome(
                *final(game),
            ) == Ok::<DeferredActionResult, GameError>(DeferredActionResult::NeedsInput),
            final(self).counter() == old(self).counter(),
            *final(game) == (Game { players: final(game).players, ..*old(game) }),
    {
        let mut executed: usize = 0;
        let ghost start = self.entries();
        let total = self.len();
        proof {
            assert(start.take(0) =~= Seq::<QueueEntry>::empty());
        }
        while self.queue.len() > 0
            invariant
                start == old(self).entries(),
                start.len() == total,
                *game == (Game { players: game.players, ..*old(game) }),
                executed <= start.len(),
                self.entries() == start.skip(executed as int),
                self.counter() == old(self).counter(),
                ran_in_order(start.take(executed as int), *old(game), *game),
            decreases self.entries().len(),
        {
            proof {
                use_type_invariant(&*self);
            }
            assert(executed < start.len());
            let ghost g_before = *game;
            let ghost front = self.entries()[0].action;
            match self.execute_next(game) {
                Some(Ok(DeferredActionResult::NeedsInput)) => {
                    proof {
                        assert(*game == g_before);
                    }
                    return executed;
                },
                Some(_) => {
                    proof {
                        assert(start.skip(executed as int).drop_first() == start.skip(
                            executed as int + 1,
                        ));
                        assert(front == start[executed as int].action);
                        lemma_ran_push(
                            start.take(executed as int),
                            start[executed as int],
                            *old(game),
                            g_before,
                            *game,
                        );
                        assert(start.take(executed as int).push(start[executed as int])
                            =~= start.take(executed as int + 1));
                    }
                    executed = executed + 1;
                },
                None => {
                    return executed;
                },
            }
        }
        proof {
            assert(start.take(executed as int) =~= start);
        }
        executed
    }
}

impl Default for DeferredActionQueue {
    fn default() -> (r: Self)
        ensures
            r.entries().len() == 0,
    {
        DeferredActionQueue::new()
    }
}

/// Draining resolves effects in queue order, and the queue is kept in rank
/// order: an effect resolves before every effect of a higher rank, and
/// before every later-inserted effect of its own rank.
pub proof fn lemma_resolution_order(q: DeferredActionQueue, i: int, j: int)
    requires
        sorted(q.entries()),
        0 <= i < j < q.entries().len(),
    ensures
        entry_rank(q.entries()[i]) <= entry_rank(q.entries()[j]),
        entry_rank(q.entries()[i]) == entry_rank(q.entries()[j]) ==> q.entries()[i].insertion_order
            <= q.entries()[j].insertion_order,
{
}

/// Effects enqueued with low, default and high priority, in that order,
/// resolve high first, then default, then low.
pub proof fn lemma_priority_beats_submission_order(
    low: DeferredAction,
    default: DeferredAction,
    high: DeferredAction,
    n: u64,
)
    requires
        low.rank_of() == Priority::BackOfTheLine,
        default.rank_of() == Priority::Default,
        high.rank_of() == Priority::Cost,
        n <= u64::MAX - 2,
    ensures
        ({
            let e0 = QueueEntry { action: low, insertion_order: n };
            let e1 = QueueEntry { action: default, insertion_order: (n + 1) as u64 };
            let e2 = QueueEntry { action: high, insertion_order: (n + 2) as u64 };
            pushed(pushed(pushed(Seq::empty(), e0), e1), e2) == seq![e2, e1, e0]
        }),
{
    let e0 = QueueEntry { action: low, insertion_order: n };
    let e1 = QueueEntry { action: default, insertion_order: (n + 1) as u64 };
    let e2 = QueueEntry { action: high, insertion_order: (n + 2) as u64 };
    let s1 = pushed(Seq::empty(), e0);
    assert(s1 == seq![e0]);
    let s2 = pushed(s1, e1);
    assert(entry_rank(e0) == 100);
    assert(entry_rank(e1) == 50);
    assert(entry_rank(e2) == 0);
    assert(s1.last() == e0);
    assert(s1.drop_last() =~= Seq::<QueueEntry>::empty());
    assert(insert_pos(s1.drop_last(), 50) == 0);
    assert(insert_pos(s1, entry_rank(e1)) == 0);
    assert(s2 =~= seq![e1, e0]);
    assert(s2.last() == e0);
    assert(s2.drop_last() =~= seq![e1]);
    assert(s2.drop_last().last() == e1);
    assert(s2.drop_last().drop_last() =~= Seq::<QueueEntry>::empty());
    assert(insert_pos(s2.drop_last().drop_last(), 0) == 0);
    assert(insert_pos(s2.drop_last(), 0) == 0);
    assert(insert_pos(s2, entry_rank(e2)) == 0);
    assert(pushed(s2, e2) =~= seq![e2, e1, e0]);
}

} // verus!
