use vstd::prelude::*;
use crate::error::GameError;
use crate::space::{Space, SpaceId, SpaceType};
use crate::tile::Tile;

verus! {

/// The official boards.
#[derive(Debug, Clone, Copy, PartialEq, Eq, Hash, Structural)]
pub enum BoardType {
    Tharsis,
    Hellas,
    Elysium,
}

/// The index of the first space of `spaces` with identifier `id`.
pub open spec fn space_index(spaces: Seq<Space>, id: Seq<char>) -> Option<int>
    decreases spaces.len(),
{
    if spaces.len() == 0 {
        None
    } else if spaces.last().id@ == id && space_index(spaces.drop_last(), id) is None {
        Some(spaces.len() - 1)
    } else {
        space_index(spaces.drop_last(), id)
    }
}

proof fn lemma_space_index(spaces: Seq<Space>, id: Seq<char>)
    ensures
        match space_index(spaces, id) {
            Some(i) => 0 <= i < spaces.len() && spaces[i].id@ == id && forall|j: int|
                0 <= j < i ==> (#[trigger] spaces[j]).id@ != id,
            None => forall|j: int| 0 <= j < spaces.len() ==> (#[trigger] spaces[j]).id@ != id,
        },
    decreases spaces.len(),
{
    if spaces.len() > 0 {
        lemma_space_index(spaces.drop_last(), id);
        assert forall|j: int| 0 <= j < spaces.len() - 1 implies spaces.drop_last()[j]
            == #[trigger] spaces[j] by {}
    }
}

/// No two spaces of `s` share an identifier.
pub open spec fn ids_distinct(s: Seq<Space>) -> bool {
    forall|i: int, j: int| 0 <= i < j < s.len() ==> (#[trigger] s[i]).id@ != (#[trigger] s[j]).id@
}

/// No two spaces of `r` share an identifier.
pub open spec fn refs_distinct(r: Seq<&Space>) -> bool {
    forall|a: int, b: int| 0 <= a < b < r.len() ==> (#[trigger] r[a]).id@ != (#[trigger] r[b]).id@
}

/// The Mars board: its spaces, with distinct identifiers, and the number of
/// ocean tiles placed.
#[derive(Debug, Clone)]
pub struct Board {
    board_type: BoardType,
    spaces: Vec<Space>,
    placed_oceans: u32,
}

impl Board {
    pub closed spec fn kind(self) -> BoardType {
        self.board_type
    }

    pub closed spec fn space_seq(self) -> Seq<Space> {
        self.spaces@
    }

    pub closed spec fn oceans(self) -> nat {
        self.placed_oceans as nat
    }

    /// An empty board of the given type.
    pub fn new(board_type: BoardType) -> (r: Self)
        ensures
            r.kind() == board_type,
            r.space_seq().len() == 0,
            r.oceans() == 0,
            ids_distinct(r.space_seq()),
    {
        let mut board = Board { board_type, spaces: Vec::new(), placed_oceans: 0 };
        board.initialize_spaces();
        board
    }

    /// Lays out the spaces of the board type; the layouts hold no spaces yet.
    fn initialize_spaces(&mut self)
        ensures
            *final(self) == *old(self),
    {
        match self.board_type {
            BoardType::Tharsis => {},
            BoardType::Hellas => {},
            BoardType::Elysium => {},
        }
    }

    fn find_space(&self, space_id: &SpaceId) -> (r: Option<usize>)
        ensures
            r matches Some(i) ==> space_index(self.spaces@, space_id@) == Some(i as int)
                && i < self.spaces.len(),
            r is None ==> space_index(self.spaces@, space_id@) is None,
    {
        proof {
            lemma_space_index(self.spaces@, space_id@);
        }
        let mut i: usize = 0;
        while i < self.spaces.len()
            invariant
                i <= self.spaces.len(),
                forall|j: int| 0 <= j < i ==> (#[trigger] self.spaces@[j]).id@ != space_id@,
                match space_index(self.spaces@, space_id@) {
                    Some(k) => 0 <= k < self.spaces.len() && self.spaces@[k].id@ == space_id@
                        && forall|j: int|
                        0 <= j < k ==> (#[trigger] self.spaces@[j]).id@ != space_id@,
                    None => forall|j: int|
                        0 <= j < self.spaces.len() ==> (#[trigger] self.spaces@[j]).id@
                            != space_id@,
                },
            decreases self.spaces.len() - i,
        {
            if self.spaces[i].id == *space_id {
                return Some(i);
            }
            i = i + 1;
        }
        None
    }

    /// The space with this identifier.
    pub fn get_space(&self, space_id: &SpaceId) -> (r: Option<&Space>)
        ensures
            match space_index(self.space_seq(), space_id@) {
                Some(i) => r == Some(&self.space_seq()[i]),
                None => r is None,
            },
    {
        match self.find_space(space_id) {
            Some(i) => Some(&self.spaces[i]),
            None => None,
        }
    }

    /// The space with this identifier, for changes.
    pub fn get_space_mut(&mut self, space_id: &SpaceId) -> (r: Option<&mut Space>)
        ensures
            match space_index(old(self).space_seq(), space_id@) {
                Some(i) => (r matches Some(s) && *s == old(self).space_seq()[i]
                    && final(self).space_seq() == old(self).space_seq().update(i, *final(s))
                    && final(self).kind() == old(self).kind()
                    && final(self).oceans() == old(self).oceans() && (ids_distinct(
                    old(self).space_seq(),
                ) && final(s).id@ == s.id@ ==> ids_distinct(final(self).space_seq()))),
                None => r is None && *final(self) == *old(self),
            },
    {
        match self.find_space(space_id) {
            Some(i) => Some(&mut self.spaces[i]),
            None => None,
        }
    }

    /// All spaces.
    pub fn all_spaces(&self) -> (r: &Vec<Space>)
        ensures
            r@ == self.space_seq(),
    {
        &self.spaces
    }

    /// The spaces without a tile, in board order.
    pub fn available_spaces(&self) -> (r: Vec<&Space>)
        ensures
            r@.len() == self.space_seq().filter(|s: Space| s.tile is None).len(),
            forall|i: int|
                0 <= i < r@.len() ==> *r@[i] == self.space_seq().filter(|s: Space| s.tile is None)[i],
            ids_distinct(self.space_seq()) ==> refs_distinct(r@),
    {
        let mut out: Vec<&Space> = Vec::new();
        let mut i: usize = 0;
        while i < self.spaces.len()
            invariant
                forall|k: int|
                    0 <= k < out@.len() ==> exists|j: int|
                        0 <= j < i && *(#[trigger] out@[k]) == self.spaces@[j],
                ids_distinct(self.spaces@) ==> refs_distinct(out@),
                i <= self.spaces.len(),
                out@.len() == self.spaces@.take(i as int).filter(|s: Space| s.tile is None).len(),
                forall|k: int|
                    0 <= k < out@.len() ==> *out@[k] == self.spaces@.take(i as int).filter(
                        |s: Space| s.tile is None,
                    )[k],
            decreases self.spaces.len() - i,
        {
            proof {
                reveal(Seq::filter);
                assert(self.spaces@.take(i as int + 1).drop_last() == self.spaces@.take(i as int));
                assert(self.spaces@.take(i as int + 1).last() == self.spaces@[i as int]);
            }
            if self.spaces[i].is_available() {
                out.push(&self.spaces[i]);
            }
            i = i + 1;
        }
        proof {
            assert(self.spaces@.take(self.spaces.len() as int) == self.spaces@);
        }
        out
    }

    /// The free spaces of one type, in board order.
    pub fn available_spaces_of_type(&self, space_type: SpaceType) -> (r: Vec<&Space>)
        ensures
            r@.len() == self.space_seq().filter(
                |s: Space| s.tile is None && s.space_type == space_type,
            ).len(),
            forall|i: int|
                0 <= i < r@.len() ==> *r@[i] == self.space_seq().filter(
                    |s: Space| s.tile is None && s.space_type == space_type,
                )[i],
            ids_distinct(self.space_seq()) ==> refs_distinct(r@),
    {
        let mut out: Vec<&Space> = Vec::new();
        let mut i: usize = 0;
        while i < self.spaces.len()
            invariant
                forall|k: int|
                    0 <= k < out@.len() ==> exists|j: int|
                        0 <= j < i && *(#[trigger] out@[k]) == self.spaces@[j],
                ids_distinct(self.spaces@) ==> refs_distinct(out@),
                i <= self.spaces.len(),
                out@.len() == self.spaces@.take(i as int).filter(
                    |s: Space| s.tile is None && s.space_type == space_type,
                ).len(),
                forall|k: int|
                    0 <= k < out@.len() ==> *out@[k] == self.spaces@.take(i as int).filter(
                        |s: Space| s.tile is None && s.space_type == space_type,
                    )[k],
            decreases self.spaces.len() - i,
        {
            proof {
                reveal(Seq::filter);
                assert(self.spaces@.take(i as int + 1).drop_last() == self.spaces@.take(i as int));
                assert(self.spaces@.take(i as int + 1).last() == self.spaces@[i as int]);
            }
            if self.spaces[i].is_available() && self.spaces[i].space_type == space_type {
                out.push(&self.spaces[i]);
            }
            i = i + 1;
        }
        proof {
            assert(self.spaces@.take(self.spaces.len() as int) == self.spaces@);
        }
        out
    }

    /// The spaces that take a tile now, in board order.
    pub fn spaces_for_tile(&self, tile: &Tile) -> (r: Vec<&Space>)
        ensures
            r@.len() == self.space_seq().filter(|s: Space| s.accepts(*tile)).len(),
            forall|i: int|
                0 <= i < r@.len() ==> *r@[i] == self.space_seq().filter(
                    |s: Space| s.accepts(*tile),
                )[i],
            ids_distinct(self.space_seq()) ==> refs_distinct(r@),
    {
        let mut out: Vec<&Space> = Vec::new();
        let mut i: usize = 0;
        while i < self.spaces.len()
            invariant
                forall|k: int|
                    0 <= k < out@.len() ==> exists|j: int|
                        0 <= j < i && *(#[trigger] out@[k]) == self.spaces@[j],
                ids_distinct(self.spaces@) ==> refs_distinct(out@),
                i <= self.spaces.len(),
                out@.len() == self.spaces@.take(i as int).filter(|s: Space| s.accepts(*tile)).len(),
                forall|k: int|
                    0 <= k < out@.len() ==> *out@[k] == self.spaces@.take(i as int).filter(
                        |s: Space| s.accepts(*tile),
                    )[k],
            decreases self.spaces.len() - i,
        {
            proof {
                reveal(Seq::filter);
                assert(self.spaces@.take(i as int + 1).drop_last() == self.spaces@.take(i as int));
                assert(self.spaces@.take(i as int + 1).last() == self.spaces@[i as int]);
            }
            if self.spaces[i].can_accept_tile(tile) {
                out.push(&self.spaces[i]);
            }
            i = i + 1;
        }
        proof {
            assert(self.spaces@.take(self.spaces.len() as int) == self.spaces@);
        }
        out
    }

    /// Places a tile on the space with this identifier; an ocean tile also
    /// counts towards the placed oceans (saturating).
    pub fn place_tile(&mut self, space_id: &SpaceId, tile: Tile, player_id: String) -> (r: Result<
        (),
        GameError,
    >)
        ensures
            final(self).kind() == old(self).kind(),
            ids_distinct(old(self).space_seq()) ==> ids_distinct(final(self).space_seq()),
            match space_index(old(self).space_seq(), space_id@) {
                None => r == Err::<(), GameError>(GameError::NotFound) && *final(self) == *old(self),
                Some(i) => if old(self).space_seq()[i].accepts(tile) {
                    &&& r is Ok
                    &&& final(self).space_seq() == old(self).space_seq().update(
                        i,
                        Space {
                            tile: Some(tile),
                            player_id: Some(player_id),
                            ..old(self).space_seq()[i]
                        },
                    )
                    &&& final(self).oceans() == if tile is Ocean {
                        if old(self).oceans() < u32::MAX {
                            old(self).oceans() + 1
                        } else {
                            old(self).oceans()
                        }
                    } else {
                        old(self).oceans()
                    }
                } else {
                    r == Err::<(), GameError>(GameError::SpaceUnavailable) && *final(self)
                        == *old(self)
                },
            },
    {
        let is_ocean = match tile {
            Tile::Ocean => true,
            _ => false,
        };
        let i = match self.find_space(space_id) {
            Some(i) => i,
            None => {
                return Err(GameError::NotFound);
            },
        };
        if !self.spaces[i].can_accept_tile(&tile) {
            return Err(GameError::SpaceUnavailable);
        }
        let mut items: Vec<Space> = Vec::new();
        core::mem::swap(&mut items, &mut self.spaces);
        let ghost before = items@;
        let _ = items[i].place_tile(tile, player_id);
        proof {
            assert forall|a: int, b: int| ids_distinct(before) && 0 <= a < b < items@.len() implies (#[trigger] items@[a]).id@
                != (#[trigger] items@[b]).id@ by {
                assert(items@[a].id@ == before[a].id@ && items@[b].id@ == before[b].id@);
            }
        }
        core::mem::swap(&mut items, &mut self.spaces);
        if is_ocean {
            self.placed_oceans = self.placed_oceans.saturating_add(1);
        }
        Ok(())
    }

    /// The number of ocean tiles placed.
    pub fn placed_oceans(&self) -> (r: u32)
        ensures
            r == self.oceans(),
    {
        self.placed_oceans
    }

    /// The board type.
    pub fn board_type(&self) -> (r: BoardType)
        ensures
            r == self.kind(),
    {
        self.board_type
    }

    /// Adds a space; a space with the same identifier is replaced.
    pub fn add_space(&mut self, space: Space)
        ensures
            ids_distinct(old(self).space_seq()) ==> ids_distinct(final(self).space_seq()),
            final(self).kind() == old(self).kind(),
            final(self).oceans() == old(self).oceans(),
            match space_index(old(self).space_seq(), space.id@) {
                Some(i) => final(self).space_seq() == old(self).space_seq().update(i, space),
                None => final(self).space_seq() == old(self).space_seq().push(space),
            },
    {
        proof {
            lemma_space_index(self.spaces@, space.id@);
        }
        let found = self.find_space(&space.id);
        let mut items: Vec<Space> = Vec::new();
        core::mem::swap(&mut items, &mut self.spaces);
        let ghost before = items@;
        match found {
            Some(i) => {
                items.set(i, space);
            },
            None => {
                items.push(space);
            },
        }
        proof {
            assert forall|a: int, b: int| ids_distinct(before) && 0 <= a < b < items@.len() implies (#[trigger] items@[a]).id@
                != (#[trigger] items@[b]).id@ by {
                if a < before.len() && b < before.len() {
                    if found is Some {
                        let k = found.unwrap() as int;
                        if a != k && b != k {
                            assert(items@[a] == before[a] && items@[b] == before[b]);
                        } else if a == k {
                            assert(items@[b] == before[b]);
                            assert(before[k].id@ == space.id@);
                        } else {
                            assert(items@[a] == before[a]);
                            assert(before[k].id@ == space.id@);
                        }
                    } else {
                        assert(items@[a] == before[a] && items@[b] == before[b]);
                    }
                } else {
                    assert(items@[a] == before[a]);
                }
            }
        }
        core::mem::swap(&mut items, &mut self.spaces);
    }
}

} // verus!
