use vstd::prelude::*;
use crate::resources::cap_u32;

verus! {

/// Card tags.
#[derive(Debug, Clone, Copy, PartialEq, Eq, Hash, Structural)]
pub enum Tag {
    Building,
    Space,
    Science,
    Power,
    Earth,
    Jovian,
    Venus,
    Plant,
    Microbe,
    Animal,
    City,
    Mars,
    /// Counts as any other tag.
    Wild,
    Event,
}

/// Number of tags.
pub const TAG_COUNT: usize = 14;

/// The slot of a tag in a tag table.
pub open spec fn tag_slot(t: Tag) -> int {
    match t {
        Tag::Building => 0,
        Tag::Space => 1,
        Tag::Science => 2,
        Tag::Power => 3,
        Tag::Earth => 4,
        Tag::Jovian => 5,
        Tag::Venus => 6,
        Tag::Plant => 7,
        Tag::Microbe => 8,
        Tag::Animal => 9,
        Tag::City => 10,
        Tag::Mars => 11,
        Tag::Wild => 12,
        Tag::Event => 13,
    }
}

fn slot_of(t: Tag) -> (r: usize)
    ensures
        r == tag_slot(t),
        r < TAG_COUNT,
{
    match t {
        Tag::Building => 0,
        Tag::Space => 1,
        Tag::Science => 2,
        Tag::Power => 3,
        Tag::Earth => 4,
        Tag::Jovian => 5,
        Tag::Venus => 6,
        Tag::Plant => 7,
        Tag::Microbe => 8,
        Tag::Animal => 9,
        Tag::City => 10,
        Tag::Mars => 11,
        Tag::Wild => 12,
        Tag::Event => 13,
    }
}

impl Tag {
    /// All tags.
    pub fn all() -> (r: Vec<Tag>)
        ensures
            r.len() == TAG_COUNT,
            forall|i: int| 0 <= i < TAG_COUNT ==> tag_slot(#[trigger] r@[i]) == i,
    {
        vec![
            Tag::Building,
            Tag::Space,
            Tag::Science,
            Tag::Power,
            Tag::Earth,
            Tag::Jovian,
            Tag::Venus,
            Tag::Plant,
            Tag::Microbe,
            Tag::Animal,
            Tag::City,
            Tag::Mars,
            Tag::Wild,
            Tag::Event,
        ]
    }
}

/// Sum of the first `n` entries.
pub open spec fn sum_prefix(s: Seq<u32>, n: int) -> int
    decreases n,
{
    if n <= 0 {
        0
    } else {
        sum_prefix(s, n - 1) + s[n - 1] as int
    }
}

/// The tag counts of a player, one slot per tag.
#[derive(Debug, Clone, Copy)]
pub struct Tags {
    counts: [u32; 14],
}

impl View for Tags {
    type V = Seq<u32>;

    closed spec fn view(&self) -> Seq<u32> {
        self.counts@
    }
}

impl Tags {
    /// The number of tags `t` held, without substitution.
    pub open spec fn raw(self, t: Tag) -> int {
        self@[tag_slot(t)] as int
    }

    /// The count of `t`, with Wild tags counting towards every other tag when
    /// `include_wild` is set; saturates at `u32::MAX`.
    pub open spec fn counted(self, t: Tag, include_wild: bool) -> int {
        if include_wild && t != Tag::Wild {
            cap_u32(self.raw(t) + self.raw(Tag::Wild))
        } else {
            self.raw(t)
        }
    }

    /// No tags at all.
    pub fn new() -> (r: Self)
        ensures
            r@.len() == TAG_COUNT,
            forall|t: Tag| r.raw(t) == 0,
    {
        let r = Tags { counts: [0u32; 14] };
        assert(r@ =~= Seq::new(14, |i: int| 0u32));
        r
    }

    fn slot_value(&self, t: Tag) -> (r: u32)
        ensures
            r == self.raw(t),
            self@.len() == TAG_COUNT,
    {
        self.counts[slot_of(t)]
    }

    /// Adds `count` tags `tag`; the count saturates at `u32::MAX`.
    pub fn add(&mut self, tag: Tag, count: u32)
        ensures
            final(self)@ == old(self)@.update(
                tag_slot(tag),
                cap_u32(old(self).raw(tag) + count) as u32,
            ),
    {
        let i = slot_of(tag);
        let v = self.counts[i].saturating_add(count);
        self.counts[i] = v;
    }

    /// Removes up to `count` tags `tag`; the count stops at zero.
    pub fn remove(&mut self, tag: Tag, count: u32)
        ensures
            final(self)@ == old(self)@.update(
                tag_slot(tag),
                if old(self).raw(tag) >= count {
                    (old(self).raw(tag) - count) as u32
                } else {
                    0u32
                },
            ),
    {
        let i = slot_of(tag);
        let v = self.counts[i].saturating_sub(count);
        self.counts[i] = v;
    }

    /// The count of a tag; with `include_wild`, Wild tags count towards every
    /// tag but Wild itself.
    pub fn count(&self, tag: Tag, include_wild: bool) -> (r: u32)
        ensures
            r == self.counted(tag, include_wild),
    {
        let base = self.slot_value(tag);
        if include_wild && tag != Tag::Wild {
            base.saturating_add(self.slot_value(Tag::Wild))
        } else {
            base
        }
    }

    /// The count of a tag without Wild substitution.
    pub fn raw_count(&self, tag: Tag) -> (r: u32)
        ensures
            r == self.raw(tag),
    {
        self.slot_value(tag)
    }

    /// The number of tags held in all, saturating at `u32::MAX`.
    pub fn total(&self) -> (r: u32)
        ensures
            r == cap_u32(sum_prefix(self@, TAG_COUNT as int)),
    {
        let mut sum: u64 = 0;
        let mut i: usize = 0;
        while i < TAG_COUNT
            invariant
                i <= TAG_COUNT,
                sum == sum_prefix(self@, i as int),
                sum <= i * (u32::MAX as int),
            decreases TAG_COUNT - i,
        {
            sum = sum + self.counts[i] as u64;
            i = i + 1;
        }
        if sum > u32::MAX as u64 {
            u32::MAX
        } else {
            sum as u32
        }
    }

    /// Whether at least `required` tags `tag` are held, Wild tags included.
    pub fn has(&self, tag: Tag, required: u32) -> (r: bool)
        ensures
            r == (self.counted(tag, true) >= required),
    {
        self.count(tag, true) >= required
    }

    /// Whether every `(tag, count)` requirement is met, Wild tags included.
    pub fn has_all(&self, required: &Vec<(Tag, u32)>) -> (r: bool)
        ensures
            r == forall|i: int|
                0 <= i < required.len() ==> self.counted(#[trigger] required@[i].0, true)
                    >= required@[i].1,
    {
        let mut i: usize = 0;
        while i < required.len()
            invariant
                i <= required.len(),
                forall|j: int|
                    0 <= j < i ==> self.counted(#[trigger] required@[j].0, true) >= required@[j].1,
            decreases required.len() - i,
        {
            let (tag, count) = required[i];
            if !self.has(tag, count) {
                return false;
            }
            i = i + 1;
        }
        true
    }
}

impl Default for Tags {
    fn default() -> (r: Self)
        ensures
            forall|t: Tag| r.raw(t) == 0,
    {
        Tags::new()
    }
}

} // verus!
