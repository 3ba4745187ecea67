use vstd::prelude::*;
use crate::resources::cap_u32;

verus! {

/// One part of a payment.
#[derive(Debug, Clone, Copy, PartialEq, Eq, Structural)]
pub enum PaymentMethod {
    /// Currency, one for one.
    MegaCredits(u32),
    /// Worth 2 each towards building-tagged items, nothing otherwise.
    Steel(u32),
    /// Worth 3 each towards space-tagged items, nothing otherwise.
    Titanium(u32),
    /// Worth 1 each.
    Heat(u32),
    /// Worth 3 each towards building-tagged items, nothing otherwise.
    Plants(u32),
}

/// Quantities that a payment must leave untouched.
#[derive(Debug, Clone, Copy, PartialEq, Eq, Structural)]
pub struct PaymentReserve {
    pub megacredits: u32,
    pub steel: u32,
    pub titanium: u32,
    pub heat: u32,
    pub plants: u32,
}

impl PaymentReserve {
    pub open spec fn is_none(self) -> bool {
        self == (PaymentReserve { megacredits: 0, steel: 0, titanium: 0, heat: 0, plants: 0 })
    }
}

impl Default for PaymentReserve {
    fn default() -> (r: Self)
        ensures
            r.is_none(),
    {
        PaymentReserve { megacredits: 0, steel: 0, titanium: 0, heat: 0, plants: 0 }
    }
}

/// A payment: the resources handed over, and what must be kept.
#[derive(Debug, Clone, PartialEq, Eq)]
pub struct Payment {
    pub methods: Vec<PaymentMethod>,
    pub reserve: PaymentReserve,
}

/// The currency worth of one payment method.
pub open spec fn method_worth(m: PaymentMethod, is_building_tag: bool, is_space_tag: bool) -> int {
    match m {
        PaymentMethod::MegaCredits(a) => a as int,
        PaymentMethod::Steel(a) => if is_building_tag {
            2 * a
        } else {
            0
        },
        PaymentMethod::Titanium(a) => if is_space_tag {
            3 * a
        } else {
            0
        },
        PaymentMethod::Heat(a) => a as int,
        PaymentMethod::Plants(a) => if is_building_tag {
            3 * a
        } else {
            0
        },
    }
}

/// The currency worth of a sequence of payment methods.
pub open spec fn methods_worth(ms: Seq<PaymentMethod>, is_building_tag: bool, is_space_tag: bool) -> int
    decreases ms.len(),
{
    if ms.len() == 0 {
        0
    } else {
        methods_worth(ms.drop_last(), is_building_tag, is_space_tag) + method_worth(
            ms.last(),
            is_building_tag,
            is_space_tag,
        )
    }
}

impl Payment {
    /// A payment of `amount` currency with no reserve.
    pub fn with_megacredits(amount: u32) -> (r: Self)
        ensures
            r.methods@ == seq![PaymentMethod::MegaCredits(amount)],
            r.reserve.is_none(),
    {
        Payment { methods: vec![PaymentMethod::MegaCredits(amount)], reserve: PaymentReserve::default() }
    }

    /// A payment made of `methods`, with no reserve.
    pub fn new(methods: Vec<PaymentMethod>) -> (r: Self)
        ensures
            r.methods@ == methods@,
            r.reserve.is_none(),
    {
        Payment { methods, reserve: PaymentReserve::default() }
    }

    /// This payment with `reserve` as its reserve.
    pub fn with_reserve(self, reserve: PaymentReserve) -> (r: Self)
        ensures
            r.methods@ == self.methods@,
            r.reserve == reserve,
    {
        let mut p = self;
        p.reserve = reserve;
        p
    }

    /// The currency worth of the payment for an item with the given tags,
    /// saturating at `u32::MAX`.
    pub fn total_cost_mc(&self, is_building_tag: bool, is_space_tag: bool) -> (r: u32)
        ensures
            r == cap_u32(methods_worth(self.methods@, is_building_tag, is_space_tag)),
    {
        let mut total: u64 = 0;
        let mut i: usize = 0;
        while i < self.methods.len()
            invariant
                i <= self.methods.len(),
                total == cap_u32(methods_worth(self.methods@.take(i as int), is_building_tag, is_space_tag))
                    || (total > u32::MAX && methods_worth(
                    self.methods@.take(i as int),
                    is_building_tag,
                    is_space_tag,
                ) > u32::MAX),
                total <= 4 * (u32::MAX as int),
                total == methods_worth(self.methods@.take(i as int), is_building_tag, is_space_tag)
                    || total > u32::MAX,
            decreases self.methods.len() - i,
        {
            proof {
                assert(self.methods@.take(i as int + 1).drop_last() == self.methods@.take(i as int));
                assert(self.methods@.take(i as int + 1).last() == self.methods@[i as int]);
                lemma_worth_nonneg(self.methods@.take(i as int), is_building_tag, is_space_tag);
            }
            let worth: u64 = match self.methods[i] {
                PaymentMethod::MegaCredits(a) => a as u64,
                PaymentMethod::Steel(a) => if is_building_tag {
                    2 * (a as u64)
                } else {
                    0
                },
                PaymentMethod::Titanium(a) => if is_space_tag {
                    3 * (a as u64)
                } else {
                    0
                },
                PaymentMethod::Heat(a) => a as u64,
                PaymentMethod::Plants(a) => if is_building_tag {
                    3 * (a as u64)
                } else {
                    0
                },
            };
            if total <= u32::MAX as u64 {
                total = total + worth;
            }
            i = i + 1;
        }
        proof {
            assert(self.methods@.take(self.methods.len() as int) == self.methods@);
        }
        if total > u32::MAX as u64 {
            u32::MAX
        } else {
            total as u32
        }
    }
}

/// The worth of a sequence of payment methods is never negative.
pub proof fn lemma_worth_nonneg(ms: Seq<PaymentMethod>, is_building_tag: bool, is_space_tag: bool)
    ensures
        methods_worth(ms, is_building_tag, is_space_tag) >= 0,
    decreases ms.len(),
{
    if ms.len() > 0 {
        lemma_worth_nonneg(ms.drop_last(), is_building_tag, is_space_tag);
    }
}

impl Default for Payment {
    fn default() -> (r: Self)
        ensures
            r.methods@.len() == 0,
            r.reserve.is_none(),
    {
        Payment { methods: Vec::new(), reserve: PaymentReserve::default() }
    }
}

} // verus!
