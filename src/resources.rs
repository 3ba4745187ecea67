use vstd::prelude::*;

verus! {

/// The six standard resources.
#[derive(Debug, Clone, Copy, PartialEq, Eq, Hash, Structural)]
pub enum Resource {
    /// The standard currency.
    Megacredits,
    /// Pays 2 each towards building-tagged items.
    Steel,
    /// Pays 3 each towards space-tagged items.
    Titanium,
    Plants,
    Energy,
    Heat,
}

impl Resource {
    /// All standard resources.
    pub fn all() -> (r: Vec<Resource>)
        ensures
            r@ == seq![
                Resource::Megacredits,
                Resource::Steel,
                Resource::Titanium,
                Resource::Plants,
                Resource::Energy,
                Resource::Heat,
            ],
    {
        vec![
            Resource::Megacredits,
            Resource::Steel,
            Resource::Titanium,
            Resource::Plants,
            Resource::Energy,
            Resource::Heat,
        ]
    }
}

/// The largest quantity a ledger entry holds.
pub open spec fn cap_u32(v: int) -> int {
    if v > u32::MAX {
        u32::MAX as int
    } else {
        v
    }
}

/// Subtraction that stops at zero.
pub open spec fn sub_floor(a: int, b: int) -> int {
    if a >= b {
        a - b
    } else {
        0
    }
}

/// A player's stock of resources; quantities are never negative.
#[derive(Debug, Clone, Copy)]
pub struct Resources {
    pub megacredits: u32,
    pub steel: u32,
    pub titanium: u32,
    pub plants: u32,
    pub energy: u32,
    pub heat: u32,
}

impl Resources {
    /// The quantity held of a resource.
    pub open spec fn amount(self, r: Resource) -> int {
        match r {
            Resource::Megacredits => self.megacredits as int,
            Resource::Steel => self.steel as int,
            Resource::Titanium => self.titanium as int,
            Resource::Plants => self.plants as int,
            Resource::Energy => self.energy as int,
            Resource::Heat => self.heat as int,
        }
    }

    /// This stock with one quantity replaced.
    pub open spec fn with_amount(self, r: Resource, v: u32) -> Resources {
        match r {
            Resource::Megacredits => Resources { megacredits: v, ..self },
            Resource::Steel => Resources { steel: v, ..self },
            Resource::Titanium => Resources { titanium: v, ..self },
            Resource::Plants => Resources { plants: v, ..self },
            Resource::Energy => Resources { energy: v, ..self },
            Resource::Heat => Resources { heat: v, ..self },
        }
    }

    pub open spec fn is_empty_stock(self) -> bool {
        forall|r: Resource| self.amount(r) == 0
    }

    /// The stock after `add(r, n)`.
    pub open spec fn added(self, r: Resource, n: int) -> Resources {
        self.with_amount(r, cap_u32(self.amount(r) + n) as u32)
    }

    /// The stock after `subtract(r, n)`.
    pub open spec fn subtracted(self, r: Resource, n: int) -> Resources {
        self.with_amount(r, sub_floor(self.amount(r), n) as u32)
    }

    /// An empty stock.
    pub fn new() -> (r: Self)
        ensures
            r.is_empty_stock(),
    {
        Resources { megacredits: 0, steel: 0, titanium: 0, plants: 0, energy: 0, heat: 0 }
    }

    /// The quantity held of a resource.
    pub fn get(&self, resource: Resource) -> (r: u32)
        ensures
            r == self.amount(resource),
    {
        match resource {
            Resource::Megacredits => self.megacredits,
            Resource::Steel => self.steel,
            Resource::Titanium => self.titanium,
            Resource::Plants => self.plants,
            Resource::Energy => self.energy,
            Resource::Heat => self.heat,
        }
    }

    /// Replaces the quantity held of a resource.
    pub fn set(&mut self, resource: Resource, value: u32)
        ensures
            *final(self) == old(self).with_amount(resource, value),
    {
        match resource {
            Resource::Megacredits => self.megacredits = value,
            Resource::Steel => self.steel = value,
            Resource::Titanium => self.titanium = value,
            Resource::Plants => self.plants = value,
            Resource::Energy => self.energy = value,
            Resource::Heat => self.heat = value,
        }
    }

    /// Adds to a resource; the quantity saturates at `u32::MAX`.
    pub fn add(&mut self, resource: Resource, amount: u32)
        ensures
            *final(self) == old(self).added(resource, amount as int),
    {
        let v = self.get(resource).saturating_add(amount);
        self.set(resource, v);
    }

    /// Removes from a resource; the quantity stops at zero.
    pub fn subtract(&mut self, resource: Resource, amount: u32)
        ensures
            *final(self) == old(self).subtracted(resource, amount as int),
    {
        let v = self.get(resource).saturating_sub(amount);
        self.set(resource, v);
    }
}

impl Default for Resources {
    fn default() -> (r: Self)
        ensures
            r.is_empty_stock(),
    {
        Resources::new()
    }
}

} // verus!
