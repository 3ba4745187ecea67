use vstd::prelude::*;
use crate::resources::{Resource, cap_u32};

verus! {

/// Per-generation production. Only the currency production can be negative.
#[derive(Debug, Clone, Copy)]
pub struct Production {
    pub megacredits: i32,
    pub steel: u32,
    pub titanium: u32,
    pub plants: u32,
    pub energy: u32,
    pub heat: u32,
}

/// `v` limited to the range of `i32`.
pub open spec fn clamp_i32(v: int) -> int {
    if v > i32::MAX {
        i32::MAX as int
    } else if v < i32::MIN {
        i32::MIN as int
    } else {
        v
    }
}

/// `v` limited to the range of `u32`.
pub open spec fn clamp_u32(v: int) -> int {
    if v < 0 {
        0
    } else {
        cap_u32(v)
    }
}

impl Production {
    /// The production of a resource.
    pub open spec fn rate(self, r: Resource) -> int {
        match r {
            Resource::Megacredits => self.megacredits as int,
            Resource::Steel => self.steel as int,
            Resource::Titanium => self.titanium as int,
            Resource::Plants => self.plants as int,
            Resource::Energy => self.energy as int,
            Resource::Heat => self.heat as int,
        }
    }

    pub open spec fn is_zero(self) -> bool {
        forall|r: Resource| self.rate(r) == 0
    }

    /// The production after `set(r, v)`: the currency takes `v` as it is,
    /// the others stop at zero (and at `u32::MAX`).
    pub open spec fn with_rate(self, r: Resource, v: int) -> Production {
        match r {
            Resource::Megacredits => Production { megacredits: clamp_i32(v) as i32, ..self },
            Resource::Steel => Production { steel: clamp_u32(v) as u32, ..self },
            Resource::Titanium => Production { titanium: clamp_u32(v) as u32, ..self },
            Resource::Plants => Production { plants: clamp_u32(v) as u32, ..self },
            Resource::Energy => Production { energy: clamp_u32(v) as u32, ..self },
            Resource::Heat => Production { heat: clamp_u32(v) as u32, ..self },
        }
    }

    /// No production at all.
    pub fn new() -> (r: Self)
        ensures
            r.is_zero(),
    {
        Production { megacredits: 0, steel: 0, titanium: 0, plants: 0, energy: 0, heat: 0 }
    }

    /// The production of a resource; values above `i32::MAX` read as `i32::MAX`.
    pub fn get(&self, resource: Resource) -> (r: i32)
        ensures
            r == clamp_i32(self.rate(resource)),
    {
        let v: u32 = match resource {
            Resource::Megacredits => {
                return self.megacredits;
            },
            Resource::Steel => self.steel,
            Resource::Titanium => self.titanium,
            Resource::Plants => self.plants,
            Resource::Energy => self.energy,
            Resource::Heat => self.heat,
        };
        if v > i32::MAX as u32 {
            i32::MAX
        } else {
            v as i32
        }
    }

    fn set_int(&mut self, resource: Resource, value: i64)
        ensures
            *final(self) == old(self).with_rate(resource, value as int),
    {
        let as_u32: u32 = if value < 0 {
            0
        } else if value > u32::MAX as i64 {
            u32::MAX
        } else {
            value as u32
        };
        match resource {
            Resource::Megacredits => {
                self.megacredits = if value > i32::MAX as i64 {
                    i32::MAX
                } else if value < i32::MIN as i64 {
                    i32::MIN
                } else {
                    value as i32
                };
            },
            Resource::Steel => self.steel = as_u32,
            Resource::Titanium => self.titanium = as_u32,
            Resource::Plants => self.plants = as_u32,
            Resource::Energy => self.energy = as_u32,
            Resource::Heat => self.heat = as_u32,
        }
    }

    /// Sets the production of a resource; all but the currency stop at zero.
    pub fn set(&mut self, resource: Resource, value: i32)
        ensures
            *final(self) == old(self).with_rate(resource, value as int),
    {
        self.set_int(resource, value as i64);
    }

    /// Changes the production of a resource by `amount`; all but the currency
    /// stop at zero, and the currency saturates at the bounds of `i32`.
    pub fn add(&mut self, resource: Resource, amount: i32)
        ensures
            *final(self) == old(self).with_rate(resource, old(self).rate(resource) + amount),
    {
        let current: i64 = match resource {
            Resource::Megacredits => self.megacredits as i64,
            Resource::Steel => self.steel as i64,
            Resource::Titanium => self.titanium as i64,
            Resource::Plants => self.plants as i64,
            Resource::Energy => self.energy as i64,
            Resource::Heat => self.heat as i64,
        };
        self.set_int(resource, current + amount as i64);
    }

    /// Changes the production of a resource by `-amount`.
    pub fn subtract(&mut self, resource: Resource, amount: i32)
        requires
            amount > i32::MIN,
        ensures
            *final(self) == old(self).with_rate(resource, old(self).rate(resource) - amount),
    {
        self.add(resource, -amount);
    }
}

impl Default for Production {
    fn default() -> (r: Self)
        ensures
            r.is_zero(),
    {
        Production::new()
    }
}

} // verus!
