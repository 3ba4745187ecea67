use vstd::prelude::*;

verus! {

/// The four global terraforming parameters.
#[derive(Debug, Clone, Copy, PartialEq, Eq, Hash, Structural)]
pub enum GlobalParameter {
    /// Ocean tiles placed (0 to 9).
    Oceans,
    /// Oxygen level in percent (0 to 14).
    Oxygen,
    /// Temperature in degrees Celsius (-30 to +8, in steps of 2).
    Temperature,
    /// Venus scale (0 to 30, in steps of 2).
    Venus,
}

impl GlobalParameter {
    /// All global parameters.
    pub fn all() -> (r: Vec<GlobalParameter>)
        ensures
            r@ == seq![
                GlobalParameter::Oceans,
                GlobalParameter::Oxygen,
                GlobalParameter::Temperature,
                GlobalParameter::Venus,
            ],
    {
        vec![
            GlobalParameter::Oceans,
            GlobalParameter::Oxygen,
            GlobalParameter::Temperature,
            GlobalParameter::Venus,
        ]
    }
}

/// Largest number of oceans.
pub const MAX_OCEANS: u32 = 9;
/// Largest oxygen level.
pub const MAX_OXYGEN: u32 = 14;
/// Largest temperature.
pub const MAX_TEMPERATURE: i32 = 8;
/// Starting temperature.
pub const MIN_TEMPERATURE: i32 = -30;
/// Largest Venus value.
pub const MAX_VENUS: u32 = 30;

/// Degrees per temperature step.
pub const TEMPERATURE_STEP: i32 = 2;
/// Percent per oxygen step.
pub const OXYGEN_STEP: u32 = 1;
/// Oceans per ocean step.
pub const OCEANS_STEP: u32 = 1;
/// Venus units per Venus step.
pub const VENUS_STEP: u32 = 2;

/// Number of step levels of each track (levels run from 0 to count - 1).
pub const TEMPERATURE_MAX_LEVEL: u8 = 20;
pub const OXYGEN_MAX_LEVEL: u8 = 15;
pub const OCEANS_MAX_LEVEL: u8 = 10;
pub const VENUS_MAX_LEVEL: u8 = 16;

/// The highest step index of a parameter.
pub open spec fn top_level(p: GlobalParameter) -> nat {
    match p {
        GlobalParameter::Oceans => 9,
        GlobalParameter::Oxygen => 14,
        GlobalParameter::Temperature => 19,
        GlobalParameter::Venus => 15,
    }
}

/// The user-facing value of step index `level` of parameter `p`.
pub open spec fn level_value(p: GlobalParameter, level: nat) -> int {
    match p {
        GlobalParameter::Oceans => level as int,
        GlobalParameter::Oxygen => level as int,
        GlobalParameter::Temperature => -30 + 2 * level,
        GlobalParameter::Venus => 2 * (level as int),
    }
}

/// The user-facing maximum of parameter `p`.
pub open spec fn max_value(p: GlobalParameter) -> int {
    level_value(p, top_level(p))
}

/// The user-facing minimum of parameter `p`.
pub open spec fn min_value(p: GlobalParameter) -> int {
    level_value(p, 0)
}

pub open spec fn clamp(v: int, lo: int, hi: int) -> int {
    if v < lo {
        lo
    } else if v > hi {
        hi
    } else {
        v
    }
}

/// The step index that `set` stores for value `v`: the value is clamped to
/// the parameter's range and rounded to the nearest step (halves round up).
pub open spec fn value_level(p: GlobalParameter, v: int) -> nat {
    match p {
        GlobalParameter::Oceans => clamp(v, 0, 9) as nat,
        GlobalParameter::Oxygen => clamp(v, 0, 14) as nat,
        GlobalParameter::Temperature => ((clamp(v, -30, 8) + 30 + 1) / 2) as nat,
        GlobalParameter::Venus => ((clamp(v, 0, 30) + 1) / 2) as nat,
    }
}

/// The abstract state of the track: one step index per parameter.
pub struct Levels {
    pub oceans: nat,
    pub oxygen: nat,
    pub temperature: nat,
    pub venus: nat,
}

impl Levels {
    pub open spec fn level(self, p: GlobalParameter) -> nat {
        match p {
            GlobalParameter::Oceans => self.oceans,
            GlobalParameter::Oxygen => self.oxygen,
            GlobalParameter::Temperature => self.temperature,
            GlobalParameter::Venus => self.venus,
        }
    }

    pub open spec fn with_level(self, p: GlobalParameter, l: nat) -> Levels {
        match p {
            GlobalParameter::Oceans => Levels { oceans: l, ..self },
            GlobalParameter::Oxygen => Levels { oxygen: l, ..self },
            GlobalParameter::Temperature => Levels { temperature: l, ..self },
            GlobalParameter::Venus => Levels { venus: l, ..self },
        }
    }

    pub open spec fn value(self, p: GlobalParameter) -> int {
        level_value(p, self.level(p))
    }

    /// Every step index is within its track.
    pub open spec fn bounded(self) -> bool {
        &&& self.oceans <= 9
        &&& self.oxygen <= 14
        &&& self.temperature <= 19
        &&& self.venus <= 15
    }

    pub open spec fn zero() -> Levels {
        Levels { oceans: 0, oxygen: 0, temperature: 0, venus: 0 }
    }

    /// Number of steps that `increase(p, steps)` applies from this state.
    pub open spec fn applied_steps(self, p: GlobalParameter, steps: nat) -> nat {
        let room = if top_level(p) >= self.level(p) {
            (top_level(p) - self.level(p)) as nat
        } else {
            0nat
        };
        if steps <= room {
            steps
        } else {
            room
        }
    }

    /// The state after `increase(p, steps)`.
    pub open spec fn increased(self, p: GlobalParameter, steps: nat) -> Levels {
        self.with_level(p, self.level(p) + self.applied_steps(p, steps))
    }

    /// All parameters at their maximum.
    pub open spec fn all_maxed(self) -> bool {
        &&& self.oceans >= 9
        &&& self.oxygen >= 14
        &&& self.temperature >= 19
        &&& self.venus >= 15
    }
}

/// The state after a sequence of `increase` calls, applied in order.
pub open spec fn increased_all(l: Levels, ops: Seq<(GlobalParameter, nat)>) -> Levels
    decreases ops.len(),
{
    if ops.len() == 0 {
        l
    } else {
        increased_all(l.increased(ops[0].0, ops[0].1), ops.drop_first())
    }
}

/// Global parameter values, each held as a step index on its track.
#[derive(Debug, Clone, Copy)]
pub struct GlobalParameters {
    oceans: u8,
    oxygen: u8,
    temperature: u8,
    venus: u8,
}

impl View for GlobalParameters {
    type V = Levels;

    closed spec fn view(&self) -> Levels {
        Levels {
            oceans: self.oceans as nat,
            oxygen: self.oxygen as nat,
            temperature: self.temperature as nat,
            venus: self.venus as nat,
        }
    }
}

impl GlobalParameters {
    #[verifier::type_invariant]
    closed spec fn inv(&self) -> bool {
        self@.bounded()
    }

    /// All parameters at their starting values.
    pub fn new() -> (r: Self)
        ensures
            r@ == Levels::zero(),
    {
        GlobalParameters { oceans: 0, oxygen: 0, temperature: 0, venus: 0 }
    }

    fn level_of(&self, param: GlobalParameter) -> (r: u8)
        ensures
            r as nat == self@.level(param),
            r as nat <= top_level(param),
    {
        proof {
            use_type_invariant(self);
        }
        match param {
            GlobalParameter::Oceans => self.oceans,
            GlobalParameter::Oxygen => self.oxygen,
            GlobalParameter::Temperature => self.temperature,
            GlobalParameter::Venus => self.venus,
        }
    }

    /// The user-facing value of a parameter.
    pub fn get(&self, param: GlobalParameter) -> (r: i32)
        ensures
            r == self@.value(param),
            min_value(param) <= r <= max_value(param),
    {
        let level = self.level_of(param);
        match param {
            GlobalParameter::Oceans => Self::oceans_scale_to_value(level),
            GlobalParameter::Oxygen => Self::oxygen_scale_to_value(level),
            GlobalParameter::Temperature => Self::temperature_scale_to_value(level),
            GlobalParameter::Venus => Self::venus_scale_to_value(level),
        }
    }

    /// Ocean step index to ocean count.
    pub fn oceans_scale_to_value(scale: u8) -> (r: i32)
        ensures
            r == level_value(GlobalParameter::Oceans, scale as nat),
    {
        scale as i32
    }

    /// Ocean count to step index, clamped to the track.
    pub fn oceans_value_to_scale(value: i32) -> (r: u8)
        ensures
            r as nat == value_level(GlobalParameter::Oceans, value as int),
    {
        if value < 0 {
            0
        } else if value > MAX_OCEANS as i32 {
            MAX_OCEANS as u8
        } else {
            value as u8
        }
    }

    /// Oxygen step index to oxygen percent.
    pub fn oxygen_scale_to_value(scale: u8) -> (r: i32)
        ensures
            r == level_value(GlobalParameter::Oxygen, scale as nat),
    {
        scale as i32
    }

    /// Oxygen percent to step index, clamped to the track.
    pub fn oxygen_value_to_scale(value: i32) -> (r: u8)
        ensures
            r as nat == value_level(GlobalParameter::Oxygen, value as int),
    {
        if value < 0 {
            0
        } else if value > MAX_OXYGEN as i32 {
            MAX_OXYGEN as u8
        } else {
            value as u8
        }
    }

    /// Temperature step index to degrees.
    pub fn temperature_scale_to_value(scale: u8) -> (r: i32)
        ensures
            r == level_value(GlobalParameter::Temperature, scale as nat),
    {
        MIN_TEMPERATURE + (scale as i32) * TEMPERATURE_STEP
    }

    /// Degrees to temperature step index, clamped and rounded to the nearest step.
    pub fn temperature_value_to_scale(value: i32) -> (r: u8)
        ensures
            r as nat == value_level(GlobalParameter::Temperature, value as int),
            r as nat <= top_level(GlobalParameter::Temperature),
    {
        let clamped: i32 = if value < MIN_TEMPERATURE {
            MIN_TEMPERATURE
        } else if value > MAX_TEMPERATURE {
            MAX_TEMPERATURE
        } else {
            value
        };
        let steps: i32 = ((clamped - MIN_TEMPERATURE) + TEMPERATURE_STEP / 2) / TEMPERATURE_STEP;
        steps as u8
    }

    /// Venus step index to Venus value.
    pub fn venus_scale_to_value(scale: u8) -> (r: i32)
        ensures
            r == level_value(GlobalParameter::Venus, scale as nat),
    {
        (scale as i32) * (VENUS_STEP as i32)
    }

    /// Venus value to step index, clamped and rounded to the nearest step.
    pub fn venus_value_to_scale(value: i32) -> (r: u8)
        ensures
            r as nat == value_level(GlobalParameter::Venus, value as int),
            r as nat <= top_level(GlobalParameter::Venus),
    {
        let clamped: u32 = if value < 0 {
            0
        } else if value > MAX_VENUS as i32 {
            MAX_VENUS
        } else {
            value as u32
        };
        ((clamped + VENUS_STEP / 2) / VENUS_STEP) as u8
    }

    /// Sets a parameter to `value`, clamped to its range and rounded to the
    /// nearest step boundary.
    pub fn set(&mut self, param: GlobalParameter, value: i32)
        ensures
            final(self)@ == old(self)@.with_level(param, value_level(param, value as int)),
    {
        proof {
            use_type_invariant(&*self);
        }
        match param {
            GlobalParameter::Oceans => {
                self.oceans = Self::oceans_value_to_scale(value);
            },
            GlobalParameter::Oxygen => {
                self.oxygen = Self::oxygen_value_to_scale(value);
            },
            GlobalParameter::Temperature => {
                self.temperature = Self::temperature_value_to_scale(value);
            },
            GlobalParameter::Venus => {
                self.venus = Self::venus_value_to_scale(value);
            },
        }
    }

    /// Raises a parameter by up to `steps` steps, stopping at its maximum.
    /// Returns the number of steps actually applied.
    pub fn increase(&mut self, param: GlobalParameter, steps: u32) -> (r: u32)
        ensures
            r as nat == old(self)@.applied_steps(param, steps as nat),
            final(self)@ == old(self)@.increased(param, steps as nat),
            final(self)@.value(param) >= old(self)@.value(param),
            final(self)@.value(param) <= max_value(param),
    {
        proof {
            use_type_invariant(&*self);
        }
        let current = self.level_of(param) as u32;
        let top: u32 = match param {
            GlobalParameter::Oceans => (OCEANS_MAX_LEVEL - 1) as u32,
            GlobalParameter::Oxygen => (OXYGEN_MAX_LEVEL - 1) as u32,
            GlobalParameter::Temperature => (TEMPERATURE_MAX_LEVEL - 1) as u32,
            GlobalParameter::Venus => (VENUS_MAX_LEVEL - 1) as u32,
        };
        let available = top - current;
        let actual = if steps < available {
            steps
        } else {
            available
        };
        let next = (current + actual) as u8;
        match param {
            GlobalParameter::Oceans => {
                self.oceans = next;
            },
            GlobalParameter::Oxygen => {
                self.oxygen = next;
            },
            GlobalParameter::Temperature => {
                self.temperature = next;
            },
            GlobalParameter::Venus => {
                self.venus = next;
            },
        }
        actual
    }

    /// Whether a parameter is still below its maximum.
    pub fn can_increase(&self, param: GlobalParameter) -> (r: bool)
        ensures
            r == (self@.level(param) < top_level(param)),
    {
        let level = self.level_of(param);
        match param {
            GlobalParameter::Oceans => level < OCEANS_MAX_LEVEL - 1,
            GlobalParameter::Oxygen => level < OXYGEN_MAX_LEVEL - 1,
            GlobalParameter::Temperature => level < TEMPERATURE_MAX_LEVEL - 1,
            GlobalParameter::Venus => level < VENUS_MAX_LEVEL - 1,
        }
    }

    /// The user-facing size of one step of a parameter.
    pub fn step_size(param: GlobalParameter) -> (r: i32)
        ensures
            r == level_value(param, 1) - level_value(param, 0),
    {
        match param {
            GlobalParameter::Oceans => OCEANS_STEP as i32,
            GlobalParameter::Oxygen => OXYGEN_STEP as i32,
            GlobalParameter::Temperature => TEMPERATURE_STEP,
            GlobalParameter::Venus => VENUS_STEP as i32,
        }
    }

    /// Whether `value` is a value that the parameter can take.
    pub fn is_valid_step(param: GlobalParameter, value: i32) -> (r: bool)
        ensures
            r == exists|l: nat| l <= top_level(param) && level_value(param, l) == value,
    {
        let r = match param {
            GlobalParameter::Oceans => 0 <= value && value <= MAX_OCEANS as i32,
            GlobalParameter::Oxygen => 0 <= value && value <= MAX_OXYGEN as i32,
            GlobalParameter::Temperature => MIN_TEMPERATURE <= value && value <= MAX_TEMPERATURE
                && (value - MIN_TEMPERATURE) % TEMPERATURE_STEP == 0,
            GlobalParameter::Venus => 0 <= value && value <= MAX_VENUS as i32 && value % (
            VENUS_STEP as i32) == 0,
        };
        proof {
            if r {
                let l: nat = match param {
                    GlobalParameter::Oceans => value as nat,
                    GlobalParameter::Oxygen => value as nat,
                    GlobalParameter::Temperature => ((value + 30) / 2) as nat,
                    GlobalParameter::Venus => (value / 2) as nat,
                };
                assert(l <= top_level(param) && level_value(param, l) == value);
            } else {
                assert forall|l: nat| l <= top_level(param) implies level_value(param, l)
                    != value by {
                    if level_value(param, l) == value {
                        match param {
                            GlobalParameter::Temperature => {
                                assert((value + 30) % 2 == 0);
                            },
                            GlobalParameter::Venus => {
                                assert(value % 2 == 0);
                            },
                            _ => {},
                        }
                    }
                }
            }
        }
        r
    }

    /// Raises a parameter by a user-facing amount, rounded up to whole steps.
    /// Amounts of zero or less leave the track unchanged.
    pub fn add(&mut self, param: GlobalParameter, amount: i32)
        ensures
            amount <= 0 ==> final(self)@ == old(self)@,
            amount > 0 ==> final(self)@ == old(self)@.increased(
                param,
                steps_for_amount(param, amount as int),
            ),
    {
        if amount <= 0 {
            return ;
        }
        let steps: u32 = match param {
            GlobalParameter::Oceans => amount as u32,
            GlobalParameter::Oxygen => amount as u32,
            GlobalParameter::Temperature => ((amount as u32) - 1) / (TEMPERATURE_STEP as u32) + 1,
            GlobalParameter::Venus => ((amount as u32) - 1) / VENUS_STEP + 1,
        };
        proof {
            assert(steps as int == steps_for_amount(param, amount as int));
        }
        self.increase(param, steps);
    }

    /// Whether every parameter, Venus included, is at its maximum.
    pub fn is_fully_terraformed(&self) -> (r: bool)
        ensures
            r == self@.all_maxed(),
    {
        self.oceans >= OCEANS_MAX_LEVEL - 1 && self.oxygen >= OXYGEN_MAX_LEVEL - 1
            && self.temperature >= TEMPERATURE_MAX_LEVEL - 1 && self.venus >= VENUS_MAX_LEVEL - 1
    }
}

/// Whole steps needed to cover a positive user-facing amount (rounded up).
pub open spec fn steps_for_amount(p: GlobalParameter, amount: int) -> nat {
    match p {
        GlobalParameter::Oceans => amount as nat,
        GlobalParameter::Oxygen => amount as nat,
        GlobalParameter::Temperature => ((amount + 1) / 2) as nat,
        GlobalParameter::Venus => ((amount + 1) / 2) as nat,
    }
}

/// For every parameter and every sequence of `increase` calls, the user-facing
/// value never decreases and never exceeds the parameter's maximum.
pub proof fn lemma_increase_monotonic_bounded(
    l: Levels,
    ops: Seq<(GlobalParameter, nat)>,
    p: GlobalParameter,
)
    requires
        l.bounded(),
    ensures
        increased_all(l, ops).bounded(),
        increased_all(l, ops).value(p) >= l.value(p),
        increased_all(l, ops).value(p) <= max_value(p),
    decreases ops.len(),
{
    if ops.len() > 0 {
        let next = l.increased(ops[0].0, ops[0].1);
        lemma_increase_monotonic_bounded(next, ops.drop_first(), p);
    }
}

/// From the starting state, raising the oceans by 100 applies exactly the 9
/// steps up to the maximum, and a further raise by one applies none.
pub proof fn lemma_oceans_saturate()
    ensures
        Levels::zero().applied_steps(GlobalParameter::Oceans, 100) == 9,
        Levels::zero().increased(GlobalParameter::Oceans, 100).applied_steps(
            GlobalParameter::Oceans,
            1,
        ) == 0,
{
}

} // verus!
