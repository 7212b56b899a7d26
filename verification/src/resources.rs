//! The resource ledger value type.
//!
//! Five signed quantities with non-uniform accumulation: `energy` and
//! `living_space` are per-turn flow capacities that are replaced, never
//! accumulated, while `minerals`, `food` and `water` are persistent
//! stockpiles that accumulate and clamp at zero on subtraction.

use vstd::prelude::*;

verus! {

/// Clamp a mathematical integer into the `i64` range.
pub open spec fn sat64(x: int) -> i64 {
    if x > i64::MAX {
        i64::MAX
    } else if x < i64::MIN {
        i64::MIN
    } else {
        x as i64
    }
}

/// `i64` addition that saturates at the ends of the range.
pub fn sat_add(a: i64, b: i64) -> (r: i64)
    ensures
        r == sat64(a + b),
{
    match a.checked_add(b) {
        Some(v) => v,
        None => {
            if a >= 0 {
                i64::MAX
            } else {
                i64::MIN
            }
        },
    }
}

/// `i64` subtraction that saturates at the ends of the range.
pub fn sat_sub(a: i64, b: i64) -> (r: i64)
    ensures
        r == sat64(a - b),
{
    match a.checked_sub(b) {
        Some(v) => v,
        None => {
            if a >= 0 {
                i64::MAX
            } else {
                i64::MIN
            }
        },
    }
}

/// `i64` multiplication that saturates at the ends of the range.
pub fn sat_mul(a: i64, b: i64) -> (r: i64)
    ensures
        r == sat64(a * b),
{
    proof {
        assert((a as int) * (b as int) <= i128::MAX && (a as int) * (b as int) >= i128::MIN)
            by (nonlinear_arith)
            requires
                i64::MIN <= a <= i64::MAX,
                i64::MIN <= b <= i64::MAX,
        ;
    }
    let wide: i128 = (a as i128) * (b as i128);
    if wide > i64::MAX as i128 {
        i64::MAX
    } else if wide < i64::MIN as i128 {
        i64::MIN
    } else {
        wide as i64
    }
}

#[derive(Clone, Copy, Debug, PartialEq, Eq, Structural)]
pub struct Resources {
    pub energy: i64,
    pub living_space: i64,

    pub minerals: i64,
    pub food: i64,
    pub water: i64,
}

impl Resources {
    /// Pointwise saturating sum; used when resource bundles are combined.
    pub open spec fn spec_add(a: Resources, b: Resources) -> Resources {
        Resources {
            energy: sat64(a.energy + b.energy),
            living_space: sat64(a.living_space + b.living_space),
            minerals: sat64(a.minerals + b.minerals),
            food: sat64(a.food + b.food),
            water: sat64(a.water + b.water),
        }
    }

    /// Pointwise saturating difference.
    pub open spec fn spec_sub(a: Resources, b: Resources) -> Resources {
        Resources {
            energy: sat64(a.energy - b.energy),
            living_space: sat64(a.living_space - b.living_space),
            minerals: sat64(a.minerals - b.minerals),
            food: sat64(a.food - b.food),
            water: sat64(a.water - b.water),
        }
    }

    /// The ledger update rule: flow fields take the right-hand value as-is,
    /// stockpile fields accumulate.
    pub open spec fn spec_store(a: Resources, b: Resources) -> Resources {
        Resources {
            energy: b.energy,
            living_space: b.living_space,
            minerals: sat64(a.minerals + b.minerals),
            food: sat64(a.food + b.food),
            water: sat64(a.water + b.water),
        }
    }

    /// The ledger spending rule: flow fields are left untouched, stockpile
    /// fields are floor-clamped at zero.
    pub open spec fn spec_spend(a: Resources, b: Resources) -> Resources {
        Resources {
            energy: a.energy,
            living_space: a.living_space,
            minerals: if a.minerals - b.minerals < 0 {
                0
            } else {
                sat64(a.minerals - b.minerals)
            },
            food: if a.food - b.food < 0 {
                0
            } else {
                sat64(a.food - b.food)
            },
            water: if a.water - b.water < 0 {
                0
            } else {
                sat64(a.water - b.water)
            },
        }
    }

    /// Pointwise saturating scaling.
    pub open spec fn spec_scale(a: Resources, by: i64) -> Resources {
        Resources {
            energy: sat64(a.energy * by),
            living_space: sat64(a.living_space * by),
            minerals: sat64(a.minerals * by),
            food: sat64(a.food * by),
            water: sat64(a.water * by),
        }
    }

    /// Pointwise comparison: every field of `need` is covered by `self`.
    pub open spec fn spec_covers(self, need: Resources) -> bool {
        &&& self.energy >= need.energy
        &&& self.living_space >= need.living_space
        &&& self.minerals >= need.minerals
        &&& self.food >= need.food
        &&& self.water >= need.water
    }

    pub fn zero() -> (r: Resources)
        ensures
            r == (Resources { energy: 0, living_space: 0, minerals: 0, food: 0, water: 0 }),
    {
        Resources { energy: 0, living_space: 0, minerals: 0, food: 0, water: 0 }
    }

    pub fn energy(energy: i64) -> (r: Resources)
        ensures
            r == (Resources { energy, living_space: 0, minerals: 0, food: 0, water: 0 }),
    {
        Resources { energy, living_space: 0, minerals: 0, food: 0, water: 0 }
    }

    pub fn living_space(living_space: i64) -> (r: Resources)
        ensures
            r == (Resources { energy: 0, living_space, minerals: 0, food: 0, water: 0 }),
    {
        Resources { energy: 0, living_space, minerals: 0, food: 0, water: 0 }
    }

    pub fn minerals(minerals: i64) -> (r: Resources)
        ensures
            r == (Resources { energy: 0, living_space: 0, minerals, food: 0, water: 0 }),
    {
        Resources { energy: 0, living_space: 0, minerals, food: 0, water: 0 }
    }

    pub fn food(food: i64) -> (r: Resources)
        ensures
            r == (Resources { energy: 0, living_space: 0, minerals: 0, food, water: 0 }),
    {
        Resources { energy: 0, living_space: 0, minerals: 0, food, water: 0 }
    }

    pub fn water(water: i64) -> (r: Resources)
        ensures
            r == (Resources { energy: 0, living_space: 0, minerals: 0, food: 0, water }),
    {
        Resources { energy: 0, living_space: 0, minerals: 0, food: 0, water }
    }

    pub fn add(self, other: Resources) -> (r: Resources)
        ensures
            r == Resources::spec_add(self, other),
    {
        Resources {
            energy: sat_add(self.energy, other.energy),
            living_space: sat_add(self.living_space, other.living_space),
            minerals: sat_add(self.minerals, other.minerals),
            food: sat_add(self.food, other.food),
            water: sat_add(self.water, other.water),
        }
    }

    pub fn sub(self, other: Resources) -> (r: Resources)
        ensures
            r == Resources::spec_sub(self, other),
    {
        Resources {
            energy: sat_sub(self.energy, other.energy),
            living_space: sat_sub(self.living_space, other.living_space),
            minerals: sat_sub(self.minerals, other.minerals),
            food: sat_sub(self.food, other.food),
            water: sat_sub(self.water, other.water),
        }
    }

    /// Apply a turn's worth of production to the ledger: the flow fields are
    /// replaced by the incoming values, the stockpiles accumulate.
    pub fn store(&mut self, other: Resources)
        ensures
            *final(self) == Resources::spec_store(*old(self), other),
    {
        self.energy = other.energy;
        self.living_space = other.living_space;
        self.minerals = sat_add(self.minerals, other.minerals);
        self.food = sat_add(self.food, other.food);
        self.water = sat_add(self.water, other.water);
    }

    /// Spend a bundle from the ledger: stockpiles clamp at zero, flow fields
    /// keep their current values.
    pub fn spend(&mut self, other: Resources)
        ensures
            *final(self) == Resources::spec_spend(*old(self), other),
    {
        let m = sat_sub(self.minerals, other.minerals);
        let f = sat_sub(self.food, other.food);
        let w = sat_sub(self.water, other.water);
        self.minerals = if m < 0 {
            0
        } else {
            m
        };
        self.food = if f < 0 {
            0
        } else {
            f
        };
        self.water = if w < 0 {
            0
        } else {
            w
        };
    }

    pub fn scale(self, by: i64) -> (r: Resources)
        ensures
            r == Resources::spec_scale(self, by),
    {
        Resources {
            energy: sat_mul(self.energy, by),
            living_space: sat_mul(self.living_space, by),
            minerals: sat_mul(self.minerals, by),
            food: sat_mul(self.food, by),
            water: sat_mul(self.water, by),
        }
    }

    /// Pointwise comparison, executable form.
    pub fn covers(&self, need: &Resources) -> (r: bool)
        ensures
            r == self.spec_covers(*need),
    {
        self.energy >= need.energy && self.living_space >= need.living_space
            && self.minerals >= need.minerals && self.food >= need.food
            && self.water >= need.water
    }
}

} // verus!
