//! Outpost modules.
//!
//! Each module kind has a clamped 0..3 energy level, a fixed priority class
//! used only for power-cut ordering, and kind-specific consumption and
//! production formulas. Production scales with the energy level; at most
//! `energy_level` assigned crew members contribute a mood-scaled marginal
//! bonus each, and the crew-eligible kinds produce nothing at all without
//! at least one assignment.

use crate::crew::CrewMember;
use crate::crew::StatusEffect;
use crate::ids::Id;
use crate::resources::Resources;
use vstd::prelude::*;

pub mod farm;
pub mod holo_deck;
pub mod living_quarters;
pub mod mine;
pub mod power_generator;
pub mod water_extractor;

use farm::Farm;
use holo_deck::HoloDeck;
use living_quarters::LivingQuarters;
use mine::Mine;
use power_generator::PowerGenerator;
use water_extractor::WaterExtractor;

verus! {

/// The effective energy level: whatever is stored, the formulas only ever
/// see a value clamped into 0..3.
pub open spec fn eff_level(l: i64) -> int {
    if l < 0 {
        0
    } else if l > 3 {
        3
    } else {
        l as int
    }
}

/// Clamp an energy level into the 0..3 band.
pub fn clamp_level(l: i64) -> (r: i64)
    ensures
        r == eff_level(l),
        0 <= r <= 3,
{
    if l < 0 {
        0
    } else if l > 3 {
        3
    } else {
        l
    }
}

/// Priority class for the power-cutback ordering: under scarcity, `Low`
/// modules are throttled before `Mid`, and `Mid` before `High`.
#[derive(Clone, Copy, Debug, PartialEq, Eq, Structural)]
pub enum ModulePriority {
    High,
    Mid,
    Low,
}

impl ModulePriority {
    /// Numeric rank; a larger rank is cut earlier.
    pub open spec fn spec_rank(self) -> int {
        match self {
            ModulePriority::High => 0,
            ModulePriority::Mid => 1,
            ModulePriority::Low => 2,
        }
    }

    pub fn rank(self) -> (r: u8)
        ensures
            r == self.spec_rank(),
    {
        match self {
            ModulePriority::High => 0,
            ModulePriority::Mid => 1,
            ModulePriority::Low => 2,
        }
    }
}

/// Sum of the marginal bonuses of the first `k` members of `crew` under the
/// per-kind bonus formula `f`.
pub open spec fn bonus_sum(crew: Seq<CrewMember>, k: int, f: spec_fn(CrewMember) -> int) -> int
    decreases crew.len(),
{
    if k <= 0 || crew.len() == 0 {
        0
    } else {
        f(crew.first()) + bonus_sum(crew.drop_first(), k - 1, f)
    }
}

/// Extending the summed prefix by one member adds that member's bonus.
pub proof fn lemma_bonus_sum_step(crew: Seq<CrewMember>, i: int, f: spec_fn(CrewMember) -> int)
    requires
        0 <= i < crew.len(),
    ensures
        bonus_sum(crew, i + 1, f) == bonus_sum(crew, i, f) + f(crew[i]),
    decreases i,
{
    if i == 0 {
        assert(bonus_sum(crew, 0, f) == 0);
        assert(bonus_sum(crew.drop_first(), 0, f) == 0);
        assert(bonus_sum(crew, 1, f) == f(crew.first()));
    } else {
        lemma_bonus_sum_step(crew.drop_first(), i - 1, f);
        assert(crew.drop_first()[i - 1] == crew[i]);
        assert(bonus_sum(crew, i + 1, f) == f(crew.first()) + bonus_sum(crew.drop_first(), i, f));
        assert(bonus_sum(crew, i, f) == f(crew.first()) + bonus_sum(crew.drop_first(), i - 1, f));
    }
}

/// Every summand of `bonus_sum` bounded by `b` bounds the sum by `3 * b`
/// (the prefix length never exceeds the 0..3 energy level).
pub proof fn lemma_bonus_sum_bound(
    crew: Seq<CrewMember>,
    k: int,
    f: spec_fn(CrewMember) -> int,
    b: int,
)
    requires
        k <= 3,
        b >= 0,
        forall|c: CrewMember| -b <= #[trigger] f(c) <= b,
    ensures
        -3 * b <= bonus_sum(crew, k, f) <= 3 * b,
    decreases crew.len(),
{
    if k > 0 && crew.len() > 0 {
        assert(-b <= f(crew.first()) <= b);
        lemma_bonus_sum_2_bound(crew.drop_first(), k - 1, f, b);
    }
}

proof fn lemma_bonus_sum_2_bound(
    crew: Seq<CrewMember>,
    k: int,
    f: spec_fn(CrewMember) -> int,
    b: int,
)
    requires
        k <= 2,
        b >= 0,
        forall|c: CrewMember| -b <= #[trigger] f(c) <= b,
    ensures
        -2 * b <= bonus_sum(crew, k, f) <= 2 * b,
    decreases crew.len(),
{
    if k > 0 && crew.len() > 0 {
        assert(-b <= f(crew.first()) <= b);
        lemma_bonus_sum_1_bound(crew.drop_first(), k - 1, f, b);
    }
}

proof fn lemma_bonus_sum_1_bound(
    crew: Seq<CrewMember>,
    k: int,
    f: spec_fn(CrewMember) -> int,
    b: int,
)
    requires
        k <= 1,
        b >= 0,
        forall|c: CrewMember| -b <= #[trigger] f(c) <= b,
    ensures
        -b <= bonus_sum(crew, k, f) <= b,
    decreases crew.len(),
{
    if k > 0 && crew.len() > 0 {
        assert(-b <= f(crew.first()) <= b);
        assert(bonus_sum(crew.drop_first(), k - 1, f) == 0);
    }
}

/// Two prefix sums agree when they cover the same members: either the counts
/// are equal, or both already cover the whole crew.
pub proof fn lemma_bonus_sum_stops(
    crew: Seq<CrewMember>,
    k1: int,
    k2: int,
    f: spec_fn(CrewMember) -> int,
)
    requires
        k1 == k2 || (k1 >= crew.len() && k2 >= crew.len()),
    ensures
        bonus_sum(crew, k1, f) == bonus_sum(crew, k2, f),
    decreases crew.len(),
{
    if k1 != k2 && crew.len() > 0 && k1 > 0 && k2 > 0 {
        lemma_bonus_sum_stops(crew.drop_first(), k1 - 1, k2 - 1, f);
    }
}

/// What one row of an `energy_levels` breakdown must hold for a crew-eligible
/// module with the given per-slot consumption and production and per-member
/// bonus.
pub open spec fn row_matches(
    row: ModuleEnergyLevelDescription,
    i: int,
    eff: int,
    crew: Seq<CrewMember>,
    unit_cons: Resources,
    unit_prod: Resources,
    bonus: spec_fn(CrewMember) -> Resources,
) -> bool {
    if i < eff {
        &&& row.is_active
        &&& row.consumption == unit_cons
        &&& row.production == unit_prod
        &&& if i < crew.len() {
            match row.assignment {
                Some(a) => a.crew_name == crew[i].name && a.production_bonus == bonus(crew[i]),
                None => false,
            }
        } else {
            row.assignment is None
        }
    } else {
        &&& !row.is_active
        &&& row.consumption == (Resources {
            energy: 0,
            living_space: 0,
            minerals: 0,
            food: 0,
            water: 0,
        })
        &&& row.production == (Resources {
            energy: 0,
            living_space: 0,
            minerals: 0,
            food: 0,
            water: 0,
        })
        &&& row.assignment is None
    }
}

/// What one row of an `energy_levels` breakdown must hold for a module
/// without crew slots.
pub open spec fn row_matches_plain(
    row: ModuleEnergyLevelDescription,
    i: int,
    eff: int,
    unit_cons: Resources,
    unit_prod: Resources,
) -> bool {
    if i < eff {
        &&& row.is_active
        &&& row.consumption == unit_cons
        &&& row.production == unit_prod
        &&& row.assignment is None
    } else {
        &&& !row.is_active
        &&& row.consumption == (Resources {
            energy: 0,
            living_space: 0,
            minerals: 0,
            food: 0,
            water: 0,
        })
        &&& row.production == (Resources {
            energy: 0,
            living_space: 0,
            minerals: 0,
            food: 0,
            water: 0,
        })
        &&& row.assignment is None
    }
}

/// Per-slot consumption of one active energy level of a module.
pub open spec fn unit_consumption(m: Module) -> Resources {
    match m {
        Module::PowerGenerator(_) => Resources {
            energy: 0,
            living_space: 0,
            minerals: 1,
            food: 0,
            water: 0,
        },
        Module::LivingQuarters(_) => Resources {
            energy: 1,
            living_space: 0,
            minerals: 0,
            food: 0,
            water: 0,
        },
        Module::Farm(_) => Resources { energy: 1, living_space: 0, minerals: 0, food: 0, water: 1 },
        Module::Mine(_) => Resources { energy: 1, living_space: 0, minerals: 0, food: 0, water: 0 },
        Module::WaterExtractor(_) => Resources {
            energy: 1,
            living_space: 0,
            minerals: 0,
            food: 0,
            water: 0,
        },
        Module::HoloDeck(_) => Resources {
            energy: 2,
            living_space: 0,
            minerals: 0,
            food: 0,
            water: 0,
        },
    }
}

/// Per-slot production of one active energy level of a module.
pub open spec fn unit_production(m: Module) -> Resources {
    match m {
        Module::PowerGenerator(_) => Resources {
            energy: 2,
            living_space: 0,
            minerals: 0,
            food: 0,
            water: 0,
        },
        Module::LivingQuarters(_) => Resources {
            energy: 0,
            living_space: 2,
            minerals: 0,
            food: 0,
            water: 0,
        },
        Module::Farm(_) => Resources { energy: 0, living_space: 0, minerals: 0, food: 1, water: 0 },
        Module::Mine(_) => Resources { energy: 0, living_space: 0, minerals: 1, food: 0, water: 0 },
        Module::WaterExtractor(_) => Resources {
            energy: 0,
            living_space: 0,
            minerals: 0,
            food: 0,
            water: 1,
        },
        Module::HoloDeck(_) => Resources {
            energy: 0,
            living_space: 0,
            minerals: 0,
            food: 0,
            water: 0,
        },
    }
}

/// Whether the kind seats crew in its per-slot breakdown.
pub open spec fn has_crew_slots(m: Module) -> bool {
    match m {
        Module::LivingQuarters(_) | Module::HoloDeck(_) => false,
        _ => true,
    }
}

/// What one row of any module's energy-level breakdown must hold: active
/// rows up to the effective level carry the kind's per-slot consumption and
/// production, and, for crew-seating kinds, the member at that slot with
/// its marginal bonus.
pub open spec fn module_row_matches(
    m: Module,
    crew: Seq<CrewMember>,
    i: int,
    row: ModuleEnergyLevelDescription,
) -> bool {
    if i < eff_level(m.spec_level()) {
        &&& row.is_active
        &&& row.consumption == unit_consumption(m)
        &&& row.production == unit_production(m)
        &&& if has_crew_slots(m) && i < crew.len() {
            match row.assignment {
                Some(a) => a.crew_name == crew[i].name && a.production_bonus
                    == m.spec_production_bonus(crew[i]),
                None => false,
            }
        } else {
            row.assignment is None
        }
    } else {
        &&& !row.is_active
        &&& row.consumption == (Resources {
            energy: 0,
            living_space: 0,
            minerals: 0,
            food: 0,
            water: 0,
        })
        &&& row.production == (Resources {
            energy: 0,
            living_space: 0,
            minerals: 0,
            food: 0,
            water: 0,
        })
        &&& row.assignment is None
    }
}

/// One row of the per-slot energy level breakdown shown for a module; a pure
/// presentation projection.
pub struct ModuleEnergyLevelDescription {
    pub is_active: bool,
    pub consumption: Resources,
    pub production: Resources,
    pub assignment: Option<ModuleAssignmentDescription>,
}

pub struct ModuleAssignmentDescription {
    pub crew_name: String,
    pub production_bonus: Resources,
}

impl ModuleEnergyLevelDescription {
    pub fn assigned_crew_name(&self) -> (r: String)
        ensures
            match self.assignment {
                Some(a) => r@ == a.crew_name@,
                None => r@ == "empty"@,
            },
    {
        match &self.assignment {
            Some(a) => a.crew_name.clone(),
            None => "empty".to_owned(),
        }
    }

    /// Net per-slot flow: production minus consumption plus the assigned
    /// member's bonus.
    pub fn flow(&self) -> (r: Resources)
        ensures
            r == Resources::spec_add(
                Resources::spec_sub(self.production, self.consumption),
                match self.assignment {
                    Some(a) => a.production_bonus,
                    None => Resources { energy: 0, living_space: 0, minerals: 0, food: 0, water: 0 },
                },
            ),
    {
        let bonus = match &self.assignment {
            Some(a) => a.production_bonus,
            None => Resources::zero(),
        };
        self.production.sub(self.consumption).add(bonus)
    }
}

/// A module of the outpost: one of the six kinds, tagged by variant.
pub enum Module {
    PowerGenerator(PowerGenerator),
    LivingQuarters(LivingQuarters),
    Farm(Farm),
    Mine(Mine),
    WaterExtractor(WaterExtractor),
    HoloDeck(HoloDeck),
}

impl Module {
    pub open spec fn sid(self) -> Seq<char> {
        match self {
            Module::PowerGenerator(m) => m.id@,
            Module::LivingQuarters(m) => m.id@,
            Module::Farm(m) => m.id@,
            Module::Mine(m) => m.id@,
            Module::WaterExtractor(m) => m.id@,
            Module::HoloDeck(m) => m.id@,
        }
    }

    pub open spec fn spec_name(self) -> Seq<char> {
        match self {
            Module::PowerGenerator(m) => m.name@,
            Module::LivingQuarters(m) => m.name@,
            Module::Farm(m) => m.name@,
            Module::Mine(m) => m.name@,
            Module::WaterExtractor(m) => m.name@,
            Module::HoloDeck(m) => m.name@,
        }
    }

    /// The stored energy level (clamped on every write, so 0..3 for every
    /// value built through this crate's operations).
    pub open spec fn spec_level(self) -> i64 {
        match self {
            Module::PowerGenerator(m) => m.spec_level(),
            Module::LivingQuarters(m) => m.spec_level(),
            Module::Farm(m) => m.spec_level(),
            Module::Mine(m) => m.spec_level(),
            Module::WaterExtractor(m) => m.spec_level(),
            Module::HoloDeck(m) => m.spec_level(),
        }
    }

    pub open spec fn spec_priority(self) -> ModulePriority {
        match self {
            Module::PowerGenerator(_) => ModulePriority::High,
            Module::LivingQuarters(_) => ModulePriority::High,
            Module::Farm(_) => ModulePriority::Mid,
            Module::Mine(_) => ModulePriority::Low,
            Module::WaterExtractor(_) => ModulePriority::Mid,
            Module::HoloDeck(_) => ModulePriority::Low,
        }
    }

    /// Deterministic consumption: a function of the energy level only.
    pub open spec fn spec_consumption(self) -> Resources {
        match self {
            Module::PowerGenerator(m) => m.spec_consumption(),
            Module::LivingQuarters(m) => m.spec_consumption(),
            Module::Farm(m) => m.spec_consumption(),
            Module::Mine(m) => m.spec_consumption(),
            Module::WaterExtractor(m) => m.spec_consumption(),
            Module::HoloDeck(m) => m.spec_consumption(),
        }
    }

    /// Production for a given list of assigned crew.
    pub open spec fn spec_production(self, crew: Seq<CrewMember>) -> Resources {
        match self {
            Module::PowerGenerator(m) => m.spec_production(crew),
            Module::LivingQuarters(m) => m.spec_production(crew),
            Module::Farm(m) => m.spec_production(crew),
            Module::Mine(m) => m.spec_production(crew),
            Module::WaterExtractor(m) => m.spec_production(crew),
            Module::HoloDeck(m) => m.spec_production(crew),
        }
    }

    /// Marginal contribution of one hypothetical assignment.
    pub open spec fn spec_production_bonus(self, c: CrewMember) -> Resources {
        match self {
            Module::PowerGenerator(m) => m.spec_production_bonus(c),
            Module::LivingQuarters(_) => Resources {
                energy: 0,
                living_space: 0,
                minerals: 0,
                food: 0,
                water: 0,
            },
            Module::Farm(m) => m.spec_production_bonus(c),
            Module::Mine(m) => m.spec_production_bonus(c),
            Module::WaterExtractor(m) => m.spec_production_bonus(c),
            Module::HoloDeck(_) => Resources {
                energy: 0,
                living_space: 0,
                minerals: 0,
                food: 0,
                water: 0,
            },
        }
    }

    pub fn name(&self) -> (r: &String)
        ensures
            r@ == self.spec_name(),
    {
        match self {
            Module::PowerGenerator(m) => &m.name,
            Module::LivingQuarters(m) => &m.name,
            Module::Farm(m) => &m.name,
            Module::Mine(m) => &m.name,
            Module::WaterExtractor(m) => &m.name,
            Module::HoloDeck(m) => &m.name,
        }
    }

    pub fn priority(&self) -> (r: ModulePriority)
        ensures
            r == self.spec_priority(),
    {
        match self {
            Module::PowerGenerator(m) => m.priority(),
            Module::LivingQuarters(m) => m.priority(),
            Module::Farm(m) => m.priority(),
            Module::Mine(m) => m.priority(),
            Module::WaterExtractor(m) => m.priority(),
            Module::HoloDeck(m) => m.priority(),
        }
    }

    pub fn energy_level(&self) -> (r: i64)
        ensures
            r == eff_level(self.spec_level()),
    {
        match self {
            Module::PowerGenerator(m) => clamp_level(m.energy_level()),
            Module::LivingQuarters(m) => clamp_level(m.energy_level()),
            Module::Farm(m) => clamp_level(m.energy_level()),
            Module::Mine(m) => clamp_level(m.energy_level()),
            Module::WaterExtractor(m) => clamp_level(m.energy_level()),
            Module::HoloDeck(m) => clamp_level(m.energy_level()),
        }
    }

    /// The module with its level replaced, used to phrase the mutators.
    pub open spec fn with_level(self, l: int) -> Module {
        match self {
            Module::PowerGenerator(m) => Module::PowerGenerator(
                PowerGenerator { energy_level: l as i64, ..m },
            ),
            Module::LivingQuarters(m) => Module::LivingQuarters(
                LivingQuarters { energy_level: l as i64, ..m },
            ),
            Module::Farm(m) => Module::Farm(Farm { energy_level: l as i64, ..m }),
            Module::Mine(m) => Module::Mine(Mine { energy_level: l as i64, ..m }),
            Module::WaterExtractor(m) => Module::WaterExtractor(
                WaterExtractor { energy_level: l as i64, ..m },
            ),
            Module::HoloDeck(m) => Module::HoloDeck(HoloDeck { energy_level: l as i64, ..m }),
        }
    }

    pub fn set_energy_level(&mut self, level: i64)
        ensures
            *final(self) == old(self).with_level(eff_level(level)),
    {
        match self {
            Module::PowerGenerator(m) => m.set_energy_level(level),
            Module::LivingQuarters(m) => m.set_energy_level(level),
            Module::Farm(m) => m.set_energy_level(level),
            Module::Mine(m) => m.set_energy_level(level),
            Module::WaterExtractor(m) => m.set_energy_level(level),
            Module::HoloDeck(m) => m.set_energy_level(level),
        }
    }

    pub fn increment_energy_level(&mut self)
        ensures
            *final(self) == old(self).with_level(eff_level((eff_level(old(self).spec_level()) + 1) as i64)),
    {
        let l = self.energy_level();
        self.set_energy_level(l + 1);
    }

    pub fn decrement_energy_level(&mut self)
        ensures
            *final(self) == old(self).with_level(eff_level((eff_level(old(self).spec_level()) - 1) as i64)),
    {
        let l = self.energy_level();
        self.set_energy_level(l - 1);
    }

    pub fn consumption(&self) -> (r: Resources)
        ensures
            r == self.spec_consumption(),
    {
        match self {
            Module::PowerGenerator(m) => m.consumption(),
            Module::LivingQuarters(m) => m.consumption(),
            Module::Farm(m) => m.consumption(),
            Module::Mine(m) => m.consumption(),
            Module::WaterExtractor(m) => m.consumption(),
            Module::HoloDeck(m) => m.consumption(),
        }
    }

    pub fn production(&self, crew: &Vec<CrewMember>) -> (r: Resources)
        ensures
            r == self.spec_production(crew@),
    {
        match self {
            Module::PowerGenerator(m) => m.production(crew),
            Module::LivingQuarters(m) => m.production(crew),
            Module::Farm(m) => m.production(crew),
            Module::Mine(m) => m.production(crew),
            Module::WaterExtractor(m) => m.production(crew),
            Module::HoloDeck(m) => m.production(crew),
        }
    }

    pub fn production_bonus(&self, c: &CrewMember) -> (r: Resources)
        ensures
            r == self.spec_production_bonus(*c),
    {
        match self {
            Module::PowerGenerator(m) => m.production_bonus(c),
            Module::LivingQuarters(m) => m.production_bonus(c),
            Module::Farm(m) => m.production_bonus(c),
            Module::Mine(m) => m.production_bonus(c),
            Module::WaterExtractor(m) => m.production_bonus(c),
            Module::HoloDeck(m) => m.production_bonus(c),
        }
    }

    pub fn energy_levels(&self, crew: &Vec<CrewMember>) -> (r: Vec<ModuleEnergyLevelDescription>)
        ensures
            r@.len() == 3,
            forall|i: int| 0 <= i < 3 ==> module_row_matches(*self, crew@, i, #[trigger] r@[i]),
    {
        match self {
            Module::PowerGenerator(m) => {
                let rows = m.energy_levels(crew);
                proof {
                    assert forall|i: int|
                        0 <= i < 3 implies module_row_matches(*self, crew@, i, rows@[i]) by {
                        assert(row_matches(
                            rows@[i],
                            i,
                            eff_level(m.energy_level) as int,
                            crew@,
                            unit_consumption(*self),
                            unit_production(*self),
                            |c: CrewMember| m.spec_production_bonus(c),
                        ));
                    };
                }
                rows
            },
            Module::LivingQuarters(m) => {
                let rows = m.energy_levels(crew);
                proof {
                    assert forall|i: int|
                        0 <= i < 3 implies module_row_matches(*self, crew@, i, rows@[i]) by {
                        assert(row_matches_plain(
                            rows@[i],
                            i,
                            eff_level(m.energy_level) as int,
                            unit_consumption(*self),
                            unit_production(*self),
                        ));
                    };
                }
                rows
            },
            Module::Farm(m) => {
                let rows = m.energy_levels(crew);
                proof {
                    assert forall|i: int|
                        0 <= i < 3 implies module_row_matches(*self, crew@, i, rows@[i]) by {
                        assert(row_matches(
                            rows@[i],
                            i,
                            eff_level(m.energy_level) as int,
                            crew@,
                            unit_consumption(*self),
                            unit_production(*self),
                            |c: CrewMember| m.spec_production_bonus(c),
                        ));
                    };
                }
                rows
            },
            Module::Mine(m) => {
                let rows = m.energy_levels(crew);
                proof {
                    assert forall|i: int|
                        0 <= i < 3 implies module_row_matches(*self, crew@, i, rows@[i]) by {
                        assert(row_matches(
                            rows@[i],
                            i,
                            eff_level(m.energy_level) as int,
                            crew@,
                            unit_consumption(*self),
                            unit_production(*self),
                            |c: CrewMember| m.spec_production_bonus(c),
                        ));
                    };
                }
                rows
            },
            Module::WaterExtractor(m) => {
                let rows = m.energy_levels(crew);
                proof {
                    assert forall|i: int|
                        0 <= i < 3 implies module_row_matches(*self, crew@, i, rows@[i]) by {
                        assert(row_matches(
                            rows@[i],
                            i,
                            eff_level(m.energy_level) as int,
                            crew@,
                            unit_consumption(*self),
                            unit_production(*self),
                            |c: CrewMember| m.spec_production_bonus(c),
                        ));
                    };
                }
                rows
            },
            Module::HoloDeck(m) => {
                let rows = m.energy_levels(crew);
                proof {
                    assert forall|i: int|
                        0 <= i < 3 implies module_row_matches(*self, crew@, i, rows@[i]) by {
                        assert(row_matches_plain(
                            rows@[i],
                            i,
                            eff_level(m.energy_level) as int,
                            unit_consumption(*self),
                            unit_production(*self),
                        ));
                    };
                }
                rows
            },
        }
    }

    pub fn available_slots(&self, crew: &Vec<CrewMember>) -> (r: usize)
        ensures
            r == match self {
                Module::LivingQuarters(_) | Module::HoloDeck(_) => 0int,
                _ => if eff_level(self.spec_level()) - crew@.len() > 0 {
                    eff_level(self.spec_level()) - crew@.len()
                } else {
                    0int
                },
            },
    {
        match self {
            Module::PowerGenerator(m) => m.available_slots(crew),
            Module::LivingQuarters(m) => m.available_slots(crew),
            Module::Farm(m) => m.available_slots(crew),
            Module::Mine(m) => m.available_slots(crew),
            Module::WaterExtractor(m) => m.available_slots(crew),
            Module::HoloDeck(m) => m.available_slots(crew),
        }
    }

    /// The passive effect the module exerts on its assigned crew, if any.
    pub fn status_effect(&self) -> (r: Option<StatusEffect>)
        ensures
            match self {
                Module::HoloDeck(m) => r matches Some(e) && e == StatusEffect::GainStat(m.stats),
                _ => r is None,
            },
    {
        match self {
            Module::HoloDeck(m) => Some(StatusEffect::GainStat(m.stats)),
            _ => None,
        }
    }

    /// Modules hold no additional per-turn state of their own.
    pub fn finish_turn(&self) {
    }
}

impl crate::store::Entity for Module {
    open spec fn eid(&self) -> Seq<char> {
        self.sid()
    }

    fn id(&self) -> (r: &Id)
        ensures
            r@ == self.eid(),
    {
        match self {
            Module::PowerGenerator(m) => &m.id,
            Module::LivingQuarters(m) => &m.id,
            Module::Farm(m) => &m.id,
            Module::Mine(m) => &m.id,
            Module::WaterExtractor(m) => &m.id,
            Module::HoloDeck(m) => &m.id,
        }
    }
}

} // verus!
