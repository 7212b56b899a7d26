//! The farm module: grows food from energy and water, boosted by crew
//! biology skill.

use crate::crew::CrewMember;
use crate::ids::Id;
use crate::resources::sat64;
use crate::resources::Resources;
use vstd::prelude::*;

use super::bonus_sum;
use super::clamp_level;
use super::eff_level;
use super::lemma_bonus_sum_step;
use super::ModuleAssignmentDescription;
use super::ModuleEnergyLevelDescription;
use super::ModulePriority;

verus! {

/// Marginal food bonus of one assigned member: the biology-based base
/// fraction `(1 + biology / 10) / 4`, scaled by mood.
pub open spec fn spec_bonus(c: CrewMember) -> int {
    c.spec_apply_mood(10 + c.stats.biology, 40)
}

/// Mood-scaled food bonus one crew member contributes on a farm.
pub fn production_bonus(crew: &CrewMember) -> (r: i64)
    ensures
        r == spec_bonus(*crew),
        -1_600_000_000_000 <= r <= 1_600_000_000_000,
{
    crew.apply_mood(10 + crew.stats.biology as i64, 40)
}

pub struct Farm {
    pub id: Id,
    pub energy_level: i64,
    pub name: String,
}

impl Farm {
    pub open spec fn spec_level(self) -> i64 {
        self.energy_level
    }

    /// One unit of energy and water per active energy level.
    pub open spec fn spec_consumption(self) -> Resources {
        Resources {
            energy: eff_level(self.energy_level) as i64,
            living_space: 0,
            minerals: 0,
            food: 0,
            water: eff_level(self.energy_level) as i64,
        }
    }

    /// Food equal to the energy level plus the bonuses of the first
    /// `energy_level` assigned members; nothing at all without crew.
    pub open spec fn spec_production(self, crew: Seq<CrewMember>) -> Resources {
        if crew.len() == 0 {
            Resources { energy: 0, living_space: 0, minerals: 0, food: 0, water: 0 }
        } else {
            Resources {
                energy: 0,
                living_space: 0,
                minerals: 0,
                food: sat64(
                    eff_level(self.energy_level) + bonus_sum(
                        crew,
                        eff_level(self.energy_level) as int,
                        |c: CrewMember| spec_bonus(c),
                    ),
                ),
                water: 0,
            }
        }
    }

    pub open spec fn spec_production_bonus(self, c: CrewMember) -> Resources {
        Resources {
            energy: 0,
            living_space: 0,
            minerals: 0,
            food: sat64(spec_bonus(c)),
            water: 0,
        }
    }

    pub fn new(name: &str) -> (r: Farm)
        ensures
            r.id@.len() == 21,
            r.energy_level == 1,
            r.name@ == name@,
    {
        Farm { id: Id::fresh(), energy_level: 1, name: name.to_owned() }
    }

    pub fn name(&self) -> (r: &String)
        ensures
            r@ == self.name@,
    {
        &self.name
    }

    pub fn priority(&self) -> (r: ModulePriority)
        ensures
            r == ModulePriority::Mid,
    {
        ModulePriority::Mid
    }

    pub fn energy_level(&self) -> (r: i64)
        ensures
            r == self.energy_level,
    {
        self.energy_level
    }

    pub fn set_energy_level(&mut self, level: i64)
        ensures
            *final(self) == (Farm { energy_level: eff_level(level) as i64, ..*old(self) }),
    {
        self.energy_level = clamp_level(level);
    }

    pub fn increment_energy_level(&mut self)
        ensures
            *final(self) == (Farm {
                energy_level: eff_level((eff_level(old(self).energy_level) + 1) as i64) as i64,
                ..*old(self)
            }),
    {
        let l = clamp_level(self.energy_level);
        self.set_energy_level(l + 1);
    }

    pub fn decrement_energy_level(&mut self)
        ensures
            *final(self) == (Farm {
                energy_level: eff_level((eff_level(old(self).energy_level) - 1) as i64) as i64,
                ..*old(self)
            }),
    {
        let l = clamp_level(self.energy_level);
        self.set_energy_level(l - 1);
    }

    pub fn consumption(&self) -> (r: Resources)
        ensures
            r == self.spec_consumption(),
    {
        let l = clamp_level(self.energy_level);
        Resources { energy: l, living_space: 0, minerals: 0, food: 0, water: l }
    }

    pub fn production(&self, crew: &Vec<CrewMember>) -> (r: Resources)
        ensures
            r == self.spec_production(crew@),
    {
        let ghost f = |c: CrewMember| spec_bonus(c);
        if crew.len() == 0 {
            return Resources::zero();
        }
        let l = clamp_level(self.energy_level);
        let cap: usize = if (l as usize) < crew.len() {
            l as usize
        } else {
            crew.len()
        };
        let mut total: i64 = l;
        let mut i: usize = 0;
        while i < cap
            invariant
                0 <= i <= cap,
                cap <= 3,
                cap <= crew.len(),
                cap == if (l as usize) < crew.len() {
                    l as int
                } else {
                    crew.len() as int
                },
                0 <= l <= 3,
                total == l + bonus_sum(crew@, i as int, f),
                l - (i as int) * 1_600_000_000_000 <= total <= l + (i as int) * 1_600_000_000_000,
                f == (|c: CrewMember| spec_bonus(c)),
            decreases cap - i,
        {
            let b = production_bonus(&crew[i]);
            proof {
                lemma_bonus_sum_step(crew@, i as int, f);
            }
            total = total + b;
            i = i + 1;
        }
        proof {
            super::lemma_bonus_sum_stops(crew@, eff_level(self.energy_level) as int, cap as int, f);
        }
        Resources { energy: 0, living_space: 0, minerals: 0, food: total, water: 0 }
    }

    pub fn production_bonus(&self, crew: &CrewMember) -> (r: Resources)
        ensures
            r == self.spec_production_bonus(*crew),
    {
        Resources {
            energy: 0,
            living_space: 0,
            minerals: 0,
            food: production_bonus(crew),
            water: 0,
        }
    }

    pub fn energy_levels(&self, crew: &Vec<CrewMember>) -> (r: Vec<ModuleEnergyLevelDescription>)
        ensures
            r@.len() == 3,
            forall|i: int|
                0 <= i < 3 ==> super::row_matches(
                    #[trigger] r@[i],
                    i,
                    eff_level(self.energy_level) as int,
                    crew@,
                    Resources { energy: 1, living_space: 0, minerals: 0, food: 0, water: 1 },
                    Resources { energy: 0, living_space: 0, minerals: 0, food: 1, water: 0 },
                    |c: CrewMember| self.spec_production_bonus(c),
                ),
    {
        let l = clamp_level(self.energy_level);
        let mut rows: Vec<ModuleEnergyLevelDescription> = Vec::new();
        let mut e: usize = 0;
        while e < 3
            invariant
                0 <= e <= 3,
                0 <= l <= 3,
                l == eff_level(self.energy_level),
                rows@.len() == e,
                forall|i: int|
                    0 <= i < e ==> super::row_matches(
                        #[trigger] rows@[i],
                        i,
                        eff_level(self.energy_level) as int,
                        crew@,
                        Resources { energy: 1, living_space: 0, minerals: 0, food: 0, water: 1 },
                        Resources { energy: 0, living_space: 0, minerals: 0, food: 1, water: 0 },
                        |c: CrewMember| self.spec_production_bonus(c),
                    ),
            decreases 3 - e,
        {
            if (e as i64) < l {
                let assignment = if e < crew.len() {
                    Some(
                        ModuleAssignmentDescription {
                            crew_name: crew[e].name.clone(),
                            production_bonus: self.production_bonus(&crew[e]),
                        },
                    )
                } else {
                    None
                };
                rows.push(
                    ModuleEnergyLevelDescription {
                        is_active: true,
                        consumption: Resources {
                            energy: 1,
                            living_space: 0,
                            minerals: 0,
                            food: 0,
                            water: 1,
                        },
                        production: Resources {
                            energy: 0,
                            living_space: 0,
                            minerals: 0,
                            food: 1,
                            water: 0,
                        },
                        assignment,
                    },
                );
            } else {
                rows.push(
                    ModuleEnergyLevelDescription {
                        is_active: false,
                        consumption: Resources::zero(),
                        production: Resources::zero(),
                        assignment: None,
                    },
                );
            }
            e = e + 1;
        }
        rows
    }

    pub fn available_slots(&self, crew: &Vec<CrewMember>) -> (r: usize)
        ensures
            r == if eff_level(self.energy_level) - crew@.len() > 0 {
                eff_level(self.energy_level) - crew@.len()
            } else {
                0int
            },
    {
        let l = clamp_level(self.energy_level);
        if crew.len() < l as usize {
            l as usize - crew.len()
        } else {
            0
        }
    }

    pub fn finish_turn(&self) {
    }
}

} // verus!
