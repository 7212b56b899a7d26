//! The living quarters module: turns energy into living space. It has no
//! crew slots; its output depends on the energy level alone.

use crate::crew::CrewMember;
use crate::ids::Id;
use crate::resources::Resources;
use vstd::prelude::*;

use super::clamp_level;
use super::eff_level;
use super::ModuleEnergyLevelDescription;
use super::ModulePriority;

verus! {

pub struct LivingQuarters {
    pub id: Id,
    pub energy_level: i64,
    pub name: String,
}

impl LivingQuarters {
    pub open spec fn spec_level(self) -> i64 {
        self.energy_level
    }

    /// One unit of energy per active energy level.
    pub open spec fn spec_consumption(self) -> Resources {
        Resources {
            energy: eff_level(self.energy_level) as i64,
            living_space: 0,
            minerals: 0,
            food: 0,
            water: 0,
        }
    }

    /// Two units of living space per active energy level, with or without
    /// crew.
    pub open spec fn spec_production(self, crew: Seq<CrewMember>) -> Resources {
        Resources {
            energy: 0,
            living_space: (2 * eff_level(self.energy_level)) as i64,
            minerals: 0,
            food: 0,
            water: 0,
        }
    }

    pub fn new(name: &str) -> (r: LivingQuarters)
        ensures
            r.id@.len() == 21,
            r.energy_level == 1,
            r.name@ == name@,
    {
        LivingQuarters { id: Id::fresh(), energy_level: 1, name: name.to_owned() }
    }

    pub fn name(&self) -> (r: &String)
        ensures
            r@ == self.name@,
    {
        &self.name
    }

    pub fn priority(&self) -> (r: ModulePriority)
        ensures
            r == ModulePriority::High,
    {
        ModulePriority::High
    }

    pub fn energy_level(&self) -> (r: i64)
        ensures
            r == self.energy_level,
    {
        self.energy_level
    }

    pub fn set_energy_level(&mut self, level: i64)
        ensures
            *final(self) == (LivingQuarters { energy_level: eff_level(level) as i64, ..*old(self) }),
    {
        self.energy_level = clamp_level(level);
    }

    pub fn increment_energy_level(&mut self)
        ensures
            *final(self) == (LivingQuarters {
                energy_level: eff_level((eff_level(old(self).energy_level) + 1) as i64) as i64,
                ..*old(self)
            }),
    {
        let l = clamp_level(self.energy_level);
        self.set_energy_level(l + 1);
    }

    pub fn decrement_energy_level(&mut self)
        ensures
            *final(self) == (LivingQuarters {
                energy_level: eff_level((eff_level(old(self).energy_level) - 1) as i64) as i64,
                ..*old(self)
            }),
    {
        let l = clamp_level(self.energy_level);
        self.set_energy_level(l - 1);
    }

    pub fn consumption(&self) -> (r: Resources)
        ensures
            r == self.spec_consumption(),
    {
        let l = clamp_level(self.energy_level);
        Resources { energy: l, living_space: 0, minerals: 0, food: 0, water: 0 }
    }

    pub fn production(&self, crew: &Vec<CrewMember>) -> (r: Resources)
        ensures
            r == self.spec_production(crew@),
    {
        let l = clamp_level(self.energy_level);
        Resources { energy: 0, living_space: 2 * l, minerals: 0, food: 0, water: 0 }
    }

    pub fn production_bonus(&self, crew: &CrewMember) -> (r: Resources)
        ensures
            r == (Resources { energy: 0, living_space: 0, minerals: 0, food: 0, water: 0 }),
    {
        Resources::zero()
    }

    pub fn energy_levels(&self, crew: &Vec<CrewMember>) -> (r: Vec<ModuleEnergyLevelDescription>)
        ensures
            r@.len() == 3,
            forall|i: int|
                0 <= i < 3 ==> super::row_matches_plain(
                    #[trigger] r@[i],
                    i,
                    eff_level(self.energy_level) as int,
                    Resources { energy: 1, living_space: 0, minerals: 0, food: 0, water: 0 },
                    Resources { energy: 0, living_space: 2, minerals: 0, food: 0, water: 0 },
                ),
    {
        let l = clamp_level(self.energy_level);
        let mut rows: Vec<ModuleEnergyLevelDescription> = Vec::new();
        let mut e: usize = 0;
        while e < 3
            invariant
                0 <= e <= 3,
                l == eff_level(self.energy_level),
                rows@.len() == e,
                forall|i: int|
                    0 <= i < e ==> super::row_matches_plain(
                        #[trigger] rows@[i],
                        i,
                        eff_level(self.energy_level) as int,
                        Resources { energy: 1, living_space: 0, minerals: 0, food: 0, water: 0 },
                        Resources { energy: 0, living_space: 2, minerals: 0, food: 0, water: 0 },
                    ),
            decreases 3 - e,
        {
            if (e as i64) < l {
                rows.push(
                    ModuleEnergyLevelDescription {
                        is_active: true,
                        consumption: Resources {
                            energy: 1,
                            living_space: 0,
                            minerals: 0,
                            food: 0,
                            water: 0,
                        },
                        production: Resources {
                            energy: 0,
                            living_space: 2,
                            minerals: 0,
                            food: 0,
                            water: 0,
                        },
                        assignment: None,
                    },
                );
            } else {
                rows.push(
                    ModuleEnergyLevelDescription {
                        is_active: false,
                        consumption: Resources::zero(),
                        production: Resources::zero(),
                        assignment: None,
                    },
                );
            }
            e = e + 1;
        }
        rows
    }

    pub fn available_slots(&self, crew: &Vec<CrewMember>) -> (r: usize)
        ensures
            r == 0,
    {
        0
    }

    pub fn finish_turn(&self) {
    }
}

} // verus!
