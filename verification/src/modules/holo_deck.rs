//! The holo deck module: consumes energy and produces nothing; instead it
//! exerts a passive skill-gain effect on its assigned crew.

use crate::crew::CrewMember;
use crate::ids::Id;
use crate::resources::Resources;
use crate::stats::Stats;
use vstd::prelude::*;

use super::clamp_level;
use super::eff_level;
use super::ModuleEnergyLevelDescription;
use super::ModulePriority;

verus! {

pub struct HoloDeck {
    pub id: Id,
    pub energy_level: i64,
    pub name: String,
    pub stats: Stats,
}

impl HoloDeck {
    pub open spec fn spec_level(self) -> i64 {
        self.energy_level
    }

    /// Two units of energy per active energy level.
    pub open spec fn spec_consumption(self) -> Resources {
        Resources {
            energy: (2 * eff_level(self.energy_level)) as i64,
            living_space: 0,
            minerals: 0,
            food: 0,
            water: 0,
        }
    }

    /// No resource production at all.
    pub open spec fn spec_production(self, crew: Seq<CrewMember>) -> Resources {
        Resources { energy: 0, living_space: 0, minerals: 0, food: 0, water: 0 }
    }

    pub fn new(name: &str) -> (r: HoloDeck)
        ensures
            r.id@.len() == 21,
            r.energy_level == 1,
            r.name@ == name@,
            r.stats == Stats::spec_zero(),
    {
        HoloDeck { id: Id::fresh(), energy_level: 1, name: name.to_owned(), stats: Stats::zero() }
    }

    /// Set the skill bundle granted to assigned crew each effect application.
    pub fn set_stats(&mut self, stats: Stats)
        ensures
            *final(self) == (HoloDeck { stats, ..*old(self) }),
    {
        self.stats = stats;
    }

    pub fn name(&self) -> (r: &String)
        ensures
            r@ == self.name@,
    {
        &self.name
    }

    pub fn priority(&self) -> (r: ModulePriority)
        ensures
            r == ModulePriority::Low,
    {
        ModulePriority::Low
    }

    pub fn energy_level(&self) -> (r: i64)
        ensures
            r == self.energy_level,
    {
        self.energy_level
    }

    pub fn set_energy_level(&mut self, level: i64)
        ensures
            *final(self) == (HoloDeck { energy_level: eff_level(level) as i64, ..*old(self) }),
    {
        self.energy_level = clamp_level(level);
    }

    pub fn increment_energy_level(&mut self)
        ensures
            *final(self) == (HoloDeck {
                energy_level: eff_level((eff_level(old(self).energy_level) + 1) as i64) as i64,
                ..*old(self)
            }),
    {
        let l = clamp_level(self.energy_level);
        self.set_energy_level(l + 1);
    }

    pub fn decrement_energy_level(&mut self)
        ensures
            *final(self) == (HoloDeck {
                energy_level: eff_level((eff_level(old(self).energy_level) - 1) as i64) as i64,
                ..*old(self)
            }),
    {
        let l = clamp_level(self.energy_level);
        self.set_energy_level(l - 1);
    }

    pub fn consumption(&self) -> (r: Resources)
        ensures
            r == self.spec_consumption(),
    {
        let l = clamp_level(self.energy_level);
        Resources { energy: 2 * l, living_space: 0, minerals: 0, food: 0, water: 0 }
    }

    pub fn production(&self, crew: &Vec<CrewMember>) -> (r: Resources)
        ensures
            r == self.spec_production(crew@),
    {
        Resources::zero()
    }

    pub fn production_bonus(&self, crew: &CrewMember) -> (r: Resources)
        ensures
            r == (Resources { energy: 0, living_space: 0, minerals: 0, food: 0, water: 0 }),
    {
        Resources::zero()
    }

    pub fn energy_levels(&self, crew: &Vec<CrewMember>) -> (r: Vec<ModuleEnergyLevelDescription>)
        ensures
            r@.len() == 3,
            forall|i: int|
                0 <= i < 3 ==> super::row_matches_plain(
                    #[trigger] r@[i],
                    i,
                    eff_level(self.energy_level) as int,
                    Resources { energy: 2, living_space: 0, minerals: 0, food: 0, water: 0 },
                    Resources { energy: 0, living_space: 0, minerals: 0, food: 0, water: 0 },
                ),
    {
        let l = clamp_level(self.energy_level);
        let mut rows: Vec<ModuleEnergyLevelDescription> = Vec::new();
        let mut e: usize = 0;
        while e < 3
            invariant
                0 <= e <= 3,
                l == eff_level(self.energy_level),
                rows@.len() == e,
                forall|i: int|
                    0 <= i < e ==> super::row_matches_plain(
                        #[trigger] rows@[i],
                        i,
                        eff_level(self.energy_level) as int,
                        Resources { energy: 2, living_space: 0, minerals: 0, food: 0, water: 0 },
                        Resources { energy: 0, living_space: 0, minerals: 0, food: 0, water: 0 },
                    ),
            decreases 3 - e,
        {
            if (e as i64) < l {
                rows.push(
                    ModuleEnergyLevelDescription {
                        is_active: true,
                        consumption: Resources {
                            energy: 2,
                            living_space: 0,
                            minerals: 0,
                            food: 0,
                            water: 0,
                        },
                        production: Resources::zero(),
                        assignment: None,
                    },
                );
            } else {
                rows.push(
                    ModuleEnergyLevelDescription {
                        is_active: false,
                        consumption: Resources::zero(),
                        production: Resources::zero(),
                        assignment: None,
                    },
                );
            }
            e = e + 1;
        }
        rows
    }

    pub fn available_slots(&self, crew: &Vec<CrewMember>) -> (r: usize)
        ensures
            r == 0,
    {
        0
    }

    pub fn finish_turn(&self) {
    }
}

} // verus!
