//! The game aggregate: outpost, sector and explicit game state, with the
//! command surface the input layer drives.

use crate::crew::CrewMember;
use crate::game_state::GameState;
use crate::modules::Module;
use crate::outpost::Outpost;
use crate::resources::Resources;
use crate::sector::Sector;
use crate::sector::SectorType;
use crate::sector::SubSector;
use crate::sector::MissionType;
use crate::store::find_id;
use vstd::prelude::*;

verus! {

/// Relies on `rand::random` over the thread-local generator for the one
/// truly random draw of a game: the seed of a fresh campaign. The result is
/// random; nothing is assumed of it.
#[verifier::external_body]
fn fresh_seed() -> u64 {
    rand::random::<u64>()
}

pub struct Game {
    pub state: GameState,
    pub outpost: Outpost,
    pub sector: Sector,
}

impl Game {
    /// Start a new campaign from a known seed: the starter outpost extended
    /// with a water extractor and a farm (crew a and b assigned to them),
    /// and a 3x3ish explored neighbourhood with one mining mission.
    pub fn new_with_seed(seed: u64) -> (r: Game)
        ensures
            r.state.current_turn == 0,
            r.state.rng == crate::rng::SeededRng::spec_from_seed(seed),
            r.state.seed@ == crate::game_state::base64_of(crate::game_state::spec_be_bytes(seed)),
            r.state.logs@ == Seq::<String>::empty(),
            r.outpost.modules@.len() == 4,
            r.outpost.modules@[0] matches Module::PowerGenerator(g) && g.energy_level == 1,
            r.outpost.modules@[1] matches Module::LivingQuarters(q) && q.energy_level == 2,
            r.outpost.modules@[2] matches Module::WaterExtractor(w) && w.energy_level == 1
                && w.name@ == "water"@,
            r.outpost.modules@[3] matches Module::Farm(f) && f.energy_level == 1 && f.name@
                == "farm"@,
            r.outpost.crew@.len() == 4,
            r.outpost.crew@[0].name@ == "a"@,
            r.outpost.crew@[0].assigned_module matches Some(m) && m@ == r.outpost.modules@[2].sid(),
            r.outpost.crew@[1].name@ == "b"@,
            r.outpost.crew@[1].assigned_module matches Some(m) && m@ == r.outpost.modules@[3].sid(),
            r.outpost.crew@[2].assigned_module is None,
            r.outpost.crew@[3].assigned_module is None,
            forall|j: int|
                0 <= j < 4 ==> {
                    &&& (#[trigger] r.outpost.crew@[j]).health == 5
                    &&& !r.outpost.crew@[j].is_hungry
                    &&& !r.outpost.crew@[j].is_thirsty
                    &&& !r.outpost.crew@[j].is_tired
                    &&& r.outpost.crew@[j].stats == crate::stats::Stats::spec_zero()
                },
            r.outpost.resources == (Resources {
                energy: 0,
                living_space: 0,
                minerals: 10,
                food: 10,
                water: 10,
            }),
            r.outpost.cemetery@ == Seq::<CrewMember>::empty(),
            r.outpost.mission_preparation is None,
            r.sector.sub_sectors_map@.len() == 8,
            r.sector.missions@.len() == 1,
            r.sector.missions@[0].mission_type == MissionType::Mining(5u16, 10u16),
            r.sector.active_mission is None,
    {
        let state = GameState::new(seed);
        Game { state, outpost: Game::starter_outpost(), sector: Game::starter_sector() }
    }

    /// The starter outpost of a new campaign.
    fn starter_outpost() -> (r: Outpost)
        ensures
            r.modules@.len() == 4,
            r.modules@[0] matches Module::PowerGenerator(g) && g.energy_level == 1,
            r.modules@[1] matches Module::LivingQuarters(q) && q.energy_level == 2,
            r.modules@[2] matches Module::WaterExtractor(w) && w.energy_level == 1 && w.name@
                == "water"@,
            r.modules@[3] matches Module::Farm(f) && f.energy_level == 1 && f.name@ == "farm"@,
            r.crew@.len() == 4,
            r.crew@[0].name@ == "a"@,
            r.crew@[0].assigned_module matches Some(m) && m@ == r.modules@[2].sid(),
            r.crew@[1].name@ == "b"@,
            r.crew@[1].assigned_module matches Some(m) && m@ == r.modules@[3].sid(),
            r.crew@[2].assigned_module is None,
            r.crew@[3].assigned_module is None,
            forall|j: int|
                0 <= j < 4 ==> {
                    &&& (#[trigger] r.crew@[j]).health == 5
                    &&& !r.crew@[j].is_hungry
                    &&& !r.crew@[j].is_thirsty
                    &&& !r.crew@[j].is_tired
                    &&& r.crew@[j].stats == crate::stats::Stats::spec_zero()
                },
            r.resources == (Resources {
                energy: 0,
                living_space: 0,
                minerals: 10,
                food: 10,
                water: 10,
            }),
            r.cemetery@ == Seq::<CrewMember>::empty(),
            r.mission_preparation is None,
    {
        let mut outpost = Outpost::new();

        outpost.add_module(
            Module::WaterExtractor(crate::modules::water_extractor::WaterExtractor::new("water")),
        );
        outpost.add_module(Module::Farm(crate::modules::farm::Farm::new("farm")));

        let water_id = outpost.module_id_by_index(2);
        let farm_id = outpost.module_id_by_index(3);

        let mut a = outpost.crew.get_at(0).clone();
        a.assign_to_module(&water_id);
        outpost.crew.set_at(0, a);

        let mut b = outpost.crew.get_at(1).clone();
        b.assign_to_module(&farm_id);
        outpost.crew.set_at(1, b);

        outpost
    }

    /// The starter neighbourhood of a new campaign.
    fn starter_sector() -> (r: Sector)
        ensures
            r.sub_sectors_map@.len() == 8,
            r.missions@.len() == 1,
            r.missions@[0].mission_type == MissionType::Mining(5u16, 10u16),
            r.active_mission is None,
    {
        let mut sector = Sector::new();
        sector.add_subsector(-1, -1, SubSector::new(SectorType::StellarRift));
        sector.add_subsector(1, -1, SubSector::new(SectorType::StellarRift));
        sector.add_subsector(0, 0, SubSector::new(SectorType::SolarSystem));
        sector.add_subsector(1, 0, SubSector::new(SectorType::EmptySpace));
        sector.add_subsector(-1, 1, SubSector::new(SectorType::StellarRift));
        sector.add_subsector(0, 1, SubSector::new(SectorType::SolarSystem));
        sector.add_subsector(1, 1, SubSector::new(SectorType::EmptySpace));
        sector.add_subsector(0, -1, SubSector::new(SectorType::SolarSystem));

        proof {
            crate::sector::lemma_map_find_props(
                sector.sub_sectors_map@,
                crate::sector::Coordinates { x: 0i32, y: -1i32 },
            );
            assert(sector.sub_sectors_map@[7].0 == (crate::sector::Coordinates { x: 0i32, y: -1i32 }));
        }
        sector.add_mission(0, -1, MissionType::Mining(5, 10));

        sector
    }

    /// Start a new campaign from a fresh random seed.
    pub fn new() -> (r: Game)
        ensures
            r.state.current_turn == 0,
            r.outpost.modules@.len() == 4,
            r.outpost.crew@.len() == 4,
            r.sector.sub_sectors_map@.len() == 8,
            r.sector.missions@.len() == 1,
            r.sector.active_mission is None,
            r.outpost.mission_preparation is None,
    {
        Game::new_with_seed(fresh_seed())
    }

    /// Resolve one global turn: the outpost first, then the sector's
    /// expedition tick, then the turn counter.
    pub fn finish_turn(&mut self)
        ensures
            ({
                let prod = crate::outpost::sum_production(
                    old(self).outpost.modules@,
                    old(self).outpost.crew@,
                );
                let res1 = Resources::spec_store(old(self).outpost.resources, prod);
                let aged = crate::outpost::aged_seq(old(self).outpost.crew@);
                let alive = aged.filter(crate::crew::alive_pred());
                let dead = aged.filter(crate::crew::dead_pred());
                let ms2 = crate::outpost::spec_support_modules(old(self).outpost.modules@, res1);
                let res2 = Resources::spec_spend(res1, crate::outpost::sum_consumption(ms2));
                let served = crate::outpost::spec_support_crew(alive, res2);
                let ticked = Sector::spec_sector_tick(
                    old(self).sector.missions@,
                    old(self).sector.active_mission,
                    old(self).state.rng,
                );
                &&& final(self).outpost.modules@ == ms2
                &&& final(self).outpost.crew@ == served.0
                &&& final(self).outpost.resources == served.1
                &&& final(self).outpost.cemetery@ == old(self).outpost.cemetery@ + dead
                &&& final(self).outpost.mission_preparation == old(
                    self,
                ).outpost.mission_preparation
                &&& final(self).sector.active_mission == ticked.0
                &&& final(self).sector.missions == old(self).sector.missions
                &&& final(self).sector.sub_sectors == old(self).sector.sub_sectors
                &&& final(self).sector.sub_sectors_map == old(self).sector.sub_sectors_map
                &&& final(self).state.rng == ticked.1
                &&& final(self).state.seed == old(self).state.seed
                &&& final(self).state.logs == old(self).state.logs
                &&& final(self).state.current_turn == (if old(self).state.current_turn < u64::MAX {
                    old(self).state.current_turn + 1
                } else {
                    old(self).state.current_turn as int
                })
            }),
    {
        self.outpost.finish_turn(&mut self.state);
        self.sector.finish_turn(&mut self.state);
        self.state.finish_turn();
    }

    /// Raise the energy level of the module at a position.
    pub fn increment_energy_level(&mut self, module_index: usize)
        requires
            module_index < old(self).outpost.modules@.len(),
        ensures
            ({
                let ms = old(self).outpost.modules@;
                let i = find_id(ms, ms[module_index as int].sid());
                let m = ms[i];
                final(self).outpost.modules@ == ms.update(
                    i,
                    m.with_level(
                        crate::modules::eff_level(
                            (crate::modules::eff_level(m.spec_level()) + 1) as i64,
                        ),
                    ),
                )
            }),
            final(self).outpost.resources == old(self).outpost.resources,
            final(self).outpost.crew == old(self).outpost.crew,
            final(self).outpost.cemetery == old(self).outpost.cemetery,
            final(self).outpost.mission_preparation == old(self).outpost.mission_preparation,
            final(self).sector == old(self).sector,
            final(self).state == old(self).state,
    {
        let id = self.outpost.module_id_by_index(module_index);
        proof {
            crate::store::lemma_find_id_props(self.outpost.modules@, id@);
        }
        self.outpost.increment_energy_level(&id)
    }

    /// Lower the energy level of the module at a position.
    pub fn decrement_energy_level(&mut self, module_index: usize)
        requires
            module_index < old(self).outpost.modules@.len(),
        ensures
            ({
                let ms = old(self).outpost.modules@;
                let i = find_id(ms, ms[module_index as int].sid());
                final(self).outpost.modules@ == ms.update(
                    i,
                    crate::outpost::dec_module(ms[i]),
                )
            }),
            final(self).outpost.resources == old(self).outpost.resources,
            final(self).outpost.crew == old(self).outpost.crew,
            final(self).outpost.cemetery == old(self).outpost.cemetery,
            final(self).outpost.mission_preparation == old(self).outpost.mission_preparation,
            final(self).sector == old(self).sector,
            final(self).state == old(self).state,
    {
        let id = self.outpost.module_id_by_index(module_index);
        proof {
            crate::store::lemma_find_id_props(self.outpost.modules@, id@);
        }
        self.outpost.decrement_energy_level(&id)
    }

    /// Assign the crew member at a position to the module at a position.
    pub fn assign_crew_member_to_module(&mut self, crew_member_index: usize, module_index: usize)
        requires
            crew_member_index < old(self).outpost.crew@.len(),
            module_index < old(self).outpost.modules@.len(),
        ensures
            ({
                let crew = old(self).outpost.crew@;
                let i = find_id(crew, crew[crew_member_index as int].id@);
                &&& final(self).outpost.crew@ == crew.update(
                    i,
                    CrewMember {
                        assigned_module: final(self).outpost.crew@[i].assigned_module,
                        ..crew[i]
                    },
                )
                &&& final(self).outpost.crew@[i].assigned_module matches Some(m) && m@ == old(
                    self,
                ).outpost.modules@[module_index as int].sid()
            }),
            final(self).outpost.resources == old(self).outpost.resources,
            final(self).outpost.modules == old(self).outpost.modules,
            final(self).outpost.cemetery == old(self).outpost.cemetery,
            final(self).outpost.mission_preparation == old(self).outpost.mission_preparation,
            final(self).sector == old(self).sector,
            final(self).state == old(self).state,
    {
        let crew_member_id = self.outpost.crew_member_id_by_index(crew_member_index);
        let module_id = self.outpost.module_id_by_index(module_index);
        proof {
            crate::store::lemma_find_id_props(self.outpost.crew@, crew_member_id@);
        }
        self.outpost.assign_crew_member_to_module(&crew_member_id, &module_id)
    }

    /// Lengthen the planned expedition duration.
    pub fn increment_prepare_for_turns(&mut self)
        ensures
            match old(self).outpost.mission_preparation {
                Some(p) => final(self).outpost.mission_preparation matches Some(q) && q.mission_id
                    == p.mission_id && q.crew_ids == p.crew_ids && q.turns == (if p.turns
                    < u16::MAX {
                    (p.turns + 1) as u16
                } else {
                    p.turns
                }),
                None => final(self).outpost.mission_preparation is None,
            },
            final(self).outpost.resources == old(self).outpost.resources,
            final(self).outpost.modules == old(self).outpost.modules,
            final(self).outpost.crew == old(self).outpost.crew,
            final(self).outpost.cemetery == old(self).outpost.cemetery,
            final(self).sector == old(self).sector,
            final(self).state == old(self).state,
    {
        self.outpost.increment_prepare_for_turns()
    }

    /// Shorten the planned expedition duration.
    pub fn decrement_prepare_for_turns(&mut self)
        ensures
            match old(self).outpost.mission_preparation {
                Some(p) => final(self).outpost.mission_preparation matches Some(q) && q.mission_id
                    == p.mission_id && q.crew_ids == p.crew_ids && q.turns == (if p.turns > 0 {
                    (p.turns - 1) as u16
                } else {
                    0u16
                }),
                None => final(self).outpost.mission_preparation is None,
            },
            final(self).outpost.resources == old(self).outpost.resources,
            final(self).outpost.modules == old(self).outpost.modules,
            final(self).outpost.crew == old(self).outpost.crew,
            final(self).outpost.cemetery == old(self).outpost.cemetery,
            final(self).sector == old(self).sector,
            final(self).state == old(self).state,
    {
        self.outpost.decrement_prepare_for_turns()
    }

    /// Add the crew member at a position to the open mission preparation.
    pub fn prepare_crew_member_for_mission(&mut self, crew_member_index: usize)
        requires
            crew_member_index < old(self).outpost.crew@.len(),
        ensures
            match old(self).outpost.mission_preparation {
                Some(p) => final(self).outpost.mission_preparation matches Some(q) && q.mission_id
                    == p.mission_id && q.turns == p.turns && q.crew_ids@.len() == p.crew_ids@.len()
                    + 1 && q.crew_ids@.last()@ == old(self).outpost.crew@[crew_member_index as int].id@,
                None => final(self).outpost.mission_preparation is None,
            },
            final(self).outpost.resources == old(self).outpost.resources,
            final(self).outpost.modules == old(self).outpost.modules,
            final(self).outpost.crew == old(self).outpost.crew,
            final(self).outpost.cemetery == old(self).outpost.cemetery,
            final(self).sector == old(self).sector,
            final(self).state == old(self).state,
    {
        let crew_member_id = self.outpost.crew_member_id_by_index(crew_member_index);
        self.outpost.prepare_crew_member_for_mission(&crew_member_id)
    }

    /// Commit the open preparation against the mission list at the given
    /// coordinates: with a valid selection and an open preparation the
    /// expedition starts (and is recorded in the sector); otherwise nothing
    /// changes and `false` comes back.
    pub fn start_mission(&mut self, x: i32, y: i32, mission_index: usize) -> (r: bool)
        ensures
            r == (mission_index < crate::sector::spec_missions_at(
                old(self).sector.sub_sectors_map@,
                old(self).sector.missions@,
                crate::sector::Coordinates { x, y },
            ).len() && old(self).outpost.mission_preparation is Some),
            !r ==> *final(self) == *old(self),
            r ==> final(self).sector.active_mission is Some,
            r ==> final(self).outpost.mission_preparation is None,
    {
        let missions = self.sector.missions_at(x, y);
        if mission_index >= missions.len() {
            return false;
        }
        let started = self.outpost.start_mission();
        match started {
            Some(active_mission) => {
                self.sector.set_active_mission(active_mission);
                true
            },
            None => false,
        }
    }
}

} // verus!
