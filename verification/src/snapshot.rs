//! Structural snapshots of the whole game for the persistence collaborator.
//!
//! A snapshot holds plain values only (strings, integers, flags, tagged
//! module kinds), so an outer layer can serialize it however it likes. The
//! round trip is exact: rehydrating a snapshot restores every module's kind
//! and energy level, every crew member and assignment, the ledger, the
//! mission state and the generator's continuation point.

use crate::crew::CrewMember;
use crate::game::Game;
use crate::game_state::GameState;
use crate::ids::Id;
use crate::modules::holo_deck::HoloDeck;
use crate::modules::farm::Farm;
use crate::modules::living_quarters::LivingQuarters;
use crate::modules::mine::Mine;
use crate::modules::power_generator::PowerGenerator;
use crate::modules::water_extractor::WaterExtractor;
use crate::modules::Module;
use crate::outpost::MissionPreparation;
use crate::outpost::Outpost;
use crate::resources::Resources;
use crate::rng::SeededRng;
use crate::sector::ActiveMission;
use crate::sector::ActiveMissionState;
use crate::sector::Coordinates;
use crate::sector::Mission;
use crate::sector::MissionType;
use crate::sector::Sector;
use crate::sector::SectorType;
use crate::sector::SubSector;
use crate::stats::Stats;
use crate::store::SortableStorage;
use crate::store::Storage;
use vstd::prelude::*;

verus! {

/// The persisted discriminant of a module.
#[derive(Clone, Copy, Debug, PartialEq, Eq, Structural)]
pub enum ModuleKind {
    PowerGenerator,
    LivingQuarters,
    Farm,
    Mine,
    WaterExtractor,
    HoloDeck,
}

pub struct ModuleSnapshot {
    pub kind: ModuleKind,
    pub id: String,
    pub name: String,
    pub energy_level: i64,
    pub stats: Stats,
}

pub struct CrewSnapshot {
    pub id: String,
    pub stats: Stats,
    pub name: String,
    pub is_hungry: bool,
    pub is_thirsty: bool,
    pub is_tired: bool,
    pub health: i64,
    pub assigned_module: Option<String>,
    pub assigned_mission: Option<String>,
}

pub struct MissionPreparationSnapshot {
    pub crew_ids: Vec<String>,
    pub mission_id: String,
    pub turns: u16,
}

pub struct OutpostSnapshot {
    pub resources: Resources,
    pub modules: Vec<ModuleSnapshot>,
    pub crew: Vec<CrewSnapshot>,
    pub cemetery: Vec<CrewSnapshot>,
    pub mission_preparation: Option<MissionPreparationSnapshot>,
}

pub struct SubSectorSnapshot {
    pub sector_type: SectorType,
    pub id: String,
}

pub struct MissionSnapshot {
    pub id: String,
    pub sub_sector_id: String,
    pub mission_type: MissionType,
}

pub struct ActiveMissionSnapshot {
    pub mission_id: String,
    pub resources: Resources,
    pub distance: u16,
    pub state: ActiveMissionState,
    pub crew: Vec<CrewSnapshot>,
}

pub struct SectorSnapshot {
    pub sub_sectors: Vec<SubSectorSnapshot>,
    pub sub_sectors_map: Vec<(i32, i32, String)>,
    pub missions: Vec<MissionSnapshot>,
    pub active_mission: Option<ActiveMissionSnapshot>,
}

pub struct GameStateSnapshot {
    pub seed: String,
    pub logs: Vec<String>,
    pub current_turn: u64,
    pub rng_state: u128,
    pub rng_increment: u128,
}

pub struct GameSnapshot {
    pub state: GameStateSnapshot,
    pub outpost: OutpostSnapshot,
    pub sector: SectorSnapshot,
}

/// The snapshot of one crew member.
pub open spec fn spec_snap_crew(c: CrewMember) -> CrewSnapshot {
    CrewSnapshot {
        id: c.id.text_of(),
        stats: c.stats,
        name: c.name,
        is_hungry: c.is_hungry,
        is_thirsty: c.is_thirsty,
        is_tired: c.is_tired,
        health: c.health,
        assigned_module: match c.assigned_module {
            Some(i) => Some(i.text_of()),
            None => None,
        },
        assigned_mission: match c.assigned_mission {
            Some(i) => Some(i.text_of()),
            None => None,
        },
    }
}

/// The crew member a snapshot rebuilds.
pub open spec fn spec_restore_crew(s: CrewSnapshot) -> CrewMember {
    CrewMember {
        id: Id::spec_from_text(s.id),
        stats: s.stats,
        name: s.name,
        is_hungry: s.is_hungry,
        is_thirsty: s.is_thirsty,
        is_tired: s.is_tired,
        health: s.health,
        assigned_module: match s.assigned_module {
            Some(t) => Some(Id::spec_from_text(t)),
            None => None,
        },
        assigned_mission: match s.assigned_mission {
            Some(t) => Some(Id::spec_from_text(t)),
            None => None,
        },
    }
}

/// Snapshots of crew members rebuild them exactly.
pub proof fn lemma_crew_roundtrip(c: CrewMember)
    ensures
        spec_restore_crew(spec_snap_crew(c)) == c,
{
    Id::lemma_text_roundtrip(c.id);
    match c.assigned_module {
        Some(i) => Id::lemma_text_roundtrip(i),
        None => {},
    }
    match c.assigned_mission {
        Some(i) => Id::lemma_text_roundtrip(i),
        None => {},
    }
}

/// The snapshot of one module.
pub open spec fn spec_snap_module(m: Module) -> ModuleSnapshot {
    match m {
        Module::PowerGenerator(k) => ModuleSnapshot {
            kind: ModuleKind::PowerGenerator,
            id: k.id.text_of(),
            name: k.name,
            energy_level: k.energy_level,
            stats: Stats::spec_zero(),
        },
        Module::LivingQuarters(k) => ModuleSnapshot {
            kind: ModuleKind::LivingQuarters,
            id: k.id.text_of(),
            name: k.name,
            energy_level: k.energy_level,
            stats: Stats::spec_zero(),
        },
        Module::Farm(k) => ModuleSnapshot {
            kind: ModuleKind::Farm,
            id: k.id.text_of(),
            name: k.name,
            energy_level: k.energy_level,
            stats: Stats::spec_zero(),
        },
        Module::Mine(k) => ModuleSnapshot {
            kind: ModuleKind::Mine,
            id: k.id.text_of(),
            name: k.name,
            energy_level: k.energy_level,
            stats: Stats::spec_zero(),
        },
        Module::WaterExtractor(k) => ModuleSnapshot {
            kind: ModuleKind::WaterExtractor,
            id: k.id.text_of(),
            name: k.name,
            energy_level: k.energy_level,
            stats: Stats::spec_zero(),
        },
        Module::HoloDeck(k) => ModuleSnapshot {
            kind: ModuleKind::HoloDeck,
            id: k.id.text_of(),
            name: k.name,
            energy_level: k.energy_level,
            stats: k.stats,
        },
    }
}

/// The module a snapshot rebuilds.
pub open spec fn spec_restore_module(s: ModuleSnapshot) -> Module {
    match s.kind {
        ModuleKind::PowerGenerator => Module::PowerGenerator(
            PowerGenerator {
                id: Id::spec_from_text(s.id),
                name: s.name,
                energy_level: s.energy_level,
            },
        ),
        ModuleKind::LivingQuarters => Module::LivingQuarters(
            LivingQuarters {
                id: Id::spec_from_text(s.id),
                name: s.name,
                energy_level: s.energy_level,
            },
        ),
        ModuleKind::Farm => Module::Farm(
            Farm { id: Id::spec_from_text(s.id), name: s.name, energy_level: s.energy_level },
        ),
        ModuleKind::Mine => Module::Mine(
            Mine { id: Id::spec_from_text(s.id), name: s.name, energy_level: s.energy_level },
        ),
        ModuleKind::WaterExtractor => Module::WaterExtractor(
            WaterExtractor {
                id: Id::spec_from_text(s.id),
                name: s.name,
                energy_level: s.energy_level,
            },
        ),
        ModuleKind::HoloDeck => Module::HoloDeck(
            HoloDeck {
                id: Id::spec_from_text(s.id),
                name: s.name,
                energy_level: s.energy_level,
                stats: s.stats,
            },
        ),
    }
}

/// Snapshots of modules rebuild them exactly.
pub proof fn lemma_module_roundtrip(m: Module)
    ensures
        spec_restore_module(spec_snap_module(m)) == m,
{
    match m {
        Module::PowerGenerator(k) => Id::lemma_text_roundtrip(k.id),
        Module::LivingQuarters(k) => Id::lemma_text_roundtrip(k.id),
        Module::Farm(k) => Id::lemma_text_roundtrip(k.id),
        Module::Mine(k) => Id::lemma_text_roundtrip(k.id),
        Module::WaterExtractor(k) => Id::lemma_text_roundtrip(k.id),
        Module::HoloDeck(k) => Id::lemma_text_roundtrip(k.id),
    }
}

/// The snapshot of one sub-sector.
pub open spec fn spec_snap_subsector(s: SubSector) -> SubSectorSnapshot {
    SubSectorSnapshot { sector_type: s.sector_type, id: s.id.text_of() }
}

/// The sub-sector a snapshot rebuilds.
pub open spec fn spec_restore_subsector(s: SubSectorSnapshot) -> SubSector {
    SubSector { sector_type: s.sector_type, id: Id::spec_from_text(s.id) }
}

/// The snapshot of one mission.
pub open spec fn spec_snap_mission(m: Mission) -> MissionSnapshot {
    MissionSnapshot {
        id: m.id.text_of(),
        sub_sector_id: m.sub_sector_id.text_of(),
        mission_type: m.mission_type,
    }
}

/// The mission a snapshot rebuilds.
pub open spec fn spec_restore_mission(s: MissionSnapshot) -> Mission {
    Mission {
        id: Id::spec_from_text(s.id),
        sub_sector_id: Id::spec_from_text(s.sub_sector_id),
        mission_type: s.mission_type,
    }
}

/// Take the snapshot of a crew list.
fn snap_crew_list(crew: &Storage<CrewMember>) -> (r: Vec<CrewSnapshot>)
    ensures
        r@.len() == crew@.len(),
        forall|i: int| 0 <= i < r@.len() ==> r@[i] == spec_snap_crew(#[trigger] crew@[i]),
{
    let mut out: Vec<CrewSnapshot> = Vec::new();
    let n = crew.len();
    let mut i: usize = 0;
    while i < n
        invariant
            0 <= i <= n,
            n == crew@.len(),
            crew_snaps_match(out@, crew@, i as int),
        decreases n - i,
    {
        let c = crew.get_at(i);
        out.push(snap_crew_one(c));
        i = i + 1;
    }
    out
}

/// Pointwise relation between the first `k` crew members and their
/// snapshots.
pub open spec fn crew_snaps_match(out: Seq<CrewSnapshot>, crew: Seq<CrewMember>, k: int) -> bool {
    &&& out.len() == k
    &&& forall|i: int| 0 <= i < k ==> out[i] == spec_snap_crew(#[trigger] crew[i])
}

/// Take the snapshot of one crew member.
fn snap_crew_one(c: &CrewMember) -> (r: CrewSnapshot)
    ensures
        r == spec_snap_crew(*c),
{
    CrewSnapshot {
        id: c.id.as_text().clone(),
        stats: c.stats,
        name: c.name.clone(),
        is_hungry: c.is_hungry,
        is_thirsty: c.is_thirsty,
        is_tired: c.is_tired,
        health: c.health,
        assigned_module: match &c.assigned_module {
            Some(i) => Some(i.as_text().clone()),
            None => None,
        },
        assigned_mission: match &c.assigned_mission {
            Some(i) => Some(i.as_text().clone()),
            None => None,
        },
    }
}

/// Rebuild one crew member from its snapshot.
fn restore_crew_one(s: CrewSnapshot) -> (r: CrewMember)
    ensures
        r == spec_restore_crew(s),
{
    CrewMember {
        id: Id::from_text(s.id),
        stats: s.stats,
        name: s.name,
        is_hungry: s.is_hungry,
        is_thirsty: s.is_thirsty,
        is_tired: s.is_tired,
        health: s.health,
        assigned_module: match s.assigned_module {
            Some(t) => Some(Id::from_text(t)),
            None => None,
        },
        assigned_mission: match s.assigned_mission {
            Some(t) => Some(Id::from_text(t)),
            None => None,
        },
    }
}

/// Rebuild a crew list from snapshots.
fn restore_crew_list(snaps: Vec<CrewSnapshot>) -> (r: Vec<CrewMember>)
    ensures
        r@.len() == snaps@.len(),
        forall|i: int| 0 <= i < r@.len() ==> r@[i] == spec_restore_crew(#[trigger] snaps@[i]),
{
    let mut out: Vec<CrewMember> = Vec::new();
    let mut rest = snaps;
    let ghost orig = rest@;
    let mut i: usize = 0;
    let n = rest.len();
    while i < n
        invariant
            0 <= i <= n,
            n == orig.len(),
            rest@ =~= orig.subrange(i as int, n as int),
            out@.len() == i,
            forall|j: int| 0 <= j < i ==> out@[j] == spec_restore_crew(#[trigger] orig[j]),
        decreases n - i,
    {
        proof {
            assert(rest@[0] == orig[i as int]);
        }
        let s = rest.remove(0);
        out.push(restore_crew_one(s));
        proof {
            assert(rest@ =~= orig.subrange(i + 1, n as int));
        }
        i = i + 1;
    }
    out
}

/// Take the snapshot of one module.
fn snap_module_one(m: &Module) -> (r: ModuleSnapshot)
    ensures
        r == spec_snap_module(*m),
{
    match m {
        Module::PowerGenerator(k) => ModuleSnapshot {
            kind: ModuleKind::PowerGenerator,
            id: k.id.as_text().clone(),
            name: k.name.clone(),
            energy_level: k.energy_level,
            stats: Stats::zero(),
        },
        Module::LivingQuarters(k) => ModuleSnapshot {
            kind: ModuleKind::LivingQuarters,
            id: k.id.as_text().clone(),
            name: k.name.clone(),
            energy_level: k.energy_level,
            stats: Stats::zero(),
        },
        Module::Farm(k) => ModuleSnapshot {
            kind: ModuleKind::Farm,
            id: k.id.as_text().clone(),
            name: k.name.clone(),
            energy_level: k.energy_level,
            stats: Stats::zero(),
        },
        Module::Mine(k) => ModuleSnapshot {
            kind: ModuleKind::Mine,
            id: k.id.as_text().clone(),
            name: k.name.clone(),
            energy_level: k.energy_level,
            stats: Stats::zero(),
        },
        Module::WaterExtractor(k) => ModuleSnapshot {
            kind: ModuleKind::WaterExtractor,
            id: k.id.as_text().clone(),
            name: k.name.clone(),
            energy_level: k.energy_level,
            stats: Stats::zero(),
        },
        Module::HoloDeck(k) => ModuleSnapshot {
            kind: ModuleKind::HoloDeck,
            id: k.id.as_text().clone(),
            name: k.name.clone(),
            energy_level: k.energy_level,
            stats: k.stats,
        },
    }
}

/// Rebuild one module from its snapshot.
fn restore_module_one(s: ModuleSnapshot) -> (r: Module)
    ensures
        r == spec_restore_module(s),
{
    match s.kind {
        ModuleKind::PowerGenerator => Module::PowerGenerator(
            PowerGenerator { id: Id::from_text(s.id), name: s.name, energy_level: s.energy_level },
        ),
        ModuleKind::LivingQuarters => Module::LivingQuarters(
            LivingQuarters { id: Id::from_text(s.id), name: s.name, energy_level: s.energy_level },
        ),
        ModuleKind::Farm => Module::Farm(
            Farm { id: Id::from_text(s.id), name: s.name, energy_level: s.energy_level },
        ),
        ModuleKind::Mine => Module::Mine(
            Mine { id: Id::from_text(s.id), name: s.name, energy_level: s.energy_level },
        ),
        ModuleKind::WaterExtractor => Module::WaterExtractor(
            WaterExtractor { id: Id::from_text(s.id), name: s.name, energy_level: s.energy_level },
        ),
        ModuleKind::HoloDeck => Module::HoloDeck(
            HoloDeck {
                id: Id::from_text(s.id),
                name: s.name,
                energy_level: s.energy_level,
                stats: s.stats,
            },
        ),
    }
}

/// What a taken snapshot holds of the live game, component by component.
pub open spec fn snap_rel(g: Game, r: GameSnapshot) -> bool {
    &&& r.state.seed == g.state.seed
    &&& r.state.logs@ == g.state.logs@
    &&& r.state.current_turn == g.state.current_turn
    &&& r.state.rng_state == g.state.rng.state
    &&& r.state.rng_increment == g.state.rng.increment
    &&& r.outpost.resources == g.outpost.resources
    &&& r.outpost.modules@.len() == g.outpost.modules@.len()
    &&& forall|i: int|
        0 <= i < r.outpost.modules@.len() ==> r.outpost.modules@[i] == spec_snap_module(
            #[trigger] g.outpost.modules@[i],
        )
    &&& crew_snaps_match(r.outpost.crew@, g.outpost.crew@, g.outpost.crew@.len() as int)
    &&& crew_snaps_match(r.outpost.cemetery@, g.outpost.cemetery@, g.outpost.cemetery@.len() as int)
    &&& match g.outpost.mission_preparation {
        Some(p) => {
            &&& r.outpost.mission_preparation matches Some(q)
            &&& q.mission_id == p.mission_id.text_of()
            &&& q.turns == p.turns
            &&& q.crew_ids@.len() == p.crew_ids@.len()
            &&& forall|i: int|
                0 <= i < q.crew_ids@.len() ==> q.crew_ids@[i] == (
                #[trigger] p.crew_ids@[i]).text_of()
        },
        None => r.outpost.mission_preparation is None,
    }
    &&& r.sector.sub_sectors@.len() == g.sector.sub_sectors@.len()
    &&& forall|i: int|
        0 <= i < r.sector.sub_sectors@.len() ==> r.sector.sub_sectors@[i] == spec_snap_subsector(
            #[trigger] g.sector.sub_sectors@[i],
        )
    &&& r.sector.sub_sectors_map@.len() == g.sector.sub_sectors_map@.len()
    &&& forall|i: int|
        0 <= i < r.sector.sub_sectors_map@.len() ==> (#[trigger] r.sector.sub_sectors_map@[i]) == (
        g.sector.sub_sectors_map@[i].0.x,
        g.sector.sub_sectors_map@[i].0.y,
        g.sector.sub_sectors_map@[i].1.text_of(),
        )
    &&& r.sector.missions@.len() == g.sector.missions@.len()
    &&& forall|i: int|
        0 <= i < r.sector.missions@.len() ==> r.sector.missions@[i] == spec_snap_mission(
            #[trigger] g.sector.missions@[i],
        )
    &&& match g.sector.active_mission {
        Some(am) => {
            &&& r.sector.active_mission matches Some(s)
            &&& s.mission_id == am.mission_id.text_of()
            &&& s.resources == am.resources
            &&& s.distance == am.distance
            &&& s.state == am.state
            &&& crew_snaps_match(s.crew@, am.crew@, am.crew@.len() as int)
        },
        None => r.sector.active_mission is None,
    }
}

/// What a rehydrated game holds of the snapshot, component by component.
pub open spec fn restore_rel(s: GameSnapshot, r: Game) -> bool {
    &&& r.state.seed == s.state.seed
    &&& r.state.logs@ == s.state.logs@
    &&& r.state.current_turn == s.state.current_turn
    &&& r.state.rng == (SeededRng { state: s.state.rng_state, increment: s.state.rng_increment })
    &&& r.outpost.resources == s.outpost.resources
    &&& r.outpost.modules@.len() == s.outpost.modules@.len()
    &&& forall|i: int|
        0 <= i < r.outpost.modules@.len() ==> r.outpost.modules@[i] == spec_restore_module(
            #[trigger] s.outpost.modules@[i],
        )
    &&& r.outpost.crew@.len() == s.outpost.crew@.len()
    &&& forall|i: int|
        0 <= i < r.outpost.crew@.len() ==> r.outpost.crew@[i] == spec_restore_crew(
            #[trigger] s.outpost.crew@[i],
        )
    &&& r.outpost.cemetery@.len() == s.outpost.cemetery@.len()
    &&& forall|i: int|
        0 <= i < r.outpost.cemetery@.len() ==> r.outpost.cemetery@[i] == spec_restore_crew(
            #[trigger] s.outpost.cemetery@[i],
        )
    &&& match s.outpost.mission_preparation {
        Some(p) => {
            &&& r.outpost.mission_preparation matches Some(q)
            &&& q.mission_id == Id::spec_from_text(p.mission_id)
            &&& q.turns == p.turns
            &&& q.crew_ids@.len() == p.crew_ids@.len()
            &&& forall|i: int|
                0 <= i < q.crew_ids@.len() ==> q.crew_ids@[i] == Id::spec_from_text(
                    #[trigger] p.crew_ids@[i],
                )
        },
        None => r.outpost.mission_preparation is None,
    }
    &&& r.sector.sub_sectors@.len() == s.sector.sub_sectors@.len()
    &&& forall|i: int|
        0 <= i < r.sector.sub_sectors@.len() ==> r.sector.sub_sectors@[i] == spec_restore_subsector(
            #[trigger] s.sector.sub_sectors@[i],
        )
    &&& r.sector.sub_sectors_map@.len() == s.sector.sub_sectors_map@.len()
    &&& forall|i: int|
        0 <= i < r.sector.sub_sectors_map@.len() ==> (#[trigger] r.sector.sub_sectors_map@[i]) == (
        Coordinates { x: s.sector.sub_sectors_map@[i].0, y: s.sector.sub_sectors_map@[i].1 },
        Id::spec_from_text(s.sector.sub_sectors_map@[i].2),
        )
    &&& r.sector.missions@.len() == s.sector.missions@.len()
    &&& forall|i: int|
        0 <= i < r.sector.missions@.len() ==> r.sector.missions@[i] == spec_restore_mission(
            #[trigger] s.sector.missions@[i],
        )
    &&& match s.sector.active_mission {
        Some(am) => {
            &&& r.sector.active_mission matches Some(a)
            &&& a.mission_id == Id::spec_from_text(am.mission_id)
            &&& a.resources == am.resources
            &&& a.distance == am.distance
            &&& a.state == am.state
            &&& a.crew@.len() == am.crew@.len()
            &&& forall|i: int|
                0 <= i < a.crew@.len() ==> a.crew@[i] == spec_restore_crew(#[trigger] am.crew@[i])
        },
        None => r.sector.active_mission is None,
    }
}

impl Game {
    /// Take a full structural snapshot of the game.
    pub fn snapshot(&self) -> (r: GameSnapshot)
        ensures
            snap_rel(*self, r),
    {
        let mut logs: Vec<String> = Vec::new();
        let nl = self.state.logs.len();
        let mut li: usize = 0;
        while li < nl
            invariant
                0 <= li <= nl,
                nl == self.state.logs@.len(),
                logs@.len() == li,
                forall|j: int| 0 <= j < li ==> logs@[j] == #[trigger] self.state.logs@[j],
            decreases nl - li,
        {
            logs.push(self.state.logs[li].clone());
            li = li + 1;
        }
        proof {
            assert(logs@ =~= self.state.logs@);
        }
        let state = GameStateSnapshot {
            seed: self.state.seed.clone(),
            logs,
            current_turn: self.state.current_turn,
            rng_state: self.state.rng.state,
            rng_increment: self.state.rng.increment,
        };

        let mut modules: Vec<ModuleSnapshot> = Vec::new();
        let nm = self.outpost.modules.len();
        let mut mi: usize = 0;
        while mi < nm
            invariant
                0 <= mi <= nm,
                nm == self.outpost.modules@.len(),
                modules@.len() == mi,
                forall|j: int|
                    0 <= j < mi ==> modules@[j] == spec_snap_module(
                        #[trigger] self.outpost.modules@[j],
                    ),
            decreases nm - mi,
        {
            modules.push(snap_module_one(self.outpost.modules.get_at(mi)));
            mi = mi + 1;
        }

        let crew = snap_crew_list(&self.outpost.crew);

        let mut cemetery: Vec<CrewSnapshot> = Vec::new();
        let nc = self.outpost.cemetery.len();
        let mut ci: usize = 0;
        while ci < nc
            invariant
                0 <= ci <= nc,
                nc == self.outpost.cemetery@.len(),
                crew_snaps_match(cemetery@, self.outpost.cemetery@, ci as int),
            decreases nc - ci,
        {
            cemetery.push(snap_crew_one(&self.outpost.cemetery[ci]));
            ci = ci + 1;
        }

        let mission_preparation = match &self.outpost.mission_preparation {
            Some(p) => {
                let mut crew_ids: Vec<String> = Vec::new();
                let np = p.crew_ids.len();
                let mut pi: usize = 0;
                while pi < np
                    invariant
                        0 <= pi <= np,
                        self.outpost.mission_preparation matches Some(pp) && pp == *p,
                        np == p.crew_ids@.len(),
                        crew_ids@.len() == pi,
                        forall|j: int|
                            0 <= j < pi ==> crew_ids@[j] == (
                            #[trigger] p.crew_ids@[j]).text_of(),
                    decreases np - pi,
                {
                    crew_ids.push(p.crew_ids[pi].as_text().clone());
                    pi = pi + 1;
                }
                Some(
                    MissionPreparationSnapshot {
                        crew_ids,
                        mission_id: p.mission_id.as_text().clone(),
                        turns: p.turns,
                    },
                )
            },
            None => None,
        };

        let outpost = OutpostSnapshot {
            resources: self.outpost.resources,
            modules,
            crew,
            cemetery,
            mission_preparation,
        };

        let mut sub_sectors: Vec<SubSectorSnapshot> = Vec::new();
        let ns = self.sector.sub_sectors.len();
        let mut si: usize = 0;
        while si < ns
            invariant
                0 <= si <= ns,
                ns == self.sector.sub_sectors@.len(),
                sub_sectors@.len() == si,
                forall|j: int|
                    0 <= j < si ==> sub_sectors@[j] == spec_snap_subsector(
                        #[trigger] self.sector.sub_sectors@[j],
                    ),
            decreases ns - si,
        {
            let s = self.sector.sub_sectors.get_at(si);
            sub_sectors.push(
                SubSectorSnapshot { sector_type: s.sector_type, id: s.id.as_text().clone() },
            );
            si = si + 1;
        }

        let mut sub_sectors_map: Vec<(i32, i32, String)> = Vec::new();
        let nmap = self.sector.sub_sectors_map.len();
        let mut ki: usize = 0;
        while ki < nmap
            invariant
                0 <= ki <= nmap,
                nmap == self.sector.sub_sectors_map@.len(),
                sub_sectors_map@.len() == ki,
                forall|j: int|
                    0 <= j < ki ==> (#[trigger] sub_sectors_map@[j]) == (
                    self.sector.sub_sectors_map@[j].0.x,
                    self.sector.sub_sectors_map@[j].0.y,
                    self.sector.sub_sectors_map@[j].1.text_of(),
                    ),
            decreases nmap - ki,
        {
            let entry = &self.sector.sub_sectors_map[ki];
            sub_sectors_map.push((entry.0.x, entry.0.y, entry.1.as_text().clone()));
            ki = ki + 1;
        }

        let mut missions: Vec<MissionSnapshot> = Vec::new();
        let nmis = self.sector.missions.len();
        let mut qi: usize = 0;
        while qi < nmis
            invariant
                0 <= qi <= nmis,
                nmis == self.sector.missions@.len(),
                missions@.len() == qi,
                forall|j: int|
                    0 <= j < qi ==> missions@[j] == spec_snap_mission(
                        #[trigger] self.sector.missions@[j],
                    ),
            decreases nmis - qi,
        {
            let m = self.sector.missions.get_at(qi);
            missions.push(
                MissionSnapshot {
                    id: m.id.as_text().clone(),
                    sub_sector_id: m.sub_sector_id.as_text().clone(),
                    mission_type: m.mission_type,
                },
            );
            qi = qi + 1;
        }

        let active_mission = match &self.sector.active_mission {
            Some(am) => Some(
                ActiveMissionSnapshot {
                    mission_id: am.mission_id.as_text().clone(),
                    resources: am.resources,
                    distance: am.distance,
                    state: am.state,
                    crew: snap_crew_list(&am.crew),
                },
            ),
            None => None,
        };

        let sector = SectorSnapshot { sub_sectors, sub_sectors_map, missions, active_mission };

        GameSnapshot { state, outpost, sector }
    }

    /// Rehydrate a live game from a snapshot.
    pub fn from_snapshot(s: GameSnapshot) -> (r: Game)
        ensures
            restore_rel(s, r),
    {
        let GameSnapshot { state, outpost, sector } = s;

        let game_state = GameState {
            seed: state.seed,
            logs: state.logs,
            current_turn: state.current_turn,
            rng: SeededRng { state: state.rng_state, increment: state.rng_increment },
        };

        let OutpostSnapshot { resources, modules, crew, cemetery, mission_preparation } = outpost;

        let mut module_store: SortableStorage<Module> = SortableStorage::new();
        let mut mrest = modules;
        let ghost morig = mrest@;
        let nm = mrest.len();
        let mut mi: usize = 0;
        while mi < nm
            invariant
                0 <= mi <= nm,
                nm == morig.len(),
                mrest@ =~= morig.subrange(mi as int, nm as int),
                module_store@.len() == mi,
                forall|j: int|
                    0 <= j < mi ==> module_store@[j] == spec_restore_module(#[trigger] morig[j]),
            decreases nm - mi,
        {
            proof {
                assert(mrest@[0] == morig[mi as int]);
            }
            let one = mrest.remove(0);
            module_store.add(restore_module_one(one));
            proof {
                assert(mrest@ =~= morig.subrange(mi + 1, nm as int));
            }
            mi = mi + 1;
        }

        let crew_list = restore_crew_list(crew);
        let crew_store = Storage::from_entries(crew_list);

        let cemetery_list = restore_crew_list(cemetery);

        let preparation = match mission_preparation {
            Some(p) => {
                let MissionPreparationSnapshot { crew_ids, mission_id, turns } = p;
                let mut ids: Vec<Id> = Vec::new();
                let mut prest = crew_ids;
                let ghost porig = prest@;
                let np = prest.len();
                let mut pi: usize = 0;
                while pi < np
                    invariant
                        0 <= pi <= np,
                        np == porig.len(),
                        prest@ =~= porig.subrange(pi as int, np as int),
                        ids@.len() == pi,
                        forall|j: int|
                            0 <= j < pi ==> ids@[j] == Id::spec_from_text(#[trigger] porig[j]),
                    decreases np - pi,
                {
                    proof {
                        assert(prest@[0] == porig[pi as int]);
                    }
                    let t = prest.remove(0);
                    ids.push(Id::from_text(t));
                    proof {
                        assert(prest@ =~= porig.subrange(pi + 1, np as int));
                    }
                    pi = pi + 1;
                }
                Some(
                    MissionPreparation {
                        crew_ids: ids,
                        mission_id: Id::from_text(mission_id),
                        turns,
                    },
                )
            },
            None => None,
        };

        let outpost_live = Outpost {
            resources,
            modules: module_store,
            crew: crew_store,
            cemetery: cemetery_list,
            mission_preparation: preparation,
        };

        let SectorSnapshot { sub_sectors, sub_sectors_map, missions, active_mission } = sector;

        let mut sub_store: Storage<SubSector> = Storage::new();
        let mut srest = sub_sectors;
        let ghost sorig = srest@;
        let ns = srest.len();
        let mut si: usize = 0;
        while si < ns
            invariant
                0 <= si <= ns,
                ns == sorig.len(),
                srest@ =~= sorig.subrange(si as int, ns as int),
                sub_store@.len() == si,
                forall|j: int|
                    0 <= j < si ==> sub_store@[j] == spec_restore_subsector(#[trigger] sorig[j]),
            decreases ns - si,
        {
            proof {
                assert(srest@[0] == sorig[si as int]);
            }
            let one = srest.remove(0);
            sub_store.append(
                SubSector { sector_type: one.sector_type, id: Id::from_text(one.id) },
            );
            proof {
                assert(srest@ =~= sorig.subrange(si + 1, ns as int));
            }
            si = si + 1;
        }

        let mut map_live: Vec<(Coordinates, Id)> = Vec::new();
        let mut krest = sub_sectors_map;
        let ghost korig = krest@;
        let nk = krest.len();
        let mut ki: usize = 0;
        while ki < nk
            invariant
                0 <= ki <= nk,
                nk == korig.len(),
                krest@ =~= korig.subrange(ki as int, nk as int),
                map_live@.len() == ki,
                forall|j: int|
                    0 <= j < ki ==> (#[trigger] map_live@[j]) == (
                    Coordinates { x: korig[j].0, y: korig[j].1 },
                    Id::spec_from_text(korig[j].2),
                    ),
            decreases nk - ki,
        {
            proof {
                assert(krest@[0] == korig[ki as int]);
            }
            let one = krest.remove(0);
            map_live.push((Coordinates { x: one.0, y: one.1 }, Id::from_text(one.2)));
            proof {
                assert(krest@ =~= korig.subrange(ki + 1, nk as int));
            }
            ki = ki + 1;
        }

        let mut mission_store: Storage<Mission> = Storage::new();
        let mut qrest = missions;
        let ghost qorig = qrest@;
        let nq = qrest.len();
        let mut qi: usize = 0;
        while qi < nq
            invariant
                0 <= qi <= nq,
                nq == qorig.len(),
                qrest@ =~= qorig.subrange(qi as int, nq as int),
                mission_store@.len() == qi,
                forall|j: int|
                    0 <= j < qi ==> mission_store@[j] == spec_restore_mission(#[trigger] qorig[j]),
            decreases nq - qi,
        {
            proof {
                assert(qrest@[0] == qorig[qi as int]);
            }
            let one = qrest.remove(0);
            mission_store.append(
                Mission {
                    id: Id::from_text(one.id),
                    sub_sector_id: Id::from_text(one.sub_sector_id),
                    mission_type: one.mission_type,
                },
            );
            proof {
                assert(qrest@ =~= qorig.subrange(qi + 1, nq as int));
            }
            qi = qi + 1;
        }

        let active_live = match active_mission {
            Some(am) => {
                let ActiveMissionSnapshot { mission_id, resources, distance, state, crew } = am;
                let crew_back = restore_crew_list(crew);
                Some(
                    ActiveMission {
                        mission_id: Id::from_text(mission_id),
                        resources,
                        distance,
                        state,
                        crew: Storage::from_entries(crew_back),
                    },
                )
            },
            None => None,
        };

        let sector_live = Sector {
            sub_sectors: sub_store,
            sub_sectors_map: map_live,
            missions: mission_store,
            active_mission: active_live,
        };

        Game { state: game_state, outpost: outpost_live, sector: sector_live }
    }
}

} // verus!
