//! The outpost aggregate: ledger, modules, crew, cemetery and mission
//! preparation, together with the per-turn resolution algorithm.
//!
//! A turn runs four phases in fixed order: production is stored into the
//! ledger under the flow/stockpile rule, every crew member runs the
//! needs-health step (the dead move to the cemetery), the cascading power
//! cutback throttles modules one level at a time until consumption is
//! covered (or no module can be cut), and finally crew upkeep draws from
//! the shared pools in store order, first come first served.

use crate::crew::alive_pred;
use crate::crew::assigned_pred;
use crate::crew::dead_pred;
use crate::crew::CrewMember;
use crate::cutback::sort_cutback;
use crate::cutback::total_eff;
use crate::game_state::GameState;
use crate::ids::Id;
use crate::modules::eff_level;
use crate::modules::Module;
use crate::modules::ModuleEnergyLevelDescription;
use crate::modules::ModulePriority;
use crate::resources::Resources;
use crate::sector::ActiveMission;
use crate::stats::Stats;
use crate::store::contains_id;
use crate::store::find_id;
use crate::store::SortableStorage;
use crate::store::Storage;
use vstd::prelude::*;

verus! {

/// The members of `crew` assigned to the module with id `mid`, in store
/// order.
pub open spec fn crew_of(crew: Seq<CrewMember>, mid: Seq<char>) -> Seq<CrewMember> {
    crew.filter(assigned_pred(mid))
}

/// Total production of a module sequence, each module fed the crew assigned
/// to it, combined left to right.
pub open spec fn sum_production(ms: Seq<Module>, crew: Seq<CrewMember>) -> Resources
    decreases ms.len(),
{
    if ms.len() == 0 {
        Resources { energy: 0, living_space: 0, minerals: 0, food: 0, water: 0 }
    } else {
        Resources::spec_add(
            sum_production(ms.drop_last(), crew),
            ms.last().spec_production(crew_of(crew, ms.last().sid())),
        )
    }
}

/// Total consumption of a module sequence, combined left to right.
pub open spec fn sum_consumption(ms: Seq<Module>) -> Resources
    decreases ms.len(),
{
    if ms.len() == 0 {
        Resources { energy: 0, living_space: 0, minerals: 0, food: 0, water: 0 }
    } else {
        Resources::spec_add(sum_consumption(ms.drop_last()), ms.last().spec_consumption())
    }
}

/// Every crew member aged by one turn, in place.
pub open spec fn aged_seq(s: Seq<CrewMember>) -> Seq<CrewMember> {
    Seq::new(s.len(), |i: int| s[i].spec_age())
}

/// Whether a module consumes a kind that is currently deficient.
pub open spec fn is_relevant(m: Module, delta: Resources) -> bool {
    let c = m.spec_consumption();
    ||| (delta.energy > 0 && c.energy > 0)
    ||| (delta.living_space > 0 && c.living_space > 0)
    ||| (delta.minerals > 0 && c.minerals > 0)
    ||| (delta.food > 0 && c.food > 0)
    ||| (delta.water > 0 && c.water > 0)
}

/// Index of the first relevant module, or -1.
pub open spec fn first_relevant(ms: Seq<Module>, delta: Resources) -> int
    decreases ms.len(),
{
    if ms.len() == 0 {
        -1
    } else if is_relevant(ms[0], delta) {
        0
    } else {
        let r = first_relevant(ms.drop_first(), delta);
        if r == -1 {
            -1
        } else {
            r + 1
        }
    }
}

/// What `first_relevant` returns.
pub proof fn lemma_first_relevant_props(ms: Seq<Module>, delta: Resources)
    ensures
        first_relevant(ms, delta) >= -1,
        first_relevant(ms, delta) == -1 ==> forall|j: int|
            0 <= j < ms.len() ==> !is_relevant(#[trigger] ms[j], delta),
        first_relevant(ms, delta) >= 0 ==> {
            &&& first_relevant(ms, delta) < ms.len()
            &&& is_relevant(ms[first_relevant(ms, delta)], delta)
            &&& forall|j: int|
                0 <= j < first_relevant(ms, delta) ==> !is_relevant(#[trigger] ms[j], delta)
        },
    decreases ms.len(),
{
    if ms.len() > 0 {
        let d = ms.drop_first();
        lemma_first_relevant_props(d, delta);
        assert(forall|j: int| 1 <= j < ms.len() ==> (#[trigger] ms[j]) == d[j - 1]);
    }
}

/// `first_relevant` finds exactly the first relevant module known from a
/// scan.
pub proof fn lemma_first_relevant_hit(ms: Seq<Module>, delta: Resources, i: int)
    requires
        0 <= i < ms.len(),
        is_relevant(ms[i], delta),
        forall|j: int| 0 <= j < i ==> !is_relevant(#[trigger] ms[j], delta),
    ensures
        first_relevant(ms, delta) == i,
    decreases ms.len(),
{
    if i > 0 {
        assert(!is_relevant(ms[0], delta));
        lemma_first_relevant_hit(ms.drop_first(), delta, i - 1);
    }
}

/// A module one energy level down.
pub open spec fn dec_module(m: Module) -> Module {
    m.with_level(eff_level((eff_level(m.spec_level()) - 1) as i64))
}

/// A relevant module is running: some consumption is positive, and every
/// kind's consumption scales with the effective level.
pub proof fn lemma_relevant_runs(m: Module, delta: Resources)
    requires
        is_relevant(m, delta),
    ensures
        eff_level(m.spec_level()) >= 1,
{
    match m {
        Module::PowerGenerator(k) => {},
        Module::LivingQuarters(k) => {},
        Module::Farm(k) => {},
        Module::Mine(k) => {},
        Module::WaterExtractor(k) => {},
        Module::HoloDeck(k) => {},
    }
}

/// The cascading cutback: while some kind's total consumption exceeds what
/// is available, sort the modules into cutback order and throttle the first
/// module consuming a deficient kind by exactly one level; stop when
/// solvent, or when no module's consumption matches any deficient kind (the
/// accepted escape hatch).
pub open spec fn spec_support_modules(ms: Seq<Module>, res: Resources) -> Seq<Module>
    decreases total_eff(ms),
    via spec_support_modules_dec
{
    let cons = sum_consumption(ms);
    if res.spec_covers(cons) {
        ms
    } else {
        let sorted = sort_cutback(ms);
        let delta = Resources::spec_sub(cons, res);
        let i = first_relevant(sorted, delta);
        if i == -1 {
            sorted
        } else {
            spec_support_modules(sorted.update(i, dec_module(sorted[i])), res)
        }
    }
}

#[via_fn]
proof fn spec_support_modules_dec(ms: Seq<Module>, res: Resources) {
    let cons = sum_consumption(ms);
    if !res.spec_covers(cons) {
        let sorted = sort_cutback(ms);
        let delta = Resources::spec_sub(cons, res);
        let i = first_relevant(sorted, delta);
        if i != -1 {
            lemma_first_relevant_props(sorted, delta);
            lemma_relevant_runs(sorted[i], delta);
            crate::cutback::lemma_total_eff_sort(ms);
            crate::cutback::lemma_total_eff_update(sorted, i, dec_module(sorted[i]));
            crate::cutback::lemma_total_eff_nonneg(sorted.update(i, dec_module(sorted[i])));
        }
    }
}

/// One member's pass through the support phase: eat if food and minerals
/// can be drawn, drink if water and produced energy can, rest if living
/// space remains; pools are shared and shrink as members are served.
pub open spec fn spec_support_one(c: CrewMember, res: Resources, ae: i64, asp: i64) -> (
    CrewMember,
    Resources,
    i64,
    i64,
) {
    let u = CrewMember::spec_upkeep();
    let fed = res.food >= u.food && res.minerals >= u.minerals;
    let c1 = if fed {
        CrewMember { is_hungry: false, ..c }
    } else {
        c
    };
    let res1 = if fed {
        Resources {
            food: (res.food - u.food) as i64,
            minerals: (res.minerals - u.minerals) as i64,
            ..res
        }
    } else {
        res
    };
    let watered = res1.water >= u.water && ae >= u.energy;
    let c2 = if watered {
        CrewMember { is_thirsty: false, ..c1 }
    } else {
        c1
    };
    let res2 = if watered {
        Resources { water: (res1.water - u.water) as i64, ..res1 }
    } else {
        res1
    };
    let ae2 = if watered {
        (ae - u.energy) as i64
    } else {
        ae
    };
    let rested = asp >= u.living_space;
    let c3 = if rested {
        CrewMember { is_tired: false, ..c2 }
    } else {
        c2
    };
    let asp2 = if rested {
        (asp - u.living_space) as i64
    } else {
        asp
    };
    (c3, res2, ae2, asp2)
}

/// The support phase from member `i` on: serve `s[i]`, then the rest.
pub open spec fn spec_support_from(
    s: Seq<CrewMember>,
    i: int,
    res: Resources,
    ae: i64,
    asp: i64,
) -> (Seq<CrewMember>, Resources)
    decreases s.len() - i,
{
    if i < 0 || i >= s.len() {
        (s, res)
    } else {
        let (c2, res2, ae2, asp2) = spec_support_one(s[i], res, ae, asp);
        spec_support_from(s.update(i, c2), i + 1, res2, ae2, asp2)
    }
}

/// The whole crew-support phase, walking the crew in store order with the
/// current flow capacities as the energy and living-space pools.
pub open spec fn spec_support_crew(s: Seq<CrewMember>, res: Resources) -> (
    Seq<CrewMember>,
    Resources,
) {
    spec_support_from(s, 0, res, res.energy, res.living_space)
}

/// An in-progress mission preparation: candidate crew and a planned length,
/// not yet committed.
pub struct MissionPreparation {
    pub crew_ids: Vec<Id>,
    pub mission_id: Id,
    pub turns: u16,
}

/// Marker for a preparation that cannot be carried out.
pub struct MissionPreparationIssue {}

/// The crew store split by a preparation's candidate list: the members left
/// behind and the members taken along (assigned to the mission), in list
/// order. Ids not found in the store are skipped.
pub open spec fn spec_extract_crew(crew: Seq<CrewMember>, ids: Seq<Id>, mission_id: Id) -> (
    Seq<CrewMember>,
    Seq<CrewMember>,
)
    decreases ids.len(),
{
    if ids.len() == 0 {
        (crew, Seq::<CrewMember>::empty())
    } else {
        let i = find_id(crew, ids[0]@);
        if i == -1 {
            spec_extract_crew(crew, ids.drop_first(), mission_id)
        } else {
            let taken = CrewMember { assigned_mission: Some(mission_id), ..crew[i] };
            let rest = spec_extract_crew(crew.remove(i), ids.drop_first(), mission_id);
            (rest.0, seq![taken] + rest.1)
        }
    }
}

/// A read-only view of one crew member for presentation.
pub struct CrewDescription {
    pub name: String,
    pub mood: i64,
    pub stats: Stats,
    pub upkeep: Resources,
    pub assignment: Option<CrewAssignmentDescription>,
}

pub struct CrewAssignmentDescription {
    pub module_name: String,
    pub production_bonus: Resources,
}

impl CrewDescription {
    pub fn assigned_module_name(&self) -> (r: String)
        ensures
            match self.assignment {
                Some(a) => r@ == a.module_name@,
                None => r@ == "not assigned"@,
            },
    {
        match &self.assignment {
            Some(a) => a.module_name.clone(),
            None => "not assigned".to_owned(),
        }
    }

    /// The member's net contribution: the marginal bonus of its assignment.
    pub fn flow(&self) -> (r: Resources)
        ensures
            r == match self.assignment {
                Some(a) => a.production_bonus,
                None => Resources { energy: 0, living_space: 0, minerals: 0, food: 0, water: 0 },
            },
    {
        match &self.assignment {
            Some(a) => a.production_bonus,
            None => Resources::zero(),
        }
    }
}

/// A read-only view of one module for presentation.
pub struct ModuleDescription {
    pub name: String,
    pub priority: ModulePriority,
    pub production: Resources,
    pub consumption: Resources,
    pub energy_levels: Vec<ModuleEnergyLevelDescription>,
}

pub struct Outpost {
    pub resources: Resources,
    pub modules: SortableStorage<Module>,
    pub crew: Storage<CrewMember>,
    pub cemetery: Vec<CrewMember>,
    pub mission_preparation: Option<MissionPreparation>,
}

impl Outpost {
    /// The starter loadout: a level-1 power generator, level-2 living
    /// quarters, four unassigned crew members, and the opening stockpiles.
    pub fn new() -> (r: Outpost)
        ensures
            r.resources == (Resources {
                energy: 0,
                living_space: 0,
                minerals: 10,
                food: 10,
                water: 10,
            }),
            r.modules@.len() == 2,
            r.modules@[0] matches Module::PowerGenerator(g) && g.energy_level == 1
                && g.name@ == "power"@,
            r.modules@[1] matches Module::LivingQuarters(q) && q.energy_level == 2
                && q.name@ == "quarters"@,
            r.crew@.len() == 4,
            r.crew@[0].name@ == "a"@,
            r.crew@[1].name@ == "b"@,
            r.crew@[2].name@ == "c"@,
            r.crew@[3].name@ == "d"@,
            forall|j: int|
                0 <= j < 4 ==> {
                    &&& !(#[trigger] r.crew@[j]).is_hungry
                    &&& !r.crew@[j].is_thirsty
                    &&& !r.crew@[j].is_tired
                    &&& r.crew@[j].health == 5
                    &&& r.crew@[j].stats == Stats::spec_zero()
                    &&& r.crew@[j].assigned_module is None
                    &&& r.crew@[j].assigned_mission is None
                },
            r.cemetery@ == Seq::<CrewMember>::empty(),
            r.mission_preparation is None,
    {
        let mut modules: SortableStorage<Module> = SortableStorage::new();
        modules.add(Module::PowerGenerator(crate::modules::power_generator::PowerGenerator::new("power")));
        let mut quarters = crate::modules::living_quarters::LivingQuarters::new("quarters");
        quarters.set_energy_level(2);
        modules.add(Module::LivingQuarters(quarters));

        let mut crew: Storage<CrewMember> = Storage::new();
        crew.append(CrewMember::new("a".to_owned()));
        crew.append(CrewMember::new("b".to_owned()));
        crew.append(CrewMember::new("c".to_owned()));
        crew.append(CrewMember::new("d".to_owned()));

        Outpost {
            resources: Resources { energy: 0, living_space: 0, minerals: 10, food: 10, water: 10 },
            modules,
            crew,
            cemetery: Vec::new(),
            mission_preparation: None,
        }
    }

    /// Append a module to the outpost.
    pub fn add_module(&mut self, module: Module)
        ensures
            final(self).modules@ == old(self).modules@.push(module),
            final(self).resources == old(self).resources,
            final(self).crew == old(self).crew,
            final(self).cemetery == old(self).cemetery,
            final(self).mission_preparation == old(self).mission_preparation,
    {
        self.modules.add(module);
    }

    /// The id of the module at a position in the current order.
    pub fn module_id_by_index(&self, module_index: usize) -> (r: Id)
        requires
            module_index < self.modules@.len(),
        ensures
            r@ == self.modules@[module_index as int].sid(),
    {
        let id = self.modules.id_by_index(module_index);
        match id {
            Some(id) => id,
            None => {
                proof {
                    assert(false);
                }
                Id::fresh()
            },
        }
    }

    /// Borrow the module with the given id; ids are valid only until the
    /// next mutation.
    pub fn get_module(&self, module_id: &Id) -> (r: &Module)
        requires
            contains_id(self.modules@, module_id@),
        ensures
            *r == self.modules@[find_id(self.modules@, module_id@)],
    {
        let pos = self.modules.index_of(module_id);
        match pos {
            Some(i) => {
                proof {
                    crate::store::lemma_find_id_props(self.modules@, module_id@);
                }
                self.modules.get_at(i)
            },
            None => {
                proof {
                    assert(false);
                }
                self.modules.get_at(0)
            },
        }
    }

    pub fn modules_len(&self) -> (r: usize)
        ensures
            r == self.modules@.len(),
    {
        self.modules.len()
    }

    /// Borrow every module in the current order.
    #[verifier::loop_isolation(false)]
    pub fn modules(&self) -> (r: Vec<&Module>)
        ensures
            r@.len() == self.modules@.len(),
            forall|i: int| 0 <= i < r@.len() ==> *r@[i] == self.modules@[i],
    {
        let mut out: Vec<&Module> = Vec::new();
        let n = self.modules.len();
        let mut i: usize = 0;
        while i < n
            invariant
                0 <= i <= n,
                out@.len() == i,
                forall|j: int| 0 <= j < i ==> *out@[j] == self.modules@[j],
            decreases n - i,
        {
            out.push(self.modules.get_at(i));
            i = i + 1;
        }
        out
    }

    /// Borrow the module at a position in the current order.
    pub fn module_at(&self, index: usize) -> (r: &Module)
        requires
            index < self.modules@.len(),
        ensures
            *r == self.modules@[index as int],
    {
        self.modules.get_at(index)
    }

    /// Raise the energy level of the module with the given id by one,
    /// clamped at the top of the band.
    pub fn increment_energy_level(&mut self, module_id: &Id)
        requires
            contains_id(old(self).modules@, module_id@),
        ensures
            ({
                let i = find_id(old(self).modules@, module_id@);
                let m = old(self).modules@[i];
                final(self).modules@ == old(self).modules@.update(
                    i,
                    m.with_level(eff_level((eff_level(m.spec_level()) + 1) as i64)),
                )
            }),
            final(self).resources == old(self).resources,
            final(self).crew == old(self).crew,
            final(self).cemetery == old(self).cemetery,
            final(self).mission_preparation == old(self).mission_preparation,
    {
        let pos = self.modules.index_of(module_id);
        match pos {
            Some(i) => {
                proof {
                    crate::store::lemma_find_id_props(self.modules@, module_id@);
                }
                let m = self.modules.get_at_mut(i);
                m.increment_energy_level();
            },
            None => {
                proof {
                    assert(false);
                }
            },
        }
    }

    /// Lower the energy level of the module with the given id by one,
    /// clamped at zero.
    pub fn decrement_energy_level(&mut self, module_id: &Id)
        requires
            contains_id(old(self).modules@, module_id@),
        ensures
            ({
                let i = find_id(old(self).modules@, module_id@);
                final(self).modules@ == old(self).modules@.update(
                    i,
                    dec_module(old(self).modules@[i]),
                )
            }),
            final(self).resources == old(self).resources,
            final(self).crew == old(self).crew,
            final(self).cemetery == old(self).cemetery,
            final(self).mission_preparation == old(self).mission_preparation,
    {
        let pos = self.modules.index_of(module_id);
        match pos {
            Some(i) => {
                proof {
                    crate::store::lemma_find_id_props(self.modules@, module_id@);
                }
                let m = self.modules.get_at_mut(i);
                m.decrement_energy_level();
            },
            None => {
                proof {
                    assert(false);
                }
            },
        }
    }

    /// Add a crew member to the active roster.
    pub fn add_crew_member(&mut self, crew_member: CrewMember)
        ensures
            final(self).crew@ == if contains_id(old(self).crew@, crew_member.id@) {
                old(self).crew@.update(find_id(old(self).crew@, crew_member.id@), crew_member)
            } else {
                old(self).crew@.push(crew_member)
            },
            final(self).resources == old(self).resources,
            final(self).modules == old(self).modules,
            final(self).cemetery == old(self).cemetery,
            final(self).mission_preparation == old(self).mission_preparation,
    {
        self.crew.add(crew_member);
    }

    /// The id of the crew member at a position in store order.
    pub fn crew_member_id_by_index(&self, crew_member_index: usize) -> (r: Id)
        requires
            crew_member_index < self.crew@.len(),
        ensures
            r@ == self.crew@[crew_member_index as int].id@,
    {
        let id = self.crew.id_by_index(crew_member_index);
        match id {
            Some(id) => id,
            None => {
                proof {
                    assert(false);
                }
                Id::fresh()
            },
        }
    }

    /// Borrow the crew member with the given id.
    pub fn get_crew_member(&self, crew_id: &Id) -> (r: &CrewMember)
        requires
            contains_id(self.crew@, crew_id@),
        ensures
            *r == self.crew@[find_id(self.crew@, crew_id@)],
    {
        let pos = self.crew.index_of(crew_id);
        match pos {
            Some(i) => {
                proof {
                    crate::store::lemma_find_id_props(self.crew@, crew_id@);
                }
                self.crew.get_at(i)
            },
            None => {
                proof {
                    assert(false);
                }
                self.crew.get_at(0)
            },
        }
    }

    /// Borrow the crew member at a position in store order.
    pub fn crew_member_at(&self, index: usize) -> (r: &CrewMember)
        requires
            index < self.crew@.len(),
        ensures
            *r == self.crew@[index as int],
    {
        self.crew.get_at(index)
    }

    /// Borrow every crew member in store order.
    #[verifier::loop_isolation(false)]
    pub fn crew(&self) -> (r: Vec<&CrewMember>)
        ensures
            r@.len() == self.crew@.len(),
            forall|i: int| 0 <= i < r@.len() ==> *r@[i] == self.crew@[i],
    {
        let mut out: Vec<&CrewMember> = Vec::new();
        let n = self.crew.len();
        let mut i: usize = 0;
        while i < n
            invariant
                0 <= i <= n,
                out@.len() == i,
                forall|j: int| 0 <= j < i ==> *out@[j] == self.crew@[j],
            decreases n - i,
        {
            out.push(self.crew.get_at(i));
            i = i + 1;
        }
        out
    }

    pub fn crew_len(&self) -> (r: usize)
        ensures
            r == self.crew@.len(),
    {
        self.crew.len()
    }

    /// Record a crew member's module assignment; the module id is stored as
    /// given and resolved on use.
    pub fn assign_crew_member_to_module(&mut self, crew_member_id: &Id, module_id: &Id)
        requires
            contains_id(old(self).crew@, crew_member_id@),
        ensures
            ({
                let i = find_id(old(self).crew@, crew_member_id@);
                final(self).crew@ == old(self).crew@.update(
                    i,
                    CrewMember { assigned_module: Some(*module_id), ..old(self).crew@[i] },
                )
            }),
            final(self).resources == old(self).resources,
            final(self).modules == old(self).modules,
            final(self).cemetery == old(self).cemetery,
            final(self).mission_preparation == old(self).mission_preparation,
    {
        let pos = self.crew.index_of(crew_member_id);
        match pos {
            Some(i) => {
                proof {
                    crate::store::lemma_find_id_props(self.crew@, crew_member_id@);
                }
                let mut c = self.crew.get_at(i).clone();
                c.assign_to_module(module_id);
                self.crew.set_at(i, c);
            },
            None => {
                proof {
                    assert(false);
                }
            },
        }
    }

    /// The crew assigned to a module, cloned out in store order.
    #[verifier::loop_isolation(false)]
    pub fn crew_of_module(&self, m: &Module) -> (r: Vec<CrewMember>)
        ensures
            r@ == crew_of(self.crew@, m.sid()),
    {
        let ghost p = assigned_pred(m.sid());
        let mut out: Vec<CrewMember> = Vec::new();
        let n = self.crew.len();
        let mut i: usize = 0;
        proof {
            reveal(Seq::filter);
            assert(self.crew@.subrange(0, 0).filter(p) =~= Seq::<CrewMember>::empty());
        }
        while i < n
            invariant
                0 <= i <= n,
                out@ == self.crew@.subrange(0, i as int).filter(p),
            decreases n - i,
        {
            proof {
                reveal(Seq::filter);
                let pre = self.crew@.subrange(0, i + 1);
                assert(pre.drop_last() =~= self.crew@.subrange(0, i as int));
                assert(pre.last() == self.crew@[i as int]);
            }
            let c = self.crew.get_at(i);
            if c.is_assigned_to_module(m) {
                out.push(c.clone());
            }
            i = i + 1;
        }
        proof {
            assert(self.crew@.subrange(0, n as int) =~= self.crew@);
        }
        out
    }

    /// Total production of all modules this turn.
    #[verifier::loop_isolation(false)]
    pub fn production(&self) -> (r: Resources)
        ensures
            r == sum_production(self.modules@, self.crew@),
    {
        let mut acc = Resources::zero();
        let n = self.modules.len();
        let mut i: usize = 0;
        proof {
            assert(self.modules@.subrange(0, 0) =~= Seq::<Module>::empty());
        }
        while i < n
            invariant
                0 <= i <= n,
                acc == sum_production(self.modules@.subrange(0, i as int), self.crew@),
            decreases n - i,
        {
            proof {
                let pre = self.modules@.subrange(0, i + 1);
                assert(pre.drop_last() =~= self.modules@.subrange(0, i as int));
                assert(pre.last() == self.modules@[i as int]);
            }
            let m = self.modules.get_at(i);
            let assigned = self.crew_of_module(m);
            acc = acc.add(m.production(&assigned));
            i = i + 1;
        }
        proof {
            assert(self.modules@.subrange(0, n as int) =~= self.modules@);
        }
        acc
    }

    /// Total consumption of all modules this turn.
    #[verifier::loop_isolation(false)]
    pub fn consumption(&self) -> (r: Resources)
        ensures
            r == sum_consumption(self.modules@),
    {
        let mut acc = Resources::zero();
        let n = self.modules.len();
        let mut i: usize = 0;
        proof {
            assert(self.modules@.subrange(0, 0) =~= Seq::<Module>::empty());
        }
        while i < n
            invariant
                0 <= i <= n,
                acc == sum_consumption(self.modules@.subrange(0, i as int)),
            decreases n - i,
        {
            proof {
                let pre = self.modules@.subrange(0, i + 1);
                assert(pre.drop_last() =~= self.modules@.subrange(0, i as int));
                assert(pre.last() == self.modules@[i as int]);
            }
            let m = self.modules.get_at(i);
            acc = acc.add(m.consumption());
            i = i + 1;
        }
        proof {
            assert(self.modules@.subrange(0, n as int) =~= self.modules@);
        }
        acc
    }

    /// The combined fixed upkeep of the active crew.
    pub fn crew_upkeep(&self) -> (r: Resources)
        ensures
            r == (Resources {
                energy: 0,
                living_space: crate::resources::sat64(self.crew@.len() as int),
                minerals: 0,
                food: crate::resources::sat64(self.crew@.len() as int),
                water: crate::resources::sat64(self.crew@.len() as int),
            }),
    {
        let n = self.crew.len() as u64;
        let v: i64 = if n > 0x7fff_ffff_ffff_ffff {
            i64::MAX
        } else {
            n as i64
        };
        Resources { energy: 0, living_space: v, minerals: 0, food: v, water: v }
    }

    pub fn resources(&self) -> (r: &Resources)
        ensures
            *r == self.resources,
    {
        &self.resources
    }

    /// Describe a module for presentation.
    pub fn describe_module(&self, module: &Module) -> (r: ModuleDescription)
        ensures
            r.name@ == module.spec_name(),
            r.priority == module.spec_priority(),
            r.production == module.spec_production(crew_of(self.crew@, module.sid())),
            r.consumption == module.spec_consumption(),
            r.energy_levels@.len() == 3,
            forall|i: int|
                0 <= i < 3 ==> crate::modules::module_row_matches(
                    *module,
                    crew_of(self.crew@, module.sid()),
                    i,
                    #[trigger] r.energy_levels@[i],
                ),
    {
        let crew = self.crew_of_module(module);
        ModuleDescription {
            name: module.name().clone(),
            priority: module.priority(),
            production: module.production(&crew),
            consumption: module.consumption(),
            energy_levels: module.energy_levels(&crew),
        }
    }

    /// Describe a crew member for presentation; a stale module assignment
    /// shows as unassigned.
    pub fn describe_crew_member(&self, crew: &CrewMember) -> (r: CrewDescription)
        ensures
            r.name@ == crew.name@,
            r.mood == crew.spec_mood(),
            r.stats == crew.stats,
            r.upkeep == CrewMember::spec_upkeep(),
            match crew.assigned_module {
                Some(mid) => {
                    if contains_id(self.modules@, mid@) {
                        r.assignment matches Some(a) && a.module_name@ == self.modules@[find_id(
                            self.modules@,
                            mid@,
                        )].spec_name() && a.production_bonus == self.modules@[find_id(
                            self.modules@,
                            mid@,
                        )].spec_production_bonus(*crew)
                    } else {
                        r.assignment is None
                    }
                },
                None => r.assignment is None,
            },
    {
        let assignment = match &crew.assigned_module {
            Some(mid) => {
                let pos = self.modules.index_of(mid);
                match pos {
                    Some(i) => {
                        proof {
                            crate::store::lemma_find_id_props(self.modules@, mid@);
                        }
                        let m = self.modules.get_at(i);
                        Some(
                            CrewAssignmentDescription {
                                module_name: m.name().clone(),
                                production_bonus: m.production_bonus(crew),
                            },
                        )
                    },
                    None => None,
                }
            },
            None => None,
        };
        CrewDescription {
            name: crew.name.clone(),
            mood: crew.mood(),
            stats: crew.stats,
            upkeep: crew.upkeep(),
            assignment,
        }
    }

    /// Open a mission preparation with an empty candidate list.
    pub fn prepare_mission(&mut self, mission_id: &Id, turns: u16)
        ensures
            final(self).mission_preparation matches Some(p) && p.mission_id == *mission_id
                && p.crew_ids@ == Seq::<Id>::empty() && p.turns == turns,
            final(self).resources == old(self).resources,
            final(self).modules == old(self).modules,
            final(self).crew == old(self).crew,
            final(self).cemetery == old(self).cemetery,
    {
        self.mission_preparation = Some(
            MissionPreparation { mission_id: mission_id.clone(), crew_ids: Vec::new(), turns },
        );
    }

    /// Add a candidate crew member to the open preparation, if any.
    pub fn prepare_crew_member_for_mission(&mut self, crew_member_id: &Id)
        ensures
            match old(self).mission_preparation {
                Some(p) => final(self).mission_preparation matches Some(q) && q.mission_id
                    == p.mission_id && q.turns == p.turns && q.crew_ids@ == p.crew_ids@.push(
                    *crew_member_id,
                ),
                None => final(self).mission_preparation is None,
            },
            final(self).resources == old(self).resources,
            final(self).modules == old(self).modules,
            final(self).crew == old(self).crew,
            final(self).cemetery == old(self).cemetery,
    {
        match &mut self.mission_preparation {
            Some(preparation) => {
                preparation.crew_ids.push(crew_member_id.clone());
            },
            None => {},
        }
    }

    /// Set the planned duration of the open preparation, if any.
    pub fn set_prepare_for_turns(&mut self, turns: u16)
        ensures
            match old(self).mission_preparation {
                Some(p) => final(self).mission_preparation matches Some(q) && q.mission_id
                    == p.mission_id && q.crew_ids == p.crew_ids && q.turns == turns,
                None => final(self).mission_preparation is None,
            },
            final(self).resources == old(self).resources,
            final(self).modules == old(self).modules,
            final(self).crew == old(self).crew,
            final(self).cemetery == old(self).cemetery,
    {
        match &mut self.mission_preparation {
            Some(preparation) => {
                preparation.turns = turns;
            },
            None => {},
        }
    }

    /// Lengthen the planned duration by one turn, stopping at the ceiling.
    pub fn increment_prepare_for_turns(&mut self)
        ensures
            match old(self).mission_preparation {
                Some(p) => final(self).mission_preparation matches Some(q) && q.mission_id
                    == p.mission_id && q.crew_ids == p.crew_ids && q.turns == (if p.turns
                    < u16::MAX {
                    (p.turns + 1) as u16
                } else {
                    p.turns
                }),
                None => final(self).mission_preparation is None,
            },
            final(self).resources == old(self).resources,
            final(self).modules == old(self).modules,
            final(self).crew == old(self).crew,
            final(self).cemetery == old(self).cemetery,
    {
        match &mut self.mission_preparation {
            Some(preparation) => {
                if preparation.turns < u16::MAX {
                    preparation.turns = preparation.turns + 1;
                }
            },
            None => {},
        }
    }

    /// Shorten the planned duration by one turn, stopping at zero.
    pub fn decrement_prepare_for_turns(&mut self)
        ensures
            match old(self).mission_preparation {
                Some(p) => final(self).mission_preparation matches Some(q) && q.mission_id
                    == p.mission_id && q.crew_ids == p.crew_ids && q.turns == (if p.turns > 0 {
                    (p.turns - 1) as u16
                } else {
                    0u16
                }),
                None => final(self).mission_preparation is None,
            },
            final(self).resources == old(self).resources,
            final(self).modules == old(self).modules,
            final(self).crew == old(self).crew,
            final(self).cemetery == old(self).cemetery,
    {
        match &mut self.mission_preparation {
            Some(preparation) => {
                if preparation.turns > 0 {
                    preparation.turns = preparation.turns - 1;
                }
            },
            None => {},
        }
    }

    /// Commit the open preparation: move the candidate crew out of the
    /// roster into a fresh expedition, pre-deduct food and water for the
    /// planned turns only if the stockpiles cover them (an unaffordable
    /// start still happens, just without the deduction), and hand the
    /// expedition back. Without an open preparation nothing happens.
    #[verifier::loop_isolation(false)]
    pub fn start_mission(&mut self) -> (r: Option<ActiveMission>)
        ensures
            match old(self).mission_preparation {
                None => {
                    &&& r is None
                    &&& *final(self) == *old(self)
                },
                Some(p) => {
                    let ex = spec_extract_crew(old(self).crew@, p.crew_ids@, p.mission_id);
                    let upkeep = Resources {
                        energy: 0,
                        living_space: 0,
                        minerals: 0,
                        food: p.turns as i64,
                        water: p.turns as i64,
                    };
                    let afford = old(self).resources.food >= p.turns as i64 && old(
                        self,
                    ).resources.water >= p.turns as i64;
                    &&& r matches Some(am)
                    &&& am.mission_id == p.mission_id
                    &&& am.resources == upkeep
                    &&& am.distance == 0
                    &&& am.state == crate::sector::ActiveMissionState::OutwardTrip(0u16)
                    &&& am.crew@ == ex.1
                    &&& final(self).crew@ == ex.0
                    &&& final(self).resources == if afford {
                        Resources::spec_spend(old(self).resources, upkeep)
                    } else {
                        old(self).resources
                    }
                    &&& final(self).modules == old(self).modules
                    &&& final(self).cemetery == old(self).cemetery
                    &&& final(self).mission_preparation is None
                },
            },
    {
        if self.mission_preparation.is_none() {
            return None;
        }
        let mut taken_prep: Option<MissionPreparation> = None;
        core::mem::swap(&mut taken_prep, &mut self.mission_preparation);
        proof {
            assert(taken_prep == old(self).mission_preparation);
            assert(taken_prep is Some);
        }
        match taken_prep {
            None => {
                proof {
                    assert(false);
                }
                None
            },
            Some(preparation) => {
                let ghost orig_crew = self.crew@;
                let ghost ids = preparation.crew_ids@;
                let ghost mid = preparation.mission_id;
                let mut crew: Vec<CrewMember> = Vec::new();
                let n = preparation.crew_ids.len();
                let mut k: usize = 0;
                proof {
                    assert(ids.subrange(0, n as int) =~= ids);
                    assert(crew@ + spec_extract_crew(self.crew@, ids, mid).1 =~= spec_extract_crew(
                        self.crew@,
                        ids,
                        mid,
                    ).1);
                }
                while k < n
                    invariant
                        0 <= k <= n,
                        n == ids.len(),
                        preparation.crew_ids@ == ids,
                        preparation.mission_id == mid,
                        spec_extract_crew(orig_crew, ids, mid).0 == spec_extract_crew(
                            self.crew@,
                            ids.subrange(k as int, n as int),
                            mid,
                        ).0,
                        spec_extract_crew(orig_crew, ids, mid).1 == crew@ + spec_extract_crew(
                            self.crew@,
                            ids.subrange(k as int, n as int),
                            mid,
                        ).1,
                        self.resources == old(self).resources,
                        self.modules == old(self).modules,
                        self.cemetery == old(self).cemetery,
                        self.mission_preparation is None,
                    decreases n - k,
                {
                    let ghost rest_pre = ids.subrange(k as int, n as int);
                    let ghost crew_pre = self.crew@;
                    let ghost vec_old = crew@;
                    proof {
                        assert(rest_pre[0] == ids[k as int]);
                        assert(rest_pre.drop_first() =~= ids.subrange(k + 1, n as int));
                        crate::store::lemma_find_id_props(crew_pre, ids[k as int]@);
                    }
                    let removed = self.crew.remove(&preparation.crew_ids[k]);
                    match removed {
                        Some(mut crew_member) => {
                            crew_member.assign_to_mission(&preparation.mission_id);
                            crew.push(crew_member);
                            proof {
                                let i0 = find_id(crew_pre, ids[k as int]@);
                                let taken = CrewMember {
                                    assigned_mission: Some(mid),
                                    ..crew_pre[i0]
                                };
                                let e2 = spec_extract_crew(
                                    self.crew@,
                                    ids.subrange(k + 1, n as int),
                                    mid,
                                );
                                assert(crew@ == vec_old.push(taken));
                                assert(vec_old + (seq![taken] + e2.1) =~= crew@ + e2.1);
                            }
                        },
                        None => {},
                    }
                    k = k + 1;
                }
                proof {
                    assert(ids.subrange(n as int, n as int) =~= Seq::<Id>::empty());
                    assert(spec_extract_crew(orig_crew, ids, mid).1 =~= crew@);
                }
                let turns = preparation.turns as i64;
                let upkeep_for_turns = Resources {
                    energy: 0,
                    living_space: 0,
                    minerals: 0,
                    food: turns,
                    water: turns,
                };
                if self.resources.food >= turns && self.resources.water >= turns {
                    self.resources.spend(upkeep_for_turns);
                }
                let mission = ActiveMission::new(&preparation.mission_id, upkeep_for_turns, crew);
                Some(mission)
            },
        }
    }

    /// Run one full turn of the outpost: store production, age the crew,
    /// throttle modules until solvent, then serve crew upkeep in store
    /// order.
    pub fn finish_turn(&mut self, state: &mut GameState)
        ensures
            ({
                let prod = sum_production(old(self).modules@, old(self).crew@);
                let res1 = Resources::spec_store(old(self).resources, prod);
                let aged = aged_seq(old(self).crew@);
                let alive = aged.filter(alive_pred());
                let dead = aged.filter(dead_pred());
                let ms2 = spec_support_modules(old(self).modules@, res1);
                let res2 = Resources::spec_spend(res1, sum_consumption(ms2));
                let served = spec_support_crew(alive, res2);
                &&& final(self).modules@ == ms2
                &&& final(self).crew@ == served.0
                &&& final(self).resources == served.1
                &&& final(self).cemetery@ == old(self).cemetery@ + dead
                &&& final(self).mission_preparation == old(self).mission_preparation
            }),
            *final(state) == *old(state),
    {
        self.store_production();
        self.age_crew();
        self.support_modules();
        self.support_crew();
    }

    /// Store this turn's production into the ledger.
    fn store_production(&mut self)
        ensures
            final(self).resources == Resources::spec_store(
                old(self).resources,
                sum_production(old(self).modules@, old(self).crew@),
            ),
            final(self).modules == old(self).modules,
            final(self).crew == old(self).crew,
            final(self).cemetery == old(self).cemetery,
            final(self).mission_preparation == old(self).mission_preparation,
    {
        let prod = self.production();
        self.resources.store(prod);
    }

    /// Age every crew member one turn and move the dead to the cemetery.
    fn age_crew(&mut self)
        ensures
            final(self).crew@ == aged_seq(old(self).crew@).filter(alive_pred()),
            final(self).cemetery@ == old(self).cemetery@ + aged_seq(old(self).crew@).filter(
                dead_pred(),
            ),
            final(self).resources == old(self).resources,
            final(self).modules == old(self).modules,
            final(self).mission_preparation == old(self).mission_preparation,
    {
        self.age_crew_members();
        self.crew.retain_alive();
    }

    /// Run the needs-health step on every member in place, recording the
    /// newly dead in the cemetery.
    #[verifier::loop_isolation(false)]
    #[verifier::rlimit(80)]
    fn age_crew_members(&mut self)
        ensures
            final(self).crew@ == aged_seq(old(self).crew@),
            final(self).cemetery@ == old(self).cemetery@ + aged_seq(old(self).crew@).filter(
                dead_pred(),
            ),
            final(self).resources == old(self).resources,
            final(self).modules == old(self).modules,
            final(self).mission_preparation == old(self).mission_preparation,
    {
        let ghost orig = self.crew@;
        let n = self.crew.len();
        let mut i: usize = 0;
        proof {
            reveal(Seq::filter);
            assert(aged_seq(orig.subrange(0, 0)).filter(dead_pred()) =~= Seq::<
                CrewMember,
            >::empty());
            assert(self.cemetery@ =~= self.cemetery@ + aged_seq(orig.subrange(0, 0)).filter(
                dead_pred(),
            ));
        }
        while i < n
            invariant
                0 <= i <= n,
                n == orig.len(),
                self.crew@.len() == n,
                forall|j: int| i <= j < n ==> self.crew@[j] == orig[j],
                forall|j: int| 0 <= j < i ==> self.crew@[j] == aged_seq(orig)[j],
                self.cemetery@ == old(self).cemetery@ + aged_seq(orig.subrange(0, i as int)).filter(
                    dead_pred(),
                ),
                self.resources == old(self).resources,
                self.modules == old(self).modules,
                self.mission_preparation == old(self).mission_preparation,
            decreases n - i,
        {
            let mut c = self.crew.get_at(i).clone();
            c.finish_turn();
            proof {
                assert(c == orig[i as int].spec_age());
            }
            if !c.is_alive() {
                self.cemetery.push(c.clone());
            }
            self.crew.set_at(i, c);
            proof {
                reveal(Seq::filter);
                let pre = aged_seq(orig.subrange(0, i + 1));
                assert(pre.drop_last() =~= aged_seq(orig.subrange(0, i as int)));
                assert(pre.last() == orig[i as int].spec_age());
            }
            i = i + 1;
        }
        proof {
            assert(orig.subrange(0, n as int) =~= orig);
            assert(self.crew@ =~= aged_seq(orig));
        }
    }

    /// Sort the modules ascending by cutback order: lowest priority class
    /// first, then lowest consumption.
    fn sort_modules_asc_by_priority(&mut self)
        ensures
            final(self).modules@ == sort_cutback(old(self).modules@),
            final(self).resources == old(self).resources,
            final(self).crew == old(self).crew,
            final(self).cemetery == old(self).cemetery,
            final(self).mission_preparation == old(self).mission_preparation,
    {
        self.modules.sort_by_cut_order();
    }

    /// One cutback step: sort, then throttle the first module consuming a
    /// deficient kind by one level. Returns whether any module was cut.
    #[verifier::loop_isolation(false)]
    fn cut_energy(&mut self, consumption: Resources) -> (r: bool)
        ensures
            ({
                let sorted = sort_cutback(old(self).modules@);
                let delta = Resources::spec_sub(consumption, old(self).resources);
                let i = first_relevant(sorted, delta);
                &&& r == (i >= 0)
                &&& final(self).modules@ == if i >= 0 {
                    sorted.update(i, dec_module(sorted[i]))
                } else {
                    sorted
                }
            }),
            final(self).resources == old(self).resources,
            final(self).crew == old(self).crew,
            final(self).cemetery == old(self).cemetery,
            final(self).mission_preparation == old(self).mission_preparation,
    {
        self.sort_modules_asc_by_priority();
        let ghost sorted = self.modules@;
        let delta = consumption.sub(self.resources);
        let n = self.modules.len();
        let mut i: usize = 0;
        while i < n
            invariant
                0 <= i <= n,
                n == sorted.len(),
                self.modules@ == sorted,
                delta == Resources::spec_sub(consumption, old(self).resources),
                forall|j: int| 0 <= j < i ==> !is_relevant(#[trigger] sorted[j], delta),
                self.resources == old(self).resources,
                self.crew == old(self).crew,
                self.cemetery == old(self).cemetery,
                self.mission_preparation == old(self).mission_preparation,
            decreases n - i,
        {
            let module_is_relevant = {
                let m = self.modules.get_at(i);
                let c = m.consumption();
                (delta.energy > 0 && c.energy > 0) || (delta.living_space > 0 && c.living_space
                    > 0) || (delta.minerals > 0 && c.minerals > 0) || (delta.food > 0 && c.food
                    > 0) || (delta.water > 0 && c.water > 0)
            };
            if module_is_relevant {
                proof {
                    lemma_first_relevant_hit(sorted, delta, i as int);
                }
                let m = self.modules.get_at_mut(i);
                m.decrement_energy_level();
                return true;
            }
            i = i + 1;
        }
        proof {
            lemma_first_relevant_props(sorted, delta);
            if first_relevant(sorted, delta) >= 0 {
                assert(is_relevant(sorted[first_relevant(sorted, delta)], delta));
            }
        }
        false
    }

    /// The cascading solvency loop with its termination guard, then the
    /// final deduction of consumption from the ledger.
    fn support_modules(&mut self)
        ensures
            final(self).modules@ == spec_support_modules(old(self).modules@, old(self).resources),
            final(self).resources == Resources::spec_spend(
                old(self).resources,
                sum_consumption(final(self).modules@),
            ),
            final(self).crew == old(self).crew,
            final(self).cemetery == old(self).cemetery,
            final(self).mission_preparation == old(self).mission_preparation,
    {
        loop
            invariant_except_break
                spec_support_modules(old(self).modules@, old(self).resources)
                    == spec_support_modules(self.modules@, self.resources),
                self.resources == old(self).resources,
                self.crew == old(self).crew,
                self.cemetery == old(self).cemetery,
                self.mission_preparation == old(self).mission_preparation,
            ensures
                self.modules@ == spec_support_modules(old(self).modules@, old(self).resources),
                self.resources == old(self).resources,
                self.crew == old(self).crew,
                self.cemetery == old(self).cemetery,
                self.mission_preparation == old(self).mission_preparation,
            decreases total_eff(self.modules@),
        {
            let cons = self.consumption();
            let ghost pre_ms = self.modules@;
            if self.resources.covers(&cons) {
                proof {
                    assert(spec_support_modules(pre_ms, self.resources) == pre_ms);
                }
                break ;
            }
            let did = self.cut_energy(cons);
            proof {
                let sorted = sort_cutback(pre_ms);
                let delta = Resources::spec_sub(cons, self.resources);
                let i = first_relevant(sorted, delta);
                if i >= 0 {
                    lemma_first_relevant_props(sorted, delta);
                    lemma_relevant_runs(sorted[i], delta);
                    crate::cutback::lemma_total_eff_sort(pre_ms);
                    crate::cutback::lemma_total_eff_update(sorted, i, dec_module(sorted[i]));
                    crate::cutback::lemma_total_eff_nonneg(self.modules@);
                }
            }
            if !did {
                proof {
                    let sorted = sort_cutback(pre_ms);
                    let delta = Resources::spec_sub(cons, self.resources);
                    lemma_first_relevant_props(sorted, delta);
                    assert(first_relevant(sorted, delta) == -1);
                    assert(spec_support_modules(pre_ms, self.resources) == sorted);
                }
                break ;
            }
            proof {
                let sorted = sort_cutback(pre_ms);
                let delta = Resources::spec_sub(cons, self.resources);
                let i = first_relevant(sorted, delta);
                assert(spec_support_modules(pre_ms, self.resources) == spec_support_modules(
                    sorted.update(i, dec_module(sorted[i])),
                    self.resources,
                ));
            }
        }
        let cons = self.consumption();
        self.resources.spend(cons);
    }

    /// Serve crew upkeep from the shared pools in store order.
    #[verifier::loop_isolation(false)]
    fn support_crew(&mut self)
        ensures
            ({
                let served = spec_support_crew(old(self).crew@, old(self).resources);
                &&& final(self).crew@ == served.0
                &&& final(self).resources == served.1
            }),
            final(self).modules == old(self).modules,
            final(self).cemetery == old(self).cemetery,
            final(self).mission_preparation == old(self).mission_preparation,
    {
        let mut available_space = self.resources.living_space;
        let mut available_energy = self.resources.energy;
        let n = self.crew.len();
        let mut i: usize = 0;
        while i < n
            invariant
                0 <= i <= n,
                self.crew@.len() == n,
                spec_support_from(
                    self.crew@,
                    i as int,
                    self.resources,
                    available_energy,
                    available_space,
                ) == spec_support_crew(old(self).crew@, old(self).resources),
                self.modules == old(self).modules,
                self.cemetery == old(self).cemetery,
                self.mission_preparation == old(self).mission_preparation,
            decreases n - i,
        {
            let mut c = self.crew.get_at(i).clone();
            let u = c.upkeep();
            let ghost step = spec_support_one(
                self.crew@[i as int],
                self.resources,
                available_energy,
                available_space,
            );

            if u.food == 0 && u.minerals == 0 {
                c.eat();
            } else if self.resources.food >= u.food && self.resources.minerals >= u.minerals {
                self.resources.food = self.resources.food - u.food;
                self.resources.minerals = self.resources.minerals - u.minerals;
                c.eat();
            }

            if u.water == 0 && u.energy == 0 {
                c.drink();
            } else if self.resources.water >= u.water && available_energy >= u.energy {
                self.resources.water = self.resources.water - u.water;
                available_energy = available_energy - u.energy;
                c.drink();
            }

            if u.living_space == 0 {
                c.rest();
            } else if available_space >= u.living_space {
                available_space = available_space - u.living_space;
                c.rest();
            }

            proof {
                assert(c == step.0);
                assert(self.resources == step.1);
                assert(available_energy == step.2);
                assert(available_space == step.3);
            }
            self.crew.set_at(i, c);
            i = i + 1;
        }
    }
}

} // verus!
