//! The library's general laws, stated and proved over the same spec
//! functions the executable contracts use.

use crate::crew::CrewMember;
use crate::cutback::insert_sorted;
use crate::cutback::sort_cutback;
use crate::cutback::total_eff;
use crate::game::Game;
use crate::ids::Id;
use crate::modules::eff_level;
use crate::modules::Module;
use crate::outpost::dec_module;
use crate::outpost::first_relevant;
use crate::outpost::is_relevant;
use crate::outpost::lemma_first_relevant_props;
use crate::outpost::spec_support_crew;
use crate::outpost::spec_support_modules;
use crate::outpost::sum_consumption;
use crate::outpost::sum_production;
use crate::resources::sat64;
use crate::resources::Resources;
use crate::sector::Sector;
use crate::snapshot::restore_rel;
use crate::snapshot::snap_rel;
use crate::snapshot::GameSnapshot;
use crate::snapshot::lemma_crew_roundtrip;
use crate::snapshot::lemma_module_roundtrip;
use crate::rng::SeededRng;
use vstd::prelude::*;

verus! {

/// Stockpile addition is commutative: combining two bundles does not depend
/// on their order, in any field.
pub proof fn lemma_resources_add_commutative(a: Resources, b: Resources)
    ensures
        Resources::spec_add(a, b) == Resources::spec_add(b, a),
{
}

/// Stockpile addition is associative wherever the sums stay in machine
/// range (at the far ends of the range the saturating combine loses
/// associativity: with `a` at the ceiling, `b` one and `c` minus one,
/// grouping decides whether the ceiling clips).
pub proof fn lemma_resources_add_associative(a: Resources, b: Resources, c: Resources)
    requires
        i64::MIN <= a.energy + b.energy + c.energy <= i64::MAX,
        i64::MIN <= a.energy + b.energy <= i64::MAX,
        i64::MIN <= b.energy + c.energy <= i64::MAX,
        i64::MIN <= a.living_space + b.living_space + c.living_space <= i64::MAX,
        i64::MIN <= a.living_space + b.living_space <= i64::MAX,
        i64::MIN <= b.living_space + c.living_space <= i64::MAX,
        i64::MIN <= a.minerals + b.minerals + c.minerals <= i64::MAX,
        i64::MIN <= a.minerals + b.minerals <= i64::MAX,
        i64::MIN <= b.minerals + c.minerals <= i64::MAX,
        i64::MIN <= a.food + b.food + c.food <= i64::MAX,
        i64::MIN <= a.food + b.food <= i64::MAX,
        i64::MIN <= b.food + c.food <= i64::MAX,
        i64::MIN <= a.water + b.water + c.water <= i64::MAX,
        i64::MIN <= a.water + b.water <= i64::MAX,
        i64::MIN <= b.water + c.water <= i64::MAX,
    ensures
        Resources::spec_add(Resources::spec_add(a, b), c) == Resources::spec_add(
            a,
            Resources::spec_add(b, c),
        ),
{
}

/// The ledger after a sequence of per-turn stores, most recent last.
pub open spec fn store_fold(init: Resources, addends: Seq<Resources>) -> Resources
    decreases addends.len(),
{
    if addends.len() == 0 {
        init
    } else {
        Resources::spec_store(store_fold(init, addends.drop_last()), addends.last())
    }
}

/// The flow fields always equal the most recent addend, never a sum of
/// history; the stockpiles accumulate.
pub proof fn lemma_flow_fields_track_latest(init: Resources, addends: Seq<Resources>)
    requires
        addends.len() > 0,
    ensures
        store_fold(init, addends).energy == addends.last().energy,
        store_fold(init, addends).living_space == addends.last().living_space,
{
}

/// Two per-turn stores commute on the stockpile fields wherever the sums
/// stay in machine range, while the flow fields always come from whichever
/// addend was applied last.
pub proof fn lemma_store_order_irrelevant_for_stockpiles(init: Resources, a: Resources, b: Resources)
    requires
        i64::MIN <= init.minerals + a.minerals <= i64::MAX,
        i64::MIN <= init.minerals + b.minerals <= i64::MAX,
        i64::MIN <= init.minerals + a.minerals + b.minerals <= i64::MAX,
        i64::MIN <= init.food + a.food <= i64::MAX,
        i64::MIN <= init.food + b.food <= i64::MAX,
        i64::MIN <= init.food + a.food + b.food <= i64::MAX,
        i64::MIN <= init.water + a.water <= i64::MAX,
        i64::MIN <= init.water + b.water <= i64::MAX,
        i64::MIN <= init.water + a.water + b.water <= i64::MAX,
    ensures
        Resources::spec_store(Resources::spec_store(init, a), b).minerals == Resources::spec_store(
            Resources::spec_store(init, b),
            a,
        ).minerals,
        Resources::spec_store(Resources::spec_store(init, a), b).food == Resources::spec_store(
            Resources::spec_store(init, b),
            a,
        ).food,
        Resources::spec_store(Resources::spec_store(init, a), b).water == Resources::spec_store(
            Resources::spec_store(init, b),
            a,
        ).water,
        Resources::spec_store(Resources::spec_store(init, a), b).energy == b.energy,
        Resources::spec_store(Resources::spec_store(init, a), b).living_space == b.living_space,
{
}

/// A sequence of energy-level commands: `true` raises the level by one,
/// `false` lowers it.
pub open spec fn apply_level_ops(m: Module, ops: Seq<bool>) -> Module
    decreases ops.len(),
{
    if ops.len() == 0 {
        m
    } else {
        let prev = apply_level_ops(m, ops.drop_last());
        if ops.last() {
            prev.with_level(eff_level((eff_level(prev.spec_level()) + 1) as i64))
        } else {
            dec_module(prev)
        }
    }
}

/// For every sequence of increment and decrement commands, the stored
/// energy level stays inside the 0..3 band.
pub proof fn lemma_energy_level_band(m: Module, ops: Seq<bool>)
    requires
        0 <= m.spec_level() <= 3,
    ensures
        0 <= apply_level_ops(m, ops).spec_level() <= 3,
    decreases ops.len(),
{
    if ops.len() > 0 {
        lemma_energy_level_band(m, ops.drop_last());
    }
}

/// Plain integer totals of a module sequence's consumption, field by field.
pub open spec fn cons_totals(ms: Seq<Module>) -> (int, int, int, int, int)
    decreases ms.len(),
{
    if ms.len() == 0 {
        (0int, 0int, 0int, 0int, 0int)
    } else {
        let p = cons_totals(ms.drop_last());
        let c = ms.last().spec_consumption();
        (
            p.0 + c.energy,
            p.1 + c.living_space,
            p.2 + c.minerals,
            p.3 + c.food,
            p.4 + c.water,
        )
    }
}

/// Every module's consumption is non-negative and small, whatever its
/// stored level.
pub proof fn lemma_cons_bounds(m: Module)
    ensures
        0 <= m.spec_consumption().energy <= 6,
        0 <= m.spec_consumption().living_space <= 6,
        0 <= m.spec_consumption().minerals <= 6,
        0 <= m.spec_consumption().food <= 6,
        0 <= m.spec_consumption().water <= 6,
{
    match m {
        Module::PowerGenerator(k) => {},
        Module::LivingQuarters(k) => {},
        Module::Farm(k) => {},
        Module::Mine(k) => {},
        Module::WaterExtractor(k) => {},
        Module::HoloDeck(k) => {},
    }
}

/// The integer totals are themselves non-negative.
pub proof fn lemma_cons_totals_nonneg(ms: Seq<Module>)
    ensures
        cons_totals(ms).0 >= 0,
        cons_totals(ms).1 >= 0,
        cons_totals(ms).2 >= 0,
        cons_totals(ms).3 >= 0,
        cons_totals(ms).4 >= 0,
    decreases ms.len(),
{
    if ms.len() > 0 {
        lemma_cons_totals_nonneg(ms.drop_last());
        lemma_cons_bounds(ms.last());
    }
}

/// The saturating consumption fold equals the clamped integer totals.
pub proof fn lemma_sum_consumption_totals(ms: Seq<Module>)
    ensures
        sum_consumption(ms).energy == sat64(cons_totals(ms).0),
        sum_consumption(ms).living_space == sat64(cons_totals(ms).1),
        sum_consumption(ms).minerals == sat64(cons_totals(ms).2),
        sum_consumption(ms).food == sat64(cons_totals(ms).3),
        sum_consumption(ms).water == sat64(cons_totals(ms).4),
    decreases ms.len(),
{
    if ms.len() > 0 {
        lemma_sum_consumption_totals(ms.drop_last());
        lemma_cons_totals_nonneg(ms.drop_last());
        lemma_cons_bounds(ms.last());
    }
}

/// Appending a module adds its consumption to the integer totals.
proof fn lemma_cons_totals_push(ms: Seq<Module>, x: Module)
    ensures
        cons_totals(ms.push(x)).0 == cons_totals(ms).0 + x.spec_consumption().energy,
        cons_totals(ms.push(x)).1 == cons_totals(ms).1 + x.spec_consumption().living_space,
        cons_totals(ms.push(x)).2 == cons_totals(ms).2 + x.spec_consumption().minerals,
        cons_totals(ms.push(x)).3 == cons_totals(ms).3 + x.spec_consumption().food,
        cons_totals(ms.push(x)).4 == cons_totals(ms).4 + x.spec_consumption().water,
{
    assert(ms.push(x).drop_last() =~= ms);
    assert(ms.push(x).last() == x);
}

/// Inserting a module in sorted position adds its consumption to the
/// totals.
proof fn lemma_cons_totals_insert_sorted(s: Seq<Module>, x: Module)
    ensures
        cons_totals(insert_sorted(s, x)).0 == cons_totals(s).0 + x.spec_consumption().energy,
        cons_totals(insert_sorted(s, x)).1 == cons_totals(s).1 + x.spec_consumption().living_space,
        cons_totals(insert_sorted(s, x)).2 == cons_totals(s).2 + x.spec_consumption().minerals,
        cons_totals(insert_sorted(s, x)).3 == cons_totals(s).3 + x.spec_consumption().food,
        cons_totals(insert_sorted(s, x)).4 == cons_totals(s).4 + x.spec_consumption().water,
    decreases s.len(),
{
    if s.len() == 0 {
        assert(insert_sorted(s, x) =~= Seq::<Module>::empty().push(x));
        lemma_cons_totals_push(Seq::<Module>::empty(), x);
    } else if crate::cutback::cut_le(s.last(), x) {
        lemma_cons_totals_push(s, x);
    } else {
        lemma_cons_totals_insert_sorted(s.drop_last(), x);
        lemma_cons_totals_push(insert_sorted(s.drop_last(), x), s.last());
    }
}

/// Sorting for the cutback does not change the consumption totals.
pub proof fn lemma_cons_totals_sort(s: Seq<Module>)
    ensures
        cons_totals(sort_cutback(s)) == cons_totals(s),
    decreases s.len(),
{
    if s.len() > 0 {
        lemma_cons_totals_sort(s.drop_last());
        lemma_cons_totals_insert_sorted(sort_cutback(s.drop_last()), s.last());
    }
}

/// Sorting for the cutback does not change the summed consumption.
pub proof fn lemma_sum_consumption_sort(s: Seq<Module>)
    ensures
        sum_consumption(sort_cutback(s)) == sum_consumption(s),
{
    lemma_cons_totals_sort(s);
    lemma_sum_consumption_totals(s);
    lemma_sum_consumption_totals(sort_cutback(s));
}

/// After the cutback completes, every resource kind is either covered by
/// what is available, or no remaining module consumes that kind at all (the
/// accepted escape hatch); and the loop terminates for every finite module
/// set, by the strictly decreasing total of energy levels.
pub proof fn lemma_support_modules_solvency(ms: Seq<Module>, res: Resources)
    ensures
        ({
            let ms2 = spec_support_modules(ms, res);
            let cons = sum_consumption(ms2);
            &&& (cons.energy <= res.energy || forall|j: int|
                0 <= j < ms2.len() ==> (#[trigger] ms2[j]).spec_consumption().energy == 0)
            &&& (cons.living_space <= res.living_space || forall|j: int|
                0 <= j < ms2.len() ==> (#[trigger] ms2[j]).spec_consumption().living_space == 0)
            &&& (cons.minerals <= res.minerals || forall|j: int|
                0 <= j < ms2.len() ==> (#[trigger] ms2[j]).spec_consumption().minerals == 0)
            &&& (cons.food <= res.food || forall|j: int|
                0 <= j < ms2.len() ==> (#[trigger] ms2[j]).spec_consumption().food == 0)
            &&& (cons.water <= res.water || forall|j: int|
                0 <= j < ms2.len() ==> (#[trigger] ms2[j]).spec_consumption().water == 0)
        }),
    decreases total_eff(ms),
{
    let cons = sum_consumption(ms);
    if res.spec_covers(cons) {
    } else {
        let sorted = sort_cutback(ms);
        let delta = Resources::spec_sub(cons, res);
        let i = first_relevant(sorted, delta);
        if i == -1 {
            lemma_first_relevant_props(sorted, delta);
            lemma_sum_consumption_sort(ms);
            let cons2 = sum_consumption(sorted);
            if cons2.energy > res.energy {
                assert(sat64(cons.energy - res.energy) > 0);
                assert(forall|j: int|
                    0 <= j < sorted.len() ==> (#[trigger] sorted[j]).spec_consumption().energy
                        == 0) by {
                    assert(forall|j: int|
                        0 <= j < sorted.len() ==> !is_relevant(#[trigger] sorted[j], delta));
                };
            }
            if cons2.living_space > res.living_space {
                assert(sat64(cons.living_space - res.living_space) > 0);
                assert(forall|j: int|
                    0 <= j < sorted.len() ==> (#[trigger] sorted[j]).spec_consumption().living_space
                        == 0) by {
                    assert(forall|j: int|
                        0 <= j < sorted.len() ==> !is_relevant(#[trigger] sorted[j], delta));
                };
            }
            if cons2.minerals > res.minerals {
                assert(sat64(cons.minerals - res.minerals) > 0);
                assert(forall|j: int|
                    0 <= j < sorted.len() ==> (#[trigger] sorted[j]).spec_consumption().minerals
                        == 0) by {
                    assert(forall|j: int|
                        0 <= j < sorted.len() ==> !is_relevant(#[trigger] sorted[j], delta));
                };
            }
            if cons2.food > res.food {
                assert(sat64(cons.food - res.food) > 0);
                assert(forall|j: int|
                    0 <= j < sorted.len() ==> (#[trigger] sorted[j]).spec_consumption().food
                        == 0) by {
                    assert(forall|j: int|
                        0 <= j < sorted.len() ==> !is_relevant(#[trigger] sorted[j], delta));
                };
            }
            if cons2.water > res.water {
                assert(sat64(cons.water - res.water) > 0);
                assert(forall|j: int|
                    0 <= j < sorted.len() ==> (#[trigger] sorted[j]).spec_consumption().water
                        == 0) by {
                    assert(forall|j: int|
                        0 <= j < sorted.len() ==> !is_relevant(#[trigger] sorted[j], delta));
                };
            }
        } else {
            lemma_first_relevant_props(sorted, delta);
            crate::outpost::lemma_relevant_runs(sorted[i], delta);
            crate::cutback::lemma_total_eff_sort(ms);
            crate::cutback::lemma_total_eff_update(sorted, i, dec_module(sorted[i]));
            crate::cutback::lemma_total_eff_nonneg(sorted.update(i, dec_module(sorted[i])));
            lemma_support_modules_solvency(sorted.update(i, dec_module(sorted[i])), res);
        }
    }
}

/// A crew member's health never rises during the needs-health step, never
/// drops below zero, and removal happens exactly when it reaches zero.
pub proof fn lemma_health_non_increasing(c: CrewMember)
    requires
        c.health >= 0,
    ensures
        0 <= c.spec_age().health <= c.health,
        crate::crew::dead_pred()(c.spec_age()) <==> c.spec_age().health == 0,
        crate::crew::alive_pred()(c.spec_age()) <==> c.spec_age().health > 0,
        sat64(c.spec_age().health * 20) >= 0,
{
    assert(c.spec_age().health * 20 >= 0) by (nonlinear_arith)
        requires
            c.spec_age().health >= 0,
    ;
}

/// The determinism contract: a turn's outcome is a pure function of the
/// aggregate state. Every phase of `finish_turn` equates its result with a
/// specification function of the prior state, so two runs from equal
/// states, with equal seeds and equal command sequences, pass through
/// identical ledgers, energy levels, generator states and mission yields.
pub proof fn lemma_turn_deterministic(
    ms1: Seq<Module>,
    crew1: Seq<CrewMember>,
    res1: Resources,
    missions1: Seq<crate::sector::Mission>,
    am1: Option<crate::sector::ActiveMission>,
    rng1: SeededRng,
    ms2: Seq<Module>,
    crew2: Seq<CrewMember>,
    res2: Resources,
    missions2: Seq<crate::sector::Mission>,
    am2: Option<crate::sector::ActiveMission>,
    rng2: SeededRng,
)
    requires
        ms1 == ms2,
        crew1 == crew2,
        res1 == res2,
        missions1 == missions2,
        am1 == am2,
        rng1 == rng2,
    ensures
        sum_production(ms1, crew1) == sum_production(ms2, crew2),
        spec_support_modules(ms1, res1) == spec_support_modules(ms2, res2),
        spec_support_crew(crew1, res1) == spec_support_crew(crew2, res2),
        Sector::spec_sector_tick(missions1, am1, rng1) == Sector::spec_sector_tick(
            missions2,
            am2,
            rng2,
        ),
{
}

/// A snapshot followed by a rehydration restores the ledger, every
/// module's kind and energy level, every crew member and assignment, the
/// mission state and the generator's continuation point.
pub proof fn lemma_snapshot_roundtrip(g: Game, s: GameSnapshot, g2: Game)
    requires
        snap_rel(g, s),
        restore_rel(s, g2),
    ensures
        g2.state.seed == g.state.seed,
        g2.state.logs@ == g.state.logs@,
        g2.state.current_turn == g.state.current_turn,
        g2.state.rng == g.state.rng,
        g2.outpost.resources == g.outpost.resources,
        g2.outpost.modules@ == g.outpost.modules@,
        g2.outpost.crew@ == g.outpost.crew@,
        g2.outpost.cemetery@ == g.outpost.cemetery@,
        match g.outpost.mission_preparation {
            Some(p) => g2.outpost.mission_preparation matches Some(q) && q.mission_id
                == p.mission_id && q.turns == p.turns && q.crew_ids@ == p.crew_ids@,
            None => g2.outpost.mission_preparation is None,
        },
        g2.sector.sub_sectors@ == g.sector.sub_sectors@,
        g2.sector.sub_sectors_map@ == g.sector.sub_sectors_map@,
        g2.sector.missions@ == g.sector.missions@,
        match g.sector.active_mission {
            Some(am) => g2.sector.active_mission matches Some(a) && a.mission_id == am.mission_id
                && a.resources == am.resources && a.distance == am.distance && a.state == am.state
                && a.crew@ == am.crew@,
            None => g2.sector.active_mission is None,
        },
{
    assert forall|i: int| 0 <= i < g.outpost.modules@.len() implies g2.outpost.modules@[i] == (
    #[trigger] g.outpost.modules@[i]) by {
        lemma_module_roundtrip(g.outpost.modules@[i]);
    };
    assert(g2.outpost.modules@ =~= g.outpost.modules@);
    assert forall|i: int| 0 <= i < g.outpost.crew@.len() implies g2.outpost.crew@[i] == (
    #[trigger] g.outpost.crew@[i]) by {
        lemma_crew_roundtrip(g.outpost.crew@[i]);
    };
    assert(g2.outpost.crew@ =~= g.outpost.crew@);
    assert forall|i: int| 0 <= i < g.outpost.cemetery@.len() implies g2.outpost.cemetery@[i] == (
    #[trigger] g.outpost.cemetery@[i]) by {
        lemma_crew_roundtrip(g.outpost.cemetery@[i]);
    };
    assert(g2.outpost.cemetery@ =~= g.outpost.cemetery@);
    match g.outpost.mission_preparation {
        Some(p) => {
            let q = g2.outpost.mission_preparation->Some_0;
            Id::lemma_text_roundtrip(p.mission_id);
            assert forall|i: int| 0 <= i < p.crew_ids@.len() implies q.crew_ids@[i] == (
            #[trigger] p.crew_ids@[i]) by {
                Id::lemma_text_roundtrip(p.crew_ids@[i]);
            };
            assert(q.crew_ids@ =~= p.crew_ids@);
        },
        None => {},
    }
    assert forall|i: int| 0 <= i < g.sector.sub_sectors@.len() implies g2.sector.sub_sectors@[i]
        == (#[trigger] g.sector.sub_sectors@[i]) by {
        Id::lemma_text_roundtrip(g.sector.sub_sectors@[i].id);
    };
    assert(g2.sector.sub_sectors@ =~= g.sector.sub_sectors@);
    assert forall|i: int| 0 <= i < g.sector.sub_sectors_map@.len() implies
        g2.sector.sub_sectors_map@[i] == (#[trigger] g.sector.sub_sectors_map@[i]) by {
        Id::lemma_text_roundtrip(g.sector.sub_sectors_map@[i].1);
    };
    assert(g2.sector.sub_sectors_map@ =~= g.sector.sub_sectors_map@);
    assert forall|i: int| 0 <= i < g.sector.missions@.len() implies g2.sector.missions@[i] == (
    #[trigger] g.sector.missions@[i]) by {
        Id::lemma_text_roundtrip(g.sector.missions@[i].id);
        Id::lemma_text_roundtrip(g.sector.missions@[i].sub_sector_id);
    };
    assert(g2.sector.missions@ =~= g.sector.missions@);
    match g.sector.active_mission {
        Some(am) => {
            let a = g2.sector.active_mission->Some_0;
            Id::lemma_text_roundtrip(am.mission_id);
            assert forall|i: int| 0 <= i < am.crew@.len() implies a.crew@[i] == (
            #[trigger] am.crew@[i]) by {
                lemma_crew_roundtrip(am.crew@[i]);
            };
            assert(a.crew@ =~= am.crew@);
        },
        None => {},
    }
}

} // verus!
