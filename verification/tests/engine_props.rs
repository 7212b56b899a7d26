//! Cross-cutting engine properties: ledger arithmetic, determinism,
//! snapshots, the seeded generator and the expedition lifecycle.

use outpost::crew::CrewMember;
use outpost::game::Game;
use outpost::game_state::GameState;
use outpost::ids::Id;
use outpost::modules::Module;
use outpost::outpost::Outpost;
use outpost::resources::Resources;
use outpost::rng::SeededRng;
use outpost::sector::ActiveMission;
use outpost::sector::ActiveMissionState;
use outpost::sector::Coordinates;

fn opt_id_text(o: &Option<Id>) -> Option<String> {
    match o {
        Some(i) => Some(i.as_text().clone()),
        None => None,
    }
}

#[test]
fn stockpile_addition_commutes_and_associates() {
    let a = Resources { energy: 1, living_space: 2, minerals: 3, food: 4, water: 5 };
    let b = Resources { energy: 9, living_space: 8, minerals: 7, food: 6, water: 5 };
    let c = Resources { energy: -1, living_space: 0, minerals: 2, food: -3, water: 4 };
    assert_eq!(a.add(b), b.add(a));
    assert_eq!(a.add(b).add(c), a.add(b.add(c)));
}

#[test]
fn flow_fields_take_latest_value_stockpiles_accumulate() {
    let mut ledger = Resources { energy: 7, living_space: 7, minerals: 1, food: 1, water: 1 };
    ledger.store(Resources { energy: 2, living_space: 3, minerals: 4, food: 5, water: 6 });
    assert_eq!(2, ledger.energy);
    assert_eq!(3, ledger.living_space);
    assert_eq!(5, ledger.minerals);
    assert_eq!(6, ledger.food);
    assert_eq!(7, ledger.water);
    ledger.store(Resources { energy: 1, living_space: 1, minerals: 0, food: 0, water: 0 });
    // The flows carry the most recent addend, never a sum of history.
    assert_eq!(1, ledger.energy);
    assert_eq!(1, ledger.living_space);
    assert_eq!(5, ledger.minerals);
}

#[test]
fn spending_clamps_stockpiles_at_zero() {
    let mut ledger = Resources { energy: 4, living_space: 4, minerals: 2, food: 2, water: 2 };
    ledger.spend(Resources { energy: 9, living_space: 9, minerals: 5, food: 1, water: 2 });
    assert_eq!(4, ledger.energy);
    assert_eq!(4, ledger.living_space);
    assert_eq!(0, ledger.minerals);
    assert_eq!(1, ledger.food);
    assert_eq!(0, ledger.water);
}

#[test]
fn energy_level_stays_in_band() {
    let mut m = Module::Mine(outpost::modules::mine::Mine::new("m"));
    assert_eq!(1, m.energy_level());
    m.increment_energy_level();
    m.increment_energy_level();
    m.increment_energy_level();
    m.increment_energy_level();
    assert_eq!(3, m.energy_level());
    m.decrement_energy_level();
    m.decrement_energy_level();
    m.decrement_energy_level();
    m.decrement_energy_level();
    assert_eq!(0, m.energy_level());
    m.set_energy_level(99);
    assert_eq!(3, m.energy_level());
    m.set_energy_level(-7);
    assert_eq!(0, m.energy_level());
}

#[test]
fn mood_reflects_unmet_needs() {
    let mut c = CrewMember::new("m".to_string());
    assert_eq!(40, c.mood());
    c.is_thirsty = true;
    assert_eq!(-100, c.mood());
    c.is_thirsty = false;
    c.is_hungry = true;
    assert_eq!(-20, c.mood());
    c.is_tired = true;
    assert_eq!(-80, c.mood());
}

#[test]
fn seeded_generator_is_reproducible() {
    let mut r1 = SeededRng::from_seed(42);
    let mut r2 = SeededRng::from_seed(42);
    for _ in 0..16 {
        assert_eq!(r1.next_u64(), r2.next_u64());
    }
    let v = r1.gen_range_u16(5, 10);
    assert!((5..10).contains(&v));

    // An empty span hands back the lower bound without touching the state.
    let before = r1;
    assert_eq!(7, r1.gen_range_u16(7, 7));
    assert_eq!(before, r1);
}

#[test]
fn fresh_ids_have_fixed_length() {
    let a = Id::fresh();
    let b = Id::fresh();
    assert_eq!(21, a.as_text().len());
    assert_eq!(21, b.as_text().len());
    assert!(a.eq_id(&a));
}

#[test]
fn recorded_seed_is_base64_of_big_endian_bytes() {
    let state = GameState::new(0);
    assert_eq!("AAAAAAAAAAA=", state.seed.as_str());
    let state2 = GameState::new(1);
    assert_eq!("AAAAAAAAAAE=", state2.seed.as_str());
}

#[test]
fn hex_distances_match_the_offset_grid() {
    let origin = Coordinates::new(0, 0);
    assert_eq!(0, origin.hex_length());
    assert_eq!(1, origin.hex_distance_to(Coordinates::new(1, 0)));
    assert_eq!(1, origin.hex_distance_to(Coordinates::new(0, 1)));
    assert_eq!(2, origin.hex_distance_to(Coordinates::new(0, 2)));
    assert_eq!(3, Coordinates::new(-2, -1).hex_distance_to(Coordinates::new(1, -1)));
}

/// Two campaigns with the same seed and the same commands pass through
/// identical ledgers, generator states and mission yields.
#[test]
fn identical_seeds_and_commands_give_identical_runs() {
    let run = || {
        let mut g = Game::new_with_seed(1234);
        let mission_id = g.sector.missions.get_at(0).id.clone();
        let expedition = ActiveMission::new(&mission_id, Resources::zero(), Vec::new());
        g.sector.set_active_mission(expedition);
        for _ in 0..4 {
            g.finish_turn();
        }
        g
    };
    let g1 = run();
    let g2 = run();
    assert_eq!(g1.state.rng, g2.state.rng);
    assert_eq!(g1.outpost.resources, g2.outpost.resources);
    assert_eq!(g1.state.current_turn, 4);
    match (&g1.sector.active_mission, &g2.sector.active_mission) {
        (Some(a), Some(b)) => {
            assert_eq!(a.resources, b.resources);
            assert_eq!(a.state, b.state);
            assert!(matches!(a.state, ActiveMissionState::AtDestination(_)));
            // Three turns at the destination have gathered minerals in range.
            assert!(a.resources.minerals >= 15 && a.resources.minerals < 30);
        },
        _ => panic!("expected a running expedition in both runs"),
    }
}

/// The snapshot round trip preserves the ledger, every module's kind and
/// level, every crew assignment, and the generator's continuation point.
#[test]
fn snapshot_round_trip_preserves_state() {
    let mut g = Game::new_with_seed(77);
    g.finish_turn();
    let snap = g.snapshot();
    let g2 = Game::from_snapshot(snap);

    assert_eq!(g.state.rng, g2.state.rng);
    assert_eq!(g.state.current_turn, g2.state.current_turn);
    assert_eq!(g.state.seed, g2.state.seed);
    assert_eq!(g.outpost.resources, g2.outpost.resources);
    assert_eq!(g.outpost.modules_len(), g2.outpost.modules_len());
    for i in 0..g.outpost.modules_len() {
        let m1 = g.outpost.module_at(i);
        let m2 = g2.outpost.module_at(i);
        assert_eq!(m1.name(), m2.name());
        assert_eq!(m1.energy_level(), m2.energy_level());
        assert_eq!(m1.priority(), m2.priority());
        assert_eq!(m1.consumption(), m2.consumption());
    }
    assert_eq!(g.outpost.crew_len(), g2.outpost.crew_len());
    for i in 0..g.outpost.crew_len() {
        let c1 = g.outpost.crew_member_at(i);
        let c2 = g2.outpost.crew_member_at(i);
        assert_eq!(c1.name, c2.name);
        assert_eq!(c1.health, c2.health);
        assert_eq!(opt_id_text(&c1.assigned_module), opt_id_text(&c2.assigned_module));
    }
    assert_eq!(
        g.sector.sub_sectors_map.len(),
        g2.sector.sub_sectors_map.len()
    );
    assert_eq!(g.sector.missions.len(), g2.sector.missions.len());
}

/// Starting a mission with insufficient food and water for the planned
/// duration still creates the expedition, without deducting the shortfall.
#[test]
fn unaffordable_mission_starts_without_deduction() {
    let mut o = Outpost::new();
    let mission_id = Id::from_text("survey-mission".to_string());
    o.prepare_mission(&mission_id, 25);
    let c_id = o.crew_member_id_by_index(2);
    o.prepare_crew_member_for_mission(&c_id);

    assert_eq!(10, o.resources.food);
    assert_eq!(10, o.resources.water);

    let started = o.start_mission();
    let expedition = started.expect("the expedition should start regardless");
    // The shortfall was not deducted from the stockpiles.
    assert_eq!(10, o.resources.food);
    assert_eq!(10, o.resources.water);
    // The expedition carries the planned rations on paper and the crew.
    assert_eq!(25, expedition.resources.food);
    assert_eq!(25, expedition.resources.water);
    assert_eq!(1, expedition.crew.len());
    assert_eq!(3, o.crew_len());
    assert!(matches!(expedition.state, ActiveMissionState::OutwardTrip(0)));
}

/// An affordable start pre-deducts food and water for the planned turns.
#[test]
fn affordable_mission_deducts_rations() {
    let mut o = Outpost::new();
    let mission_id = Id::from_text("short-survey".to_string());
    o.prepare_mission(&mission_id, 3);
    let c_id = o.crew_member_id_by_index(0);
    o.prepare_crew_member_for_mission(&c_id);

    let started = o.start_mission();
    assert!(started.is_some());
    assert_eq!(7, o.resources.food);
    assert_eq!(7, o.resources.water);
}

#[test]
fn missions_are_listed_at_their_sub_sector() {
    let g = Game::new_with_seed(5);
    let at = g.sector.missions_at(0, -1);
    assert_eq!(1, at.len());
    let elsewhere = g.sector.missions_at(1, 1);
    assert_eq!(0, elsewhere.len());
    let unmapped = g.sector.missions_at(9, 9);
    assert_eq!(0, unmapped.len());
}

#[test]
fn describe_projections_report_current_values() {
    let g = Game::new_with_seed(8);
    let m = g.outpost.module_at(2);
    let d = g.outpost.describe_module(m);
    assert_eq!("water", d.name.as_str());
    assert_eq!(3, d.energy_levels.len());
    assert!(d.energy_levels[0].is_active);
    assert!(!d.energy_levels[1].is_active);

    let c = g.outpost.crew_member_at(0);
    let cd = g.outpost.describe_crew_member(c);
    assert_eq!("a", cd.name.as_str());
    assert_eq!(40, cd.mood);
    assert_eq!("water", cd.assigned_module_name().as_str());
    let unassigned = g.outpost.describe_crew_member(g.outpost.crew_member_at(2));
    assert_eq!("not assigned", unassigned.assigned_module_name().as_str());
}

/// The water extractor floors its output at zero: an unhappy skilled
/// member can drag the mood-scaled bonus below the base yield, but the
/// extractor never pumps water back.
#[test]
fn extractor_output_never_goes_negative() {
    let extractor = Module::WaterExtractor(outpost::modules::water_extractor::WaterExtractor::new(
        "condenser",
    ));
    let mut worker = CrewMember::new("parched".to_string());
    worker.stats = outpost::stats::Stats::chemistry(40);
    worker.is_thirsty = true;
    // The raw marginal bonus is negative at rock-bottom mood.
    assert_eq!(
        -2,
        outpost::modules::water_extractor::production_bonus(&worker)
    );
    let crew = vec![worker];
    let produced = extractor.production(&crew);
    assert_eq!(0, produced.water);
}

/// Production needs at least one assigned operator, scales with the energy
/// level, and counts at most `energy_level` marginal bonuses.
#[test]
fn production_needs_crew_and_caps_bonus_slots() {
    let mine = {
        let mut m = outpost::modules::mine::Mine::new("shaft");
        m.set_energy_level(2);
        m
    };
    let module = Module::Mine(mine);

    let no_crew: Vec<CrewMember> = Vec::new();
    assert_eq!(0, module.production(&no_crew).minerals);

    let fresh = || CrewMember::new("worker".to_string());
    let one = vec![fresh()];
    // Base two for the level, plus one mood-scaled bonus.
    assert_eq!(3, module.production(&one).minerals);

    let three = vec![fresh(), fresh(), fresh()];
    // Only two of the three contribute at energy level two.
    assert_eq!(4, module.production(&three).minerals);
    assert_eq!(1, module.available_slots(&one));
    assert_eq!(0, module.available_slots(&three));

    let rows = module.energy_levels(&one);
    assert_eq!(3, rows.len());
    assert!(rows[0].is_active && rows[1].is_active && !rows[2].is_active);
    assert!(rows[0].assignment.is_some());
    assert!(rows[1].assignment.is_none());
    assert_eq!("worker", rows[0].assigned_crew_name().as_str());
    assert_eq!("empty", rows[1].assigned_crew_name().as_str());
}
