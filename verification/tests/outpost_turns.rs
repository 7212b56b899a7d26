//! Turn-resolution behaviour of the outpost aggregate.

use outpost::game_state::GameState;
use outpost::modules::farm::Farm;
use outpost::modules::mine::Mine;
use outpost::modules::water_extractor::WaterExtractor;
use outpost::modules::Module;
use outpost::outpost::Outpost;
use outpost::store::SortableStorage;
use outpost::store::Storage;

fn consumption_energy_of(o: &Outpost, name: &str) -> i64 {
    let n = o.modules_len();
    let mut i = 0;
    while i < n {
        let m = o.module_at(i);
        if m.name() == name {
            return m.consumption().energy;
        }
        i += 1;
    }
    panic!("no module named {}", name);
}

/// With no crew assigned anywhere, the crew-eligible modules produce
/// nothing; the stockpiles only pay for the generator's upkeep.
#[test]
fn outpost_finish_turn_stores_production() {
    let mut o = Outpost::new();
    assert_eq!(10, o.resources.minerals);
    assert_eq!(10, o.resources.food);
    assert_eq!(10, o.resources.water);

    o.crew = Storage::new();
    o.add_module(Module::Mine(Mine::new("mine1")));
    o.add_module(Module::Mine(Mine::new("mine2")));
    o.add_module(Module::Farm(Farm::new("farm1")));
    o.add_module(Module::WaterExtractor(WaterExtractor::new("water_extractor1")));

    let mut state = GameState::new(1);
    o.finish_turn(&mut state);

    assert_eq!(9, o.resources.minerals);
    assert_eq!(10, o.resources.food);
    assert_eq!(10, o.resources.water);
}

#[test]
fn outpost_finish_turn_consumes_crew_upkeep() {
    let mut o = Outpost::new();
    assert_eq!(10, o.resources.food);
    assert_eq!(10, o.resources.water);

    let mut state = GameState::new(1);
    o.finish_turn(&mut state);

    assert_eq!(6, o.resources.food);
    assert_eq!(6, o.resources.water);
}

/// With five energy available, the cutback empties both mines (lowest
/// priority class, lowest consumption first) before touching the mid
/// priority modules, and then only trims the water extractor.
#[test]
fn outpost_finish_turn_cuts_energy_levels() {
    let mut o = Outpost::new();

    // The generator at level two with one operator yields five energy; the
    // quarters are shut down so only the test modules compete for it.
    let power_id = o.module_id_by_index(0);
    o.increment_energy_level(&power_id);
    let quarters_id = o.module_id_by_index(1);
    o.decrement_energy_level(&quarters_id);
    o.decrement_energy_level(&quarters_id);
    let a_id = o.crew_member_id_by_index(0);
    o.assign_crew_member_to_module(&a_id, &power_id);

    let mut mine1 = Mine::new("mine1");
    mine1.set_energy_level(3);
    o.add_module(Module::Mine(mine1));

    let mut mine2 = Mine::new("mine2");
    mine2.set_energy_level(3);
    o.add_module(Module::Mine(mine2));

    let mut farm1 = Farm::new("farm1");
    farm1.set_energy_level(3);
    o.add_module(Module::Farm(farm1));

    let mut water = WaterExtractor::new("water_extractor1");
    water.set_energy_level(3);
    o.add_module(Module::WaterExtractor(water));

    let mut state = GameState::new(1);
    o.finish_turn(&mut state);

    let assert_consumption = |expected: i64, name: &str| {
        assert_eq!(
            expected,
            consumption_energy_of(&o, name),
            "{} should have energy {}",
            name,
            expected
        );
    };

    assert_consumption(0, "mine1");
    assert_consumption(0, "mine2");
    assert_consumption(3, "farm1");
    assert_consumption(2, "water_extractor1");
}

/// A fresh outpost stripped of its modules: four crew members each draw one
/// food and one water, clamped at zero, and minerals stay untouched.
#[test]
fn finish_turn_upkeep_without_modules() {
    let mut o = Outpost::new();
    o.modules = SortableStorage::new();

    let mut state = GameState::new(1);
    o.finish_turn(&mut state);

    assert_eq!(6, o.resources.food);
    assert_eq!(6, o.resources.water);
    assert_eq!(10, o.resources.minerals);
    assert_eq!(0, o.resources.energy);
    assert_eq!(0, o.resources.living_space);
}

/// Health drops by one for each unmet need once a turn has raised the
/// flags, floors at zero, and a member leaves the roster exactly when it
/// reaches zero.
#[test]
fn starving_crew_declines_and_dies() {
    let mut o = Outpost::new();
    o.modules = SortableStorage::new();
    o.resources.food = 0;
    o.resources.water = 0;

    let mut state = GameState::new(1);
    o.finish_turn(&mut state);
    // First turn: the flags were clear, so no damage yet.
    assert_eq!(4, o.crew_len());
    assert_eq!(5, o.crew_member_at(0).health);

    o.finish_turn(&mut state);
    // All three needs were unmet: hunger, thirst and no living space.
    assert_eq!(4, o.crew_len());
    assert_eq!(2, o.crew_member_at(0).health);

    o.finish_turn(&mut state);
    // The third turn floors health at zero and empties the roster into the
    // cemetery.
    assert_eq!(0, o.crew_len());
    assert_eq!(4, o.cemetery.len());
    assert_eq!(0, o.cemetery[0].health);
}

/// A deficit in a kind that no module consumes cannot be closed by cutting;
/// the cutback loop stops anyway (the accepted escape hatch) instead of
/// spinning, and the clamped deduction floors the stockpile at zero.
#[test]
fn cutback_stops_when_no_module_can_be_cut() {
    let mut o = Outpost::new();
    o.crew = Storage::new();
    o.resources.minerals = -5;

    let mut state = GameState::new(1);
    o.finish_turn(&mut state);

    assert_eq!(0, o.resources.minerals);
    assert_eq!(0, o.module_at(0).energy_level());
    assert_eq!(0, o.module_at(1).energy_level());
}
