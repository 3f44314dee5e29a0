use smeltery::gamemodes::StartingResources;
use smeltery::machine::{BufferLocation, Furnace, Recipe};
use smeltery::resources::ResourceKind;
use smeltery::territory::Territory;
use smeltery::tick::Tick;

#[test]
fn furnace_smelts_one_batch_per_recipe_time() {
    let mut tick = Tick::start();
    let start = StartingResources::new(&tick, 5);
    let mut territory = Territory::new(&tick, ResourceKind::IronOre, 5);
    let mut furnace = Furnace::build(&tick, Recipe::iron_smelting(), start.iron);
    let ore = territory.hand_mine(&mut tick, 3);
    assert_eq!(tick.cur(), 6);
    furnace.inputs(&tick).add_bundle(ore);
    tick.advance_by(5);
    assert_eq!(furnace.outputs(&tick).amount(), 0);
    tick.advance_by(1);
    assert_eq!(furnace.outputs(&tick).amount(), 1);
    assert_eq!(furnace.inputs(&tick).amount(), 2);
    assert_eq!(furnace.output_amount_at(tick.cur() + 12), 3);
    tick.advance_by(12);
    assert_eq!(furnace.outputs(&tick).amount(), 3);
    assert_eq!(furnace.inputs(&tick).amount(), 0);
    let iron = furnace.outputs(&tick).bundle(3).unwrap();
    assert_eq!(iron.kind(), ResourceKind::Iron);
    assert_eq!(iron.amount(), 3);
}

#[test]
fn steel_takes_five_iron_per_unit() {
    let mut tick = Tick::start();
    let first = StartingResources::new(&tick, 5);
    let second = StartingResources::new(&tick, 5);
    let mut furnace = Furnace::build(&tick, Recipe::steel_smelting(), first.iron);
    furnace.inputs(&tick).add_bundle(second.iron);
    tick.advance_by(30);
    assert_eq!(furnace.outputs(&tick).amount(), 1);
    assert_eq!(furnace.inputs(&tick).amount(), 5);
    tick.advance_by(29);
    assert_eq!(furnace.outputs(&tick).amount(), 1);
    tick.advance_by(1);
    assert_eq!(furnace.outputs(&tick).amount(), 2);
    assert_eq!(furnace.inputs(&tick).amount(), 0);
    assert_eq!(furnace.outputs(&tick).kind(), ResourceKind::Steel);
}

#[test]
fn idle_time_does_not_count_towards_a_batch() {
    let mut tick = Tick::start();
    let start = StartingResources::new(&tick, 5);
    let mut territory = Territory::new(&tick, ResourceKind::CopperOre, 5);
    let mut furnace = Furnace::build(&tick, Recipe::copper_smelting(), start.iron);
    tick.advance_by(100);
    let ore = territory.hand_mine(&mut tick, 1);
    furnace.inputs(&tick).add_bundle(ore);
    tick.advance_by(5);
    assert_eq!(furnace.outputs(&tick).amount(), 0);
    tick.advance_by(1);
    assert_eq!(furnace.outputs(&tick).amount(), 1);
}

#[test]
fn non_empty_furnace_refuses_a_new_recipe() {
    let mut tick = Tick::start();
    let start = StartingResources::new(&tick, 5);
    let mut territory = Territory::new(&tick, ResourceKind::IronOre, 5);
    let mut furnace = Furnace::build(&tick, Recipe::iron_smelting(), start.iron);
    let ore = territory.hand_mine(&mut tick, 2);
    furnace.inputs(&tick).add_bundle(ore);
    let err = furnace.change_recipe(Recipe::copper_smelting()).unwrap_err();
    assert_eq!(err.location, BufferLocation::Input);
    assert_eq!(err.resource_type, ResourceKind::IronOre);
    assert_eq!(err.amount, 2);
    let mut furnace = err.machine;
    assert_eq!(furnace.recipe(), Recipe::iron_smelting());
    assert_eq!(furnace.inputs(&tick).amount(), 2);

    tick.advance_by(6);
    let err = furnace.change_recipe(Recipe::copper_smelting()).unwrap_err();
    assert_eq!(err.location, BufferLocation::Input);
    let mut furnace = err.machine;
    furnace.inputs(&tick).empty();
    let err = furnace.change_recipe(Recipe::copper_smelting()).unwrap_err();
    assert_eq!(err.location, BufferLocation::Output);
    assert_eq!(err.resource_type, ResourceKind::Iron);
    assert_eq!(err.amount, 1);
    let mut furnace = err.machine;
    assert_eq!(furnace.outputs(&tick).amount(), 1);
}

#[test]
fn empty_furnace_switches_and_starts_empty() {
    let mut tick = Tick::start();
    let start = StartingResources::new(&tick, 5);
    let furnace = Furnace::build(&tick, Recipe::iron_smelting(), start.iron);
    tick.advance_by(3);
    let mut furnace = furnace.change_recipe(Recipe::copper_smelting()).unwrap();
    assert_eq!(furnace.recipe(), Recipe::copper_smelting());
    assert_eq!(furnace.inputs(&tick).amount(), 0);
    assert_eq!(furnace.inputs(&tick).kind(), ResourceKind::CopperOre);
    assert_eq!(furnace.outputs(&tick).amount(), 0);
    assert_eq!(furnace.outputs(&tick).kind(), ResourceKind::Copper);
}

#[test]
fn switching_back_matches_a_fresh_furnace() {
    let mut tick = Tick::start();
    let first = StartingResources::new(&tick, 5);
    let second = StartingResources::new(&tick, 5);
    let mut territory = Territory::new(&tick, ResourceKind::IronOre, 5);
    let mut furnace = Furnace::build(&tick, Recipe::iron_smelting(), first.iron);
    let ore = territory.hand_mine(&mut tick, 2);
    furnace.inputs(&tick).add_bundle(ore);
    tick.advance_by(12);
    let iron = furnace.outputs(&tick).bundle(2).unwrap();
    assert_eq!(iron.amount(), 2);
    let switched = furnace.change_recipe(Recipe::steel_smelting()).unwrap();
    let back = switched.change_recipe(Recipe::iron_smelting()).unwrap();
    let fresh = Furnace::build(&tick, Recipe::iron_smelting(), second.iron);
    assert_eq!(back.recipe(), fresh.recipe());
    assert_eq!(back.last_tick(), fresh.last_tick());
    let (mut back, mut fresh) = (back, fresh);
    let mut t2 = Tick::start();
    t2.advance_by(tick.cur());
    let mut ore_site = Territory::new(&t2, ResourceKind::IronOre, 5);
    let a = ore_site.hand_mine(&mut t2, 1);
    let b = ore_site.hand_mine(&mut t2, 1);
    back.inputs(&t2).add_bundle(a);
    fresh.inputs(&t2).add_bundle(b);
    for _ in 0..8 {
        t2.advance();
        assert_eq!(back.outputs(&t2).amount(), fresh.outputs(&t2).amount());
        assert_eq!(back.inputs(&t2).amount(), fresh.inputs(&t2).amount());
    }
    assert_eq!(back.outputs(&t2).amount(), 1);
}
