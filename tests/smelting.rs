use smeltery::furnace::{CopperSmelting, FlexibleFurnace, IronSmelting, SteelSmelting};
use smeltery::gamemodes::StartingResources;
use smeltery::machine::{Furnace, Recipe};
use smeltery::resources::ResourceKind;
use smeltery::smelting::{collect_output, feed_furnace, mine_and_smelt_with, Error, SmeltCopper, SmeltIron, Smelting};
use smeltery::territory::{Miner, Territory, MINING_TICK_LENGTH};
use smeltery::tick::Tick;

fn five_tick_copper() -> Recipe {
    Recipe { input: ResourceKind::CopperOre, input_amount: 1, output: ResourceKind::Copper, output_amount: 1, time: 5 }
}

#[test]
fn three_units_from_an_empty_territory() {
    let mut tick = Tick::start();
    let start = StartingResources::new(&tick, 5);
    let mut territory = start.copper_territory;
    let mut furnace = Furnace::build(&tick, five_tick_copper(), start.iron);
    let copper = mine_and_smelt_with(&mut tick, &mut territory, &mut furnace, 3);
    assert_eq!(copper.amount(), 3);
    assert_eq!(copper.kind(), ResourceKind::Copper);
    assert_eq!(furnace.outputs(&tick).amount(), 0);
    assert_eq!(furnace.inputs(&tick).amount(), 0);
    assert!(tick.cur() >= 3 * MINING_TICK_LENGTH + 5);
    assert_eq!(tick.cur(), 17);
}

#[test]
fn feeding_mines_by_hand_one_unit_at_a_time() {
    let mut tick = Tick::start();
    let start = StartingResources::new(&tick, 5);
    let mut territory = start.copper_territory;
    let mut furnace = Furnace::build(&tick, five_tick_copper(), start.iron);
    feed_furnace(&mut tick, &mut territory, &mut furnace, 3);
    assert_eq!(tick.cur(), 6);
    assert_eq!(furnace.inputs(&tick).amount() + furnace.outputs(&tick).amount(), 3);
    let copper = collect_output(&mut tick, &mut furnace, 2);
    assert_eq!(copper.amount(), 2);
    assert_eq!(tick.cur(), 12);
    assert_eq!(furnace.inputs(&tick).amount() + furnace.outputs(&tick).amount(), 1);
}

#[test]
fn zero_units_take_no_time() {
    let mut tick = Tick::start();
    let start = StartingResources::new(&tick, 5);
    let mut territory = start.iron_territory;
    let mut furnace = Furnace::build(&tick, Recipe::iron_smelting(), start.iron);
    let iron = mine_and_smelt_with(&mut tick, &mut territory, &mut furnace, 0);
    assert_eq!(iron.amount(), 0);
    assert_eq!(tick.cur(), 0);
}

#[test]
fn flexible_furnace_builds_a_miner() {
    let mut tick = Tick::start();
    let start = StartingResources::new(&tick, 20);
    let mut iron_territory = start.iron_territory;
    let mut copper_territory = start.copper_territory;
    let furnace = Furnace::build(&tick, Recipe::iron_smelting(), start.iron);
    let mut slot = FlexibleFurnace::new::<IronSmelting>(furnace);
    let iron = SmeltIron.mine_and_smelt(&mut tick, &mut iron_territory, &mut slot, 10).unwrap();
    assert_eq!(iron.amount(), 10);
    assert_eq!(iron.kind(), ResourceKind::Iron);
    assert_eq!(tick.cur(), 62);
    let copper = SmeltCopper.mine_and_smelt(&mut tick, &mut copper_territory, &mut slot, 5).unwrap();
    assert_eq!(copper.amount(), 5);
    assert_eq!(copper.kind(), ResourceKind::Copper);
    assert_eq!(tick.cur(), 94);
    assert!(slot.as_recipe_mut::<CopperSmelting>().is_some());
    assert!(slot.as_recipe_mut::<IronSmelting>().is_none());
    let miner = Miner::build(iron, copper);
    assert!(iron_territory.add_miner(&tick, miner).is_ok());
    assert_eq!(iron_territory.num_miners(), 1);
}

#[test]
fn gathered_ore_is_used_before_hand_mining() {
    let mut tick = Tick::start();
    let start = StartingResources::new(&tick, 20);
    let mut iron_territory = start.iron_territory;
    let mut copper_territory = start.copper_territory;
    let furnace = Furnace::build(&tick, Recipe::iron_smelting(), start.iron);
    let mut slot = FlexibleFurnace::new::<IronSmelting>(furnace);
    let iron = SmeltIron.mine_and_smelt(&mut tick, &mut iron_territory, &mut slot, 10).unwrap();
    let copper = SmeltCopper.mine_and_smelt(&mut tick, &mut copper_territory, &mut slot, 5).unwrap();
    iron_territory.add_miner(&tick, Miner::build(iron, copper)).unwrap();
    tick.advance_by(20);
    assert_eq!(iron_territory.resources(&tick).amount(), 10);
    let before = tick.cur();
    let mut territory = iron_territory;
    let mut feed_slot = slot;
    feed_slot.change_recipe(IronSmelting).unwrap();
    let furnace = feed_slot.as_recipe_mut::<IronSmelting>().unwrap();
    feed_furnace(&mut tick, &mut territory, furnace, 4);
    assert_eq!(tick.cur(), before);
    assert_eq!(territory.resources(&tick).amount(), 6);
    feed_furnace(&mut tick, &mut territory, furnace, 8);
    // Six units come from the stock and one by hand; while that one is
    // mined the miner gathers the last.
    assert_eq!(tick.cur(), before + MINING_TICK_LENGTH);
    assert_eq!(territory.resources(&tick).amount(), 0);
}

#[test]
fn non_empty_slot_is_refused_and_kept() {
    let mut tick = Tick::start();
    let start = StartingResources::new(&tick, 5);
    let mut iron_territory = start.iron_territory;
    let mut copper_territory = start.copper_territory;
    let furnace = Furnace::build(&tick, Recipe::iron_smelting(), start.iron);
    let mut slot = FlexibleFurnace::new::<IronSmelting>(furnace);
    let ore = iron_territory.hand_mine(&mut tick, 1);
    slot.as_recipe_mut::<IronSmelting>().unwrap().inputs(&tick).add_bundle(ore);
    let before = tick.cur();
    let result = SmeltCopper.mine_and_smelt(&mut tick, &mut copper_territory, &mut slot, 2);
    assert!(matches!(result, Err(Error::FurnaceIsNotEmpty)));
    assert_eq!(tick.cur(), before);
    let result = SmeltIron.mine_and_smelt(&mut tick, &mut iron_territory, &mut slot, 2);
    assert!(matches!(result, Err(Error::FurnaceIsNotEmpty)));
    let err = slot.change_recipe(SteelSmelting).unwrap_err();
    assert_eq!(err.resource_type, ResourceKind::IronOre);
    assert_eq!(err.amount, 1);
    let kept = slot.as_recipe_mut::<IronSmelting>().unwrap();
    assert_eq!(kept.inputs(&tick).amount(), 1);
    assert_eq!(kept.recipe(), Recipe::iron_smelting());
}

#[test]
fn slot_switches_between_recipes() {
    let tick = Tick::start();
    let start = StartingResources::new(&tick, 5);
    let furnace = Furnace::build(&tick, Recipe::copper_smelting(), start.iron);
    let mut slot = FlexibleFurnace::new::<CopperSmelting>(furnace);
    assert!(slot.as_recipe_mut::<IronSmelting>().is_none());
    assert!(slot.change_recipe(SteelSmelting).is_ok());
    let steel = slot.as_recipe_mut::<SteelSmelting>().unwrap();
    assert_eq!(steel.recipe(), Recipe::steel_smelting());
    assert!(slot.change_recipe(CopperSmelting).is_ok());
    assert!(slot.as_recipe_mut::<SteelSmelting>().is_none());
    let copper = slot.as_recipe_mut::<CopperSmelting>().unwrap();
    assert_eq!(copper.recipe(), Recipe::copper_smelting());
}

#[test]
fn first_input_and_output_open_the_slot() {
    let mut tick = Tick::start();
    let start = StartingResources::new(&tick, 5);
    let mut territory = Territory::new(&tick, ResourceKind::IronOre, 5);
    let furnace = Furnace::build(&tick, Recipe::iron_smelting(), start.iron);
    let mut slot = FlexibleFurnace::new::<IronSmelting>(furnace);
    let ore = territory.hand_mine(&mut tick, 2);
    SmeltIron.first_input(&tick, &mut slot).add_bundle(ore);
    tick.advance_by(6);
    assert_eq!(SmeltIron.first_output(&tick, &mut slot).amount(), 1);
    assert_eq!(SmeltIron.first_input(&tick, &mut slot).amount(), 1);
    let iron = SmeltIron.first_output(&tick, &mut slot).bundle(1).unwrap();
    assert_eq!(iron.kind(), ResourceKind::Iron);
}
