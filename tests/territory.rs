use smeltery::furnace::{FlexibleFurnace, IronSmelting};
use smeltery::gamemodes::StartingResources;
use smeltery::machine::{Furnace, Recipe};
use smeltery::resources::ResourceKind;
use smeltery::smelting::{SmeltCopper, SmeltIron, Smelting};
use smeltery::territory::{Miner, Territory, MINING_TICK_LENGTH};
use smeltery::tick::Tick;

fn build_miner(tick: &mut Tick) -> Miner {
    let start = StartingResources::new(tick, 5);
    let mut iron_territory = start.iron_territory;
    let mut copper_territory = start.copper_territory;
    let furnace = Furnace::build(tick, Recipe::iron_smelting(), start.iron);
    let mut slot = FlexibleFurnace::new::<IronSmelting>(furnace);
    let iron = SmeltIron.mine_and_smelt(tick, &mut iron_territory, &mut slot, 10).unwrap();
    let copper = SmeltCopper.mine_and_smelt(tick, &mut copper_territory, &mut slot, 5).unwrap();
    Miner::build(iron, copper)
}

#[test]
fn hand_mining_costs_time() {
    let mut tick = Tick::start();
    let mut territory = Territory::new(&tick, ResourceKind::CopperOre, 5);
    let ore = territory.hand_mine(&mut tick, 4);
    assert_eq!(ore.amount(), 4);
    assert_eq!(ore.kind(), ResourceKind::CopperOre);
    assert_eq!(tick.cur(), 4 * MINING_TICK_LENGTH);
    assert_eq!(territory.resources(&tick).amount(), 0);
}

#[test]
fn miners_gather_ore_over_time() {
    let mut tick = Tick::start();
    let miner = build_miner(&mut tick);
    let second = build_miner(&mut tick);
    let mut territory = Territory::new(&tick, ResourceKind::IronOre, 5);
    assert!(territory.add_miner(&tick, miner).is_ok());
    assert_eq!(territory.num_miners(), 1);
    tick.advance_by(10);
    assert_eq!(territory.resources(&tick).amount(), 5);
    assert!(territory.add_miner(&tick, second).is_ok());
    tick.advance_by(4);
    assert_eq!(territory.resources(&tick).amount(), 9);
    let taken = territory.resources(&tick).split_off_max(6);
    assert_eq!(taken.amount(), 6);
    assert_eq!(territory.resources(&tick).amount(), 3);
    assert!(territory.take_miner(&tick).is_some());
    assert_eq!(territory.num_miners(), 1);
}

#[test]
fn full_territory_refuses_a_miner() {
    let mut tick = Tick::start();
    let miner = build_miner(&mut tick);
    let mut territory = Territory::new(&tick, ResourceKind::IronOre, 0);
    assert!(territory.take_miner(&tick).is_none());
    let refused = territory.add_miner(&tick, miner).unwrap_err();
    assert_eq!(refused.max_miners, 0);
    assert_eq!(territory.num_miners(), 0);
    assert_eq!(territory.max_miners(), 0);
}
