//! What a game starts with.
use vstd::prelude::*;
use crate::resources::{Bundle, ResourceKind};
use crate::territory::{Territory, MINING_TICK_LENGTH};
use crate::tick::Tick;

verus! {

/// The grant a game starts from: 10 iron, and an iron and a copper
/// territory.
#[derive(Debug)]
pub struct StartingResources {
    pub iron: Bundle,
    pub iron_territory: Territory,
    pub copper_territory: Territory,
}

impl StartingResources {
    /// The grant, with room for `max_miners` miners in each territory.
    pub fn new(tick: &Tick, max_miners: u32) -> (r: StartingResources)
        ensures
            r.iron.kind() == ResourceKind::Iron,
            r.iron.amount() == 10,
            r.iron_territory.kind() == ResourceKind::IronOre,
            r.copper_territory.kind() == ResourceKind::CopperOre,
            r.iron_territory.stock() == 0 && r.copper_territory.stock() == 0,
            r.iron_territory.num_miners() == 0 && r.copper_territory.num_miners() == 0,
            r.iron_territory.max_miners() == max_miners && r.copper_territory.max_miners() == max_miners,
            r.iron_territory.mining_tick() == tick.cur() / MINING_TICK_LENGTH,
            r.copper_territory.mining_tick() == tick.cur() / MINING_TICK_LENGTH,
    {
        StartingResources {
            iron: Bundle::new(ResourceKind::Iron, 10),
            iron_territory: Territory::new(tick, ResourceKind::IronOre, max_miners),
            copper_territory: Territory::new(tick, ResourceKind::CopperOre, max_miners),
        }
    }
}

} // verus!
