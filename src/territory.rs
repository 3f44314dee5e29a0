//! Territories: where ore comes from.
//!
//! Ore can always be mined by hand, at a cost in time. Miners placed in a
//! territory add ore to its stock once per mining tick, and that stock is
//! brought up to date whenever the territory is handed the clock.
use vstd::prelude::*;
use crate::resources::{Bundle, Resource, ResourceKind};
use crate::tick::Tick;

verus! {

/// Ticks that one unit of hand mining takes, and the length of a mining tick.
pub const MINING_TICK_LENGTH: u64 = 2;

/// A machine that mines ore in a territory.
#[derive(Debug)]
pub struct Miner {
    built: (),
}

impl Miner {
    /// Builds a miner from 10 iron and 5 copper.
    pub fn build(iron: Bundle, copper: Bundle) -> (r: Miner)
        requires
            iron.kind() == ResourceKind::Iron,
            iron.amount() == 10,
            copper.kind() == ResourceKind::Copper,
            copper.amount() == 5,
    {
        Miner { built: () }
    }
}

/// A miner was refused because every slot of the territory is taken. The
/// miner comes back with the error.
#[derive(Debug)]
pub struct SiteOccupied {
    pub max_miners: u32,
    pub miner: Miner,
}

/// A source of one kind of ore.
#[derive(Debug)]
pub struct Territory {
    mining_tick: u64,
    max_miners: u32,
    miners: u32,
    resources: Resource,
}

impl Territory {
    /// The mining tick up to which the stock is brought.
    pub closed spec fn mining_tick(&self) -> u64 {
        self.mining_tick
    }

    pub closed spec fn spec_max_miners(&self) -> u32 {
        self.max_miners
    }

    pub closed spec fn spec_num_miners(&self) -> u32 {
        self.miners
    }

    /// The ore mined by the miners and not yet taken.
    pub closed spec fn pool(&self) -> Resource {
        self.resources
    }

    pub open spec fn kind(&self) -> ResourceKind {
        self.pool().kind()
    }

    pub open spec fn stock(&self) -> u32 {
        self.pool().amount()
    }

    /// The ore that the miners have added between the last update and tick
    /// `now`.
    pub open spec fn pending(&self, now: u64) -> int {
        (now / MINING_TICK_LENGTH - self.mining_tick()) * self.num_miners()
    }

    /// Tick `now` is not before the last update, and the stock brought up to
    /// it fits in a pool.
    pub open spec fn can_catch_up(&self, now: u64) -> bool {
        &&& self.mining_tick() <= now / MINING_TICK_LENGTH
        &&& self.stock() + self.pending(now) <= u32::MAX
    }

    /// `next` is this territory brought up to tick `now`, its stock left
    /// aside.
    pub open spec fn caught_up_except_stock(&self, next: &Territory, now: u64) -> bool {
        &&& next.mining_tick() == now / MINING_TICK_LENGTH
        &&& next.max_miners() == self.max_miners()
        &&& next.num_miners() == self.num_miners()
    }

    /// `next` is this territory brought up to tick `now`.
    pub open spec fn caught_up(&self, next: &Territory, now: u64) -> bool {
        &&& self.caught_up_except_stock(next, now)
        &&& next.kind() == self.kind()
        &&& next.stock() == self.stock() + self.pending(now)
    }

    /// The stock the territory will hold at tick `t` if nothing is taken.
    pub open spec fn projected(&self, t: u64) -> int {
        self.stock() + self.pending(t)
    }

    /// Ore pending from the miners does not shrink as time passes.
    pub proof fn lemma_pending_grows(&self, t1: u64, t2: u64)
        requires
            self.mining_tick() <= t1 / MINING_TICK_LENGTH,
            t1 <= t2,
        ensures
            0 <= self.pending(t1) <= self.pending(t2),
    {
        let m = self.num_miners() as int;
        let d1 = t1 / MINING_TICK_LENGTH - self.mining_tick();
        let d2 = t2 / MINING_TICK_LENGTH - self.mining_tick();
        assert(d1 <= d2);
        assert(0 <= d1 * m <= d2 * m) by (nonlinear_arith)
            requires 0 <= d1 <= d2, m >= 0;
    }

    /// After an update at tick `now`, what the miners add up to a later
    /// tick `t` is what they would have added from the old update to `t`,
    /// less what they added up to `now`.
    pub proof fn lemma_pending_after_update(&self, next: &Territory, now: u64, t: u64)
        requires
            self.mining_tick() <= now / MINING_TICK_LENGTH,
            self.caught_up_except_stock(next, now),
            now <= t,
        ensures
            next.pending(t) == self.pending(t) - self.pending(now),
    {
        let m = self.num_miners() as int;
        let a = now / MINING_TICK_LENGTH - self.mining_tick();
        let b = t / MINING_TICK_LENGTH - now / MINING_TICK_LENGTH;
        assert(a * m + b * m == (a + b) * m) by (nonlinear_arith);
    }

    /// A territory of `kind` with room for `max_miners` miners, no miners and
    /// no stock.
    pub fn new(tick: &Tick, kind: ResourceKind, max_miners: u32) -> (r: Territory)
        ensures
            r.kind() == kind,
            r.stock() == 0,
            r.max_miners() == max_miners,
            r.num_miners() == 0,
            r.mining_tick() == tick.cur() / MINING_TICK_LENGTH,
    {
        Territory {
            mining_tick: tick.cur() / MINING_TICK_LENGTH,
            max_miners,
            miners: 0,
            resources: Resource::new_empty(kind),
        }
    }

    /// How many miners the territory can hold.
    #[verifier::when_used_as_spec(spec_max_miners)]
    pub fn max_miners(&self) -> (r: u32)
        ensures
            r == self.max_miners(),
    {
        self.max_miners
    }

    /// How many miners the territory holds.
    #[verifier::when_used_as_spec(spec_num_miners)]
    pub fn num_miners(&self) -> (r: u32)
        ensures
            r == self.num_miners(),
    {
        self.miners
    }

    fn catch_up(&mut self, now: u64)
        requires
            old(self).can_catch_up(now),
        ensures
            old(self).caught_up(final(self), now),
    {
        let mining_tick = now / MINING_TICK_LENGTH;
        let delta = mining_tick - self.mining_tick;
        if self.miners > 0 {
            proof {
                assert(delta * self.miners >= delta) by (nonlinear_arith)
                    requires self.miners > 0;
            }
            let mined = delta * (self.miners as u64);
            self.resources.add(Resource::new(self.resources.kind(), mined as u32));
        } else {
            let ghost d: int = now / MINING_TICK_LENGTH - self.mining_tick;
            assert(d * 0int == 0) by (nonlinear_arith);
        }
        self.mining_tick = mining_tick;
    }

    /// Mines `amount` units by hand: the clock moves on by
    /// `amount * MINING_TICK_LENGTH` ticks and the units come back as a
    /// bundle. The territory is first brought up to the starting tick.
    pub fn hand_mine(&mut self, tick: &mut Tick, amount: u32) -> (r: Bundle)
        requires
            old(self).can_catch_up(old(tick).cur()),
            old(tick).cur() + amount * MINING_TICK_LENGTH <= u64::MAX,
        ensures
            old(self).caught_up(final(self), old(tick).cur()),
            final(tick).cur() == old(tick).cur() + amount * MINING_TICK_LENGTH,
            final(tick).logging() == old(tick).logging(),
            r.kind() == old(self).kind(),
            r.amount() == amount,
    {
        self.catch_up(tick.cur());
        tick.advance_by((amount as u64) * MINING_TICK_LENGTH);
        Bundle::new(self.resources.kind(), amount)
    }

    /// Places a miner in the territory, or hands it back when every slot is
    /// taken.
    pub fn add_miner(&mut self, tick: &Tick, miner: Miner) -> (r: Result<(), SiteOccupied>)
        requires
            old(self).can_catch_up(tick.cur()),
        ensures
            final(self).mining_tick() == tick.cur() / MINING_TICK_LENGTH,
            final(self).max_miners() == old(self).max_miners(),
            final(self).kind() == old(self).kind(),
            final(self).stock() == old(self).stock() + old(self).pending(tick.cur()),
            match r {
                Ok(()) => {
                    &&& old(self).num_miners() < old(self).max_miners()
                    &&& final(self).num_miners() == old(self).num_miners() + 1
                },
                Err(e) => {
                    &&& old(self).num_miners() >= old(self).max_miners()
                    &&& final(self).num_miners() == old(self).num_miners()
                    &&& e.max_miners == old(self).max_miners()
                },
            },
    {
        self.catch_up(tick.cur());
        if self.miners < self.max_miners {
            self.miners = self.miners + 1;
            Ok(())
        } else {
            Err(SiteOccupied { max_miners: self.max_miners, miner })
        }
    }

    /// Takes a miner out of the territory, if there is one.
    pub fn take_miner(&mut self, tick: &Tick) -> (r: Option<Miner>)
        requires
            old(self).can_catch_up(tick.cur()),
        ensures
            final(self).mining_tick() == tick.cur() / MINING_TICK_LENGTH,
            final(self).max_miners() == old(self).max_miners(),
            final(self).kind() == old(self).kind(),
            final(self).stock() == old(self).stock() + old(self).pending(tick.cur()),
            r is Some <==> old(self).num_miners() > 0,
            final(self).num_miners() == if old(self).num_miners() > 0 {
                old(self).num_miners() - 1
            } else {
                0
            },
    {
        self.catch_up(tick.cur());
        if self.miners > 0 {
            self.miners = self.miners - 1;
            Some(Miner { built: () })
        } else {
            None
        }
    }

    /// The territory's stock, brought up to the clock's tick.
    pub fn resources(&mut self, tick: &Tick) -> (r: &mut Resource)
        requires
            old(self).can_catch_up(tick.cur()),
        ensures
            r.kind() == old(self).kind(),
            r.amount() == old(self).stock() + old(self).pending(tick.cur()),
            old(self).caught_up_except_stock(final(self), tick.cur()),
            final(self).pool() == *final(r),
    {
        self.catch_up(tick.cur());
        &mut self.resources
    }
}

} // verus!
