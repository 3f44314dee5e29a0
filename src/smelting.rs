//! Turning a demand for N units of a smelted resource into mining, feeding,
//! waiting and withdrawing.
//!
//! Ore is taken from what a territory's miners have gathered first; only what
//! they have not gathered is mined by hand, one unit at a time. The clock is
//! then moved on only as far as the furnace needs to finish the last unit.
use vstd::prelude::*;
use crate::furnace::{CopperSmelting, FlexibleFurnace, IronSmelting, SupportedFurnaceRecipe};
use crate::machine::{Furnace, MachineNotEmptyError, Recipe};
use crate::resources::{Bundle, Resource};
use crate::territory::{Territory, MINING_TICK_LENGTH};
use crate::tick::Tick;

verus! {

/// Why a demand could not be met.
#[derive(Debug, Clone, Copy, PartialEq, Eq, Structural)]
pub enum Error {
    /// The furnace's output held too little to withdraw. The routines below
    /// never return it: once their wait is over, the output is proved to
    /// hold what is withdrawn.
    InsufficientResource,
    /// The furnace held resources and could not be switched to the recipe.
    FurnaceIsNotEmpty,
}

/// Puts `amount` units of ore into the furnace's input. Ore the territory's
/// miners have gathered is taken first; the rest is mined by hand, one unit
/// at a time, each costing `MINING_TICK_LENGTH` ticks.
pub fn feed_furnace(tick: &mut Tick, territory: &mut Territory, furnace: &mut Furnace, amount: u32)
    requires
        old(furnace).wf(),
        old(furnace).one_to_one(),
        old(furnace).recipe().input == old(territory).kind(),
        old(furnace).last_tick() <= old(tick).cur(),
        old(furnace).input().amount() + old(furnace).output().amount() + amount <= u32::MAX,
        old(territory).mining_tick() <= old(tick).cur() / MINING_TICK_LENGTH,
        old(tick).cur() + amount * MINING_TICK_LENGTH <= u64::MAX,
        old(territory).projected((old(tick).cur() + amount * MINING_TICK_LENGTH) as u64) <= u32::MAX,
    ensures
        final(furnace).wf(),
        final(furnace).recipe() == old(furnace).recipe(),
        final(furnace).last_tick() <= final(tick).cur(),
        final(furnace).input().amount() + final(furnace).output().amount() == old(furnace).input().amount()
            + old(furnace).output().amount() + amount,
        old(tick).cur() <= final(tick).cur() <= old(tick).cur() + amount * MINING_TICK_LENGTH,
        final(tick).logging() == old(tick).logging(),
        old(territory).projected(old(tick).cur()) >= amount ==> final(tick).cur() == old(tick).cur(),
        final(territory).kind() == old(territory).kind(),
        final(territory).max_miners() == old(territory).max_miners(),
        final(territory).num_miners() == old(territory).num_miners(),
        final(territory).mining_tick() <= final(tick).cur() / MINING_TICK_LENGTH,
        forall|t: u64|
            final(tick).cur() <= t ==> #[trigger] final(territory).projected(t) <= old(territory).projected(t),
        (final(tick).cur() - old(tick).cur()) % (MINING_TICK_LENGTH as int) == 0,
        forall|t: u64|
            final(tick).cur() <= t ==> #[trigger] final(territory).projected(t) + amount == old(territory).projected(t)
                + (final(tick).cur() - old(tick).cur()) / (MINING_TICK_LENGTH as int),
{
    let ghost t0 = tick.cur();
    let ghost mut hand: int = 0;
    let ghost t_end = (t0 + amount * MINING_TICK_LENGTH) as u64;
    let ghost units0 = furnace.input().amount() + furnace.output().amount();
    let mut remaining: u32 = amount;
    while remaining > 0
        invariant
            furnace.wf(),
            furnace.one_to_one(),
            furnace.recipe() == old(furnace).recipe(),
            furnace.recipe().input == old(territory).kind(),
            furnace.last_tick() <= tick.cur(),
            furnace.input().amount() + furnace.output().amount() + remaining == units0 + amount,
            units0 + amount <= u32::MAX,
            units0 == old(furnace).input().amount() + old(furnace).output().amount(),
            remaining <= amount,
            t0 == old(tick).cur(),
            t_end == t0 + amount * MINING_TICK_LENGTH,
            t0 + amount * MINING_TICK_LENGTH <= u64::MAX,
            t0 <= tick.cur() <= t0 + (amount - remaining) * MINING_TICK_LENGTH,
            tick.logging() == old(tick).logging(),
            remaining == amount ==> tick.cur() == t0 && *territory == *old(territory),
            old(territory).projected(t0) >= amount ==> tick.cur() == t0 && (remaining == amount || remaining == 0),
            territory.kind() == old(territory).kind(),
            territory.max_miners() == old(territory).max_miners(),
            territory.num_miners() == old(territory).num_miners(),
            territory.mining_tick() <= tick.cur() / MINING_TICK_LENGTH,
            old(territory).mining_tick() <= t0 / MINING_TICK_LENGTH,
            old(territory).projected(t_end) <= u32::MAX,
            forall|t: u64| tick.cur() <= t ==> #[trigger] territory.projected(t) <= old(territory).projected(t),
            tick.cur() == t0 + hand * MINING_TICK_LENGTH,
            0 <= hand,
            forall|t: u64|
                tick.cur() <= t ==> #[trigger] territory.projected(t) + (amount - remaining) == old(territory).projected(t) + hand,
        ensures
            remaining == 0,
        decreases remaining,
    {
        let now = tick.cur();
        let ghost terr_before = *territory;
        proof {
            old(territory).lemma_pending_grows(now, t_end);
            terr_before.lemma_pending_grows(now, t_end);
            assert(territory.projected(now) <= old(territory).projected(now));
        }
        let taken = territory.resources(tick).split_off_max(remaining);
        proof {
            assert forall|t: u64| now <= t implies #[trigger] territory.projected(t) + taken.amount() == terr_before.projected(t) by {
                terr_before.lemma_pending_after_update(territory, now, t);
            }
            assert forall|t: u64| now <= t implies #[trigger] territory.projected(t) <= old(territory).projected(t) by {
                assert(territory.projected(t) + taken.amount() == terr_before.projected(t));
            }
        }
        remaining = remaining - taken.amount();
        let ghost furnace_before = *furnace;
        proof {
            furnace_before.lemma_one_to_one_keeps_units(now);
        }
        furnace.inputs(tick).add(taken);
        proof {
            furnace.lemma_one_to_one_wf();
        }
        if remaining == 0 {
            break;
        }
        let ghost terr_mid = *territory;
        proof {
            terr_before.lemma_pending_after_update(&terr_mid, now, now);
            terr_mid.lemma_pending_grows(now, t_end);
        }
        let ore = territory.hand_mine(tick, 1);
        proof {
            assert forall|t: u64| tick.cur() <= t implies #[trigger] territory.projected(t) <= old(territory).projected(t)
                && territory.projected(t) == terr_mid.projected(t) by {
                terr_mid.lemma_pending_after_update(territory, now, t);
                assert(terr_mid.projected(t) <= old(territory).projected(t));
            }
            hand = hand + 1;
        }
        remaining = remaining - 1;
        let ghost furnace_mid = *furnace;
        proof {
            furnace_mid.lemma_one_to_one_keeps_units(tick.cur());
        }
        furnace.inputs(tick).add_bundle(ore);
        proof {
            furnace.lemma_one_to_one_wf();
        }
    }
    assert((hand * 2) % 2 == 0 && (hand * 2) / 2 == hand);
}

/// The tick by which a one-to-one furnace has turned all its input into
/// output, and not before the clock's tick `now`.
pub open spec fn drained_by(furnace: &Furnace, now: u64) -> int {
    let done = furnace.last_tick() + furnace.input().amount() * furnace.recipe().time;
    if now >= done {
        now as int
    } else {
        done
    }
}

/// Moves the clock on until the furnace's output holds `amount` units, then
/// withdraws exactly that many.
pub fn collect_output(tick: &mut Tick, furnace: &mut Furnace, amount: u32) -> (r: Bundle)
    requires
        old(furnace).wf(),
        old(furnace).one_to_one(),
        old(furnace).last_tick() <= old(tick).cur(),
        amount <= old(furnace).input().amount() + old(furnace).output().amount(),
        old(furnace).last_tick() + old(furnace).input().amount() * old(furnace).recipe().time <= u64::MAX,
    ensures
        r.kind() == old(furnace).recipe().output,
        r.amount() == amount,
        old(tick).cur() <= final(tick).cur() <= drained_by(old(furnace), old(tick).cur()),
        final(tick).logging() == old(tick).logging(),
        final(furnace).wf(),
        final(furnace).recipe() == old(furnace).recipe(),
        final(furnace).last_tick() == final(tick).cur(),
        final(furnace).input().amount() + final(furnace).output().amount() + amount == old(furnace).input().amount()
            + old(furnace).output().amount(),
{
    let ghost f0 = *furnace;
    let ghost done = drained_by(&f0, tick.cur());
    proof {
        f0.lemma_one_to_one_drains(done as u64);
        f0.lemma_one_to_one_keeps_units(done as u64);
    }
    let start = tick.cur();
    let budget: u64 = u64::MAX - start;
    let observed: &Furnace = furnace;
    let holds_enough = |t: u64| -> (b: bool)
        requires
            observed.wf(),
        ensures
            b == (observed.last_tick() <= t && observed.output_at(t) >= amount),
    {
        if t < observed.last_tick() {
            false
        } else {
            observed.output_amount_at(t) >= amount
        }
    };
    let met = tick.advance_until(holds_enough, budget);
    proof {
        let d = done as u64;
        assert(f0.last_tick() <= d && f0.output_at(d) >= amount);
        if !met {
            if d < tick.cur() {
                assert(call_ensures(holds_enough, (d,), false));
            } else {
                assert(call_ensures(holds_enough, (tick.cur(),), false));
            }
        }
        if tick.cur() > d {
            assert(call_ensures(holds_enough, (d,), false));
        }
        f0.lemma_one_to_one_keeps_units(tick.cur());
    }
    let out = furnace.outputs(tick);
    let taken = out.bundle(amount);
    proof {
        furnace.lemma_one_to_one_wf();
    }
    match taken {
        Ok(b) => b,
        Err(_) => vstd::pervasive::unreached(),
    }
}

/// Meets a demand for `amount` units of the furnace's output: feeds it
/// `amount` units of ore from `territory` (gathered ore first, the rest by
/// hand), waits until its output holds `amount` units, and withdraws them.
pub fn mine_and_smelt_with(tick: &mut Tick, territory: &mut Territory, furnace: &mut Furnace, amount: u32) -> (r: Bundle)
    requires
        old(furnace).wf(),
        old(furnace).one_to_one(),
        old(furnace).recipe().input == old(territory).kind(),
        old(furnace).last_tick() <= old(tick).cur(),
        old(furnace).input().amount() + old(furnace).output().amount() + amount <= u32::MAX,
        old(territory).mining_tick() <= old(tick).cur() / MINING_TICK_LENGTH,
        old(territory).projected((old(tick).cur() + amount * MINING_TICK_LENGTH) as u64) <= u32::MAX,
        old(tick).cur() + amount * MINING_TICK_LENGTH + (old(furnace).input().amount() + old(furnace).output().amount() + amount)
            * old(furnace).recipe().time <= u64::MAX,
    ensures
        r.kind() == old(furnace).recipe().output,
        r.amount() == amount,
        old(tick).cur() <= final(tick).cur() <= old(tick).cur() + amount * MINING_TICK_LENGTH + (old(furnace).input().amount()
            + old(furnace).output().amount() + amount) * old(furnace).recipe().time,
        final(tick).logging() == old(tick).logging(),
        final(furnace).wf(),
        final(furnace).recipe() == old(furnace).recipe(),
        final(furnace).last_tick() == final(tick).cur(),
        final(furnace).input().amount() + final(furnace).output().amount() == old(furnace).input().amount()
            + old(furnace).output().amount(),
        final(territory).kind() == old(territory).kind(),
        final(territory).max_miners() == old(territory).max_miners(),
        final(territory).num_miners() == old(territory).num_miners(),
        final(territory).mining_tick() <= final(tick).cur() / MINING_TICK_LENGTH,
        forall|t: u64|
            final(tick).cur() <= t ==> #[trigger] final(territory).projected(t) <= old(territory).projected(t),
{
    let ghost t0 = tick.cur();
    let ghost units = furnace.input().amount() + furnace.output().amount() + amount;
    proof {
        assert(amount * MINING_TICK_LENGTH <= amount * MINING_TICK_LENGTH + units * furnace.recipe().time) by (nonlinear_arith)
            requires units >= 0, furnace.recipe().time >= 0;
    }
    feed_furnace(tick, territory, furnace, amount);
    proof {
        let i = furnace.input().amount() as int;
        let time = furnace.recipe().time as int;
        assert(i * time <= units * time) by (nonlinear_arith)
            requires 0 <= i <= units, time >= 0;
    }
    collect_output(tick, furnace, amount)
}

/// A way of smelting one kind of ore into one resource in a
/// [`FlexibleFurnace`].
pub trait Smelting {
    type Recipe: SupportedFurnaceRecipe;

    /// The recipe turns one unit of ore into one unit.
    proof fn lemma_one_to_one()
        ensures
            Self::Recipe::descriptor().input_amount == 1,
            Self::Recipe::descriptor().output_amount == 1,
    ;

    fn recipe(&self) -> Self::Recipe;

    /// The furnace in the slot, which must be set to this recipe.
    fn furnace_mut<'a>(&self, furnace: &'a mut FlexibleFurnace) -> (r: &'a mut Furnace)
        requires
            old(furnace).wf(),
            old(furnace).furnace().recipe() == Self::Recipe::descriptor(),
        ensures
            *r == old(furnace).furnace(),
            final(furnace).state().same_tag(&old(furnace).state()),
            final(furnace).furnace() == *final(r),
    {
        match furnace.as_recipe_mut::<Self::Recipe>() {
            Some(f) => f,
            None => vstd::pervasive::unreached(),
        }
    }

    /// The input pool of the furnace in the slot, brought up to the clock.
    fn first_input<'a>(&self, tick: &Tick, furnace: &'a mut FlexibleFurnace) -> (r: &'a mut Resource)
        requires
            old(furnace).wf(),
            old(furnace).furnace().recipe() == Self::Recipe::descriptor(),
            old(furnace).furnace().last_tick() <= tick.cur(),
        ensures
            r.kind() == Self::Recipe::descriptor().input,
            r.amount() == old(furnace).furnace().input_at(tick.cur()),
            final(furnace).state().same_tag(&old(furnace).state()),
            old(furnace).furnace().advanced_except_amounts(&final(furnace).furnace(), tick.cur()),
            final(furnace).furnace().input() == *final(r),
            final(furnace).furnace().output().kind() == Self::Recipe::descriptor().output,
            final(furnace).furnace().output().amount() == old(furnace).furnace().output_at(tick.cur()),
    ;

    /// The output pool of the furnace in the slot, brought up to the clock.
    fn first_output<'a>(&self, tick: &Tick, furnace: &'a mut FlexibleFurnace) -> (r: &'a mut Resource)
        requires
            old(furnace).wf(),
            old(furnace).furnace().recipe() == Self::Recipe::descriptor(),
            old(furnace).furnace().last_tick() <= tick.cur(),
        ensures
            r.kind() == Self::Recipe::descriptor().output,
            r.amount() == old(furnace).furnace().output_at(tick.cur()),
            final(furnace).state().same_tag(&old(furnace).state()),
            old(furnace).furnace().advanced_except_amounts(&final(furnace).furnace(), tick.cur()),
            final(furnace).furnace().output() == *final(r),
            final(furnace).furnace().input().kind() == Self::Recipe::descriptor().input,
            final(furnace).furnace().input().amount() == old(furnace).furnace().input_at(tick.cur()),
    ;

    /// Switches the slot to this recipe and feeds its furnace `amount` units
    /// of ore from `territory`, gathered ore first and the rest by hand. A
    /// slot whose furnace is not empty is refused and left as it was.
    fn mine_into_furnace(&self, tick: &mut Tick, territory: &mut Territory, furnace: &mut FlexibleFurnace, amount: u32) -> (r: Result<(), MachineNotEmptyError<()>>)
        requires
            old(furnace).wf(),
            old(territory).kind() == Self::Recipe::descriptor().input,
            old(furnace).furnace().last_tick() <= old(tick).cur(),
            old(territory).mining_tick() <= old(tick).cur() / MINING_TICK_LENGTH,
            old(tick).cur() + amount * MINING_TICK_LENGTH <= u64::MAX,
            old(territory).projected((old(tick).cur() + amount * MINING_TICK_LENGTH) as u64) <= u32::MAX,
        ensures
            r is Ok <==> old(furnace).furnace().is_empty(),
            r is Err ==> {
                &&& *final(furnace) == *old(furnace)
                &&& *final(tick) == *old(tick)
                &&& *final(territory) == *old(territory)
            },
            r is Ok ==> {
                &&& final(furnace).wf()
                &&& final(furnace).furnace().recipe() == Self::Recipe::descriptor()
                &&& final(furnace).furnace().input().amount() + final(furnace).furnace().output().amount() == amount
                &&& final(furnace).furnace().last_tick() <= final(tick).cur()
                &&& old(tick).cur() <= final(tick).cur() <= old(tick).cur() + amount * MINING_TICK_LENGTH
                &&& final(tick).logging() == old(tick).logging()
                &&& old(territory).projected(old(tick).cur()) >= amount ==> final(tick).cur() == old(tick).cur()
                &&& (final(tick).cur() - old(tick).cur()) % (MINING_TICK_LENGTH as int) == 0
                &&& forall|t: u64|
                    final(tick).cur() <= t ==> #[trigger] final(territory).projected(t) + amount == old(territory).projected(t)
                        + (final(tick).cur() - old(tick).cur()) / (MINING_TICK_LENGTH as int)
                &&& final(territory).kind() == old(territory).kind()
                &&& final(territory).max_miners() == old(territory).max_miners()
                &&& final(territory).num_miners() == old(territory).num_miners()
                &&& final(territory).mining_tick() <= final(tick).cur() / MINING_TICK_LENGTH
                &&& forall|t: u64|
                    final(tick).cur() <= t ==> #[trigger] final(territory).projected(t) <= old(territory).projected(t)
            },
    {
        match furnace.change_recipe(self.recipe()) {
            Ok(()) => {},
            Err(e) => {
                return Err(e);
            },
        }
        proof {
            Self::lemma_one_to_one();
        }
        let f = self.furnace_mut(furnace);
        feed_furnace(tick, territory, f, amount);
        Ok(())
    }

    /// Meets a demand for `amount` units of this recipe's output: switches
    /// the slot to the recipe, feeds it `amount` units of ore, moves the clock
    /// on until the output holds them, and withdraws them. The furnace is left
    /// empty. A slot whose furnace is not empty is refused and left as it
    /// was.
    fn mine_and_smelt(&self, tick: &mut Tick, territory: &mut Territory, furnace: &mut FlexibleFurnace, amount: u32) -> (r: Result<Bundle, Error>)
        requires
            old(furnace).wf(),
            old(territory).kind() == Self::Recipe::descriptor().input,
            old(furnace).furnace().last_tick() <= old(tick).cur(),
            old(territory).mining_tick() <= old(tick).cur() / MINING_TICK_LENGTH,
            old(territory).projected((old(tick).cur() + amount * MINING_TICK_LENGTH) as u64) <= u32::MAX,
            old(tick).cur() + amount * MINING_TICK_LENGTH + amount * Self::Recipe::descriptor().time <= u64::MAX,
        ensures
            r is Ok <==> old(furnace).furnace().is_empty(),
            r is Err ==> {
                &&& r == Err::<Bundle, Error>(Error::FurnaceIsNotEmpty)
                &&& *final(furnace) == *old(furnace)
                &&& *final(tick) == *old(tick)
                &&& *final(territory) == *old(territory)
            },
            r matches Ok(b) ==> {
                &&& b.kind() == Self::Recipe::descriptor().output
                &&& b.amount() == amount
                &&& final(furnace).wf()
                &&& final(furnace).furnace().recipe() == Self::Recipe::descriptor()
                &&& final(furnace).furnace().is_empty()
                &&& final(furnace).furnace().last_tick() == final(tick).cur()
                &&& old(tick).cur() <= final(tick).cur() <= old(tick).cur() + amount * MINING_TICK_LENGTH + amount
                    * Self::Recipe::descriptor().time
                &&& final(tick).logging() == old(tick).logging()
                &&& final(territory).kind() == old(territory).kind()
                &&& final(territory).max_miners() == old(territory).max_miners()
                &&& final(territory).num_miners() == old(territory).num_miners()
                &&& final(territory).mining_tick() <= final(tick).cur() / MINING_TICK_LENGTH
                &&& forall|t: u64|
                    final(tick).cur() <= t ==> #[trigger] final(territory).projected(t) <= old(territory).projected(t)
            },
    {
        proof {
            Self::lemma_one_to_one();
            let time = Self::Recipe::descriptor().time as int;
            assert(amount * time >= 0) by (nonlinear_arith)
                requires time >= 0;
        }
        match self.mine_into_furnace(tick, territory, furnace, amount) {
            Ok(()) => {},
            Err(_) => {
                return Err(Error::FurnaceIsNotEmpty);
            },
        }
        let f = self.furnace_mut(furnace);
        proof {
            let i = f.input().amount() as int;
            let time = f.recipe().time as int;
            assert(i * time <= amount * time) by (nonlinear_arith)
                requires 0 <= i <= amount, time >= 0;
        }
        let smelted = collect_output(tick, f, amount);
        Ok(smelted)
    }
}

/// Smelts iron ore into iron.
#[derive(Debug, Clone, Copy)]
pub struct SmeltIron;

impl Smelting for SmeltIron {
    type Recipe = IronSmelting;

    proof fn lemma_one_to_one() {
        assert(<IronSmelting as SupportedFurnaceRecipe>::descriptor() == Recipe::spec_iron_smelting());
    }

    fn recipe(&self) -> IronSmelting {
        IronSmelting
    }

    fn first_input<'a>(&self, tick: &Tick, furnace: &'a mut FlexibleFurnace) -> (r: &'a mut Resource) {
        self.furnace_mut(furnace).inputs(tick)
    }

    fn first_output<'a>(&self, tick: &Tick, furnace: &'a mut FlexibleFurnace) -> (r: &'a mut Resource) {
        self.furnace_mut(furnace).outputs(tick)
    }
}

/// Smelts copper ore into copper.
#[derive(Debug, Clone, Copy)]
pub struct SmeltCopper;

impl Smelting for SmeltCopper {
    type Recipe = CopperSmelting;

    proof fn lemma_one_to_one() {
        assert(<CopperSmelting as SupportedFurnaceRecipe>::descriptor() == Recipe::spec_copper_smelting());
    }

    fn recipe(&self) -> CopperSmelting {
        CopperSmelting
    }

    fn first_input<'a>(&self, tick: &Tick, furnace: &'a mut FlexibleFurnace) -> (r: &'a mut Resource) {
        self.furnace_mut(furnace).inputs(tick)
    }

    fn first_output<'a>(&self, tick: &Tick, furnace: &'a mut FlexibleFurnace) -> (r: &'a mut Resource) {
        self.furnace_mut(furnace).outputs(tick)
    }
}

} // verus!
