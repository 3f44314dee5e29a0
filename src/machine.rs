//! Recipes and the furnace that runs them.
//!
//! A furnace holds one input pool and one output pool. While its input holds
//! a full batch, time spent counts towards that batch; each `time` ticks turn
//! `input_amount` units of input into `output_amount` units of output. The
//! furnace is brought up to date whenever it is handed the clock, and what it
//! holds at any later tick is given by [`Furnace::cycles_at`].
use vstd::prelude::*;
use vstd::arithmetic::div_mod::{
    lemma_div_by_multiple, lemma_div_is_ordered, lemma_div_multiples_vanish_fancy,
    lemma_fundamental_div_mod,
};
use crate::resources::{lemma_resource_ext, Bundle, Resource, ResourceKind};
use crate::tick::Tick;

verus! {

/// What a furnace turns into what, and how fast.
#[derive(Debug, Clone, Copy, PartialEq, Eq, Structural)]
pub struct Recipe {
    pub input: ResourceKind,
    pub input_amount: u32,
    pub output: ResourceKind,
    pub output_amount: u32,
    /// Ticks per batch.
    pub time: u64,
}

impl Recipe {
    /// A batch takes and gives at least one unit.
    pub open spec fn wf(&self) -> bool {
        &&& self.input_amount >= 1
        &&& self.output_amount >= 1
    }

    pub open spec fn spec_iron_smelting() -> Recipe {
        Recipe { input: ResourceKind::IronOre, input_amount: 1, output: ResourceKind::Iron, output_amount: 1, time: 6 }
    }

    pub open spec fn spec_copper_smelting() -> Recipe {
        Recipe { input: ResourceKind::CopperOre, input_amount: 1, output: ResourceKind::Copper, output_amount: 1, time: 6 }
    }

    pub open spec fn spec_steel_smelting() -> Recipe {
        Recipe { input: ResourceKind::Iron, input_amount: 5, output: ResourceKind::Steel, output_amount: 1, time: 30 }
    }

    /// One iron ore into one iron, in 6 ticks.
    #[verifier::when_used_as_spec(spec_iron_smelting)]
    pub fn iron_smelting() -> (r: Recipe)
        ensures
            r == Recipe::spec_iron_smelting(),
    {
        Recipe { input: ResourceKind::IronOre, input_amount: 1, output: ResourceKind::Iron, output_amount: 1, time: 6 }
    }

    /// One copper ore into one copper, in 6 ticks.
    #[verifier::when_used_as_spec(spec_copper_smelting)]
    pub fn copper_smelting() -> (r: Recipe)
        ensures
            r == Recipe::spec_copper_smelting(),
    {
        Recipe { input: ResourceKind::CopperOre, input_amount: 1, output: ResourceKind::Copper, output_amount: 1, time: 6 }
    }

    /// Five iron into one steel, in 30 ticks.
    #[verifier::when_used_as_spec(spec_steel_smelting)]
    pub fn steel_smelting() -> (r: Recipe)
        ensures
            r == Recipe::spec_steel_smelting(),
    {
        Recipe { input: ResourceKind::Iron, input_amount: 5, output: ResourceKind::Steel, output_amount: 1, time: 30 }
    }
}

/// Which pool of a machine an error speaks of.
#[derive(Debug, Clone, Copy, PartialEq, Eq, Structural)]
pub enum BufferLocation {
    Input,
    Output,
}

/// A machine that still holds resources was asked to change its recipe. The
/// machine comes back unchanged, with the first non-empty pool named.
#[derive(Debug)]
pub struct MachineNotEmptyError<M> {
    pub machine: M,
    pub resource_type: ResourceKind,
    pub amount: u32,
    pub location: BufferLocation,
}

/// A furnace set to one recipe.
#[derive(Debug)]
pub struct Furnace {
    recipe: Recipe,
    input: Resource,
    output: Resource,
    tick: u64,
    crafting_time: u64,
}

/// Taking `c` whole batches of `n` out of `a` leaves `a / n - c` batches.
proof fn lemma_div_after_batches(a: int, c: int, n: int)
    requires
        n > 0,
        0 <= c,
        c * n <= a,
    ensures
        (a - c * n) / n == a / n - c,
        c <= a / n,
{
    lemma_fundamental_div_mod(a, n);
    assert(a - c * n == n * (a / n - c) + a % n) by (nonlinear_arith)
        requires a == n * (a / n) + a % n;
    lemma_div_multiples_vanish_fancy(a / n - c, a % n, n);
}

impl Furnace {
    pub closed spec fn spec_recipe(&self) -> Recipe {
        self.recipe
    }

    pub closed spec fn input(&self) -> Resource {
        self.input
    }

    pub closed spec fn output(&self) -> Resource {
        self.output
    }

    /// The tick up to which the furnace has been brought.
    pub closed spec fn spec_last_tick(&self) -> u64 {
        self.tick
    }

    /// Ticks already spent on the batch under way.
    pub closed spec fn crafting_time(&self) -> u64 {
        self.crafting_time
    }

    /// The pools hold the recipe's kinds, time spent on a batch is no more
    /// than time that has passed, and every batch the input allows still
    /// fits in the output pool.
    pub open spec fn wf(&self) -> bool {
        &&& self.recipe().wf()
        &&& self.input().kind() == self.recipe().input
        &&& self.output().kind() == self.recipe().output
        &&& self.crafting_time() <= self.last_tick()
        &&& self.output().amount() + ((self.input().amount() as int) / (self.recipe().input_amount as int))
            * self.recipe().output_amount <= u32::MAX
    }

    /// Both pools are empty.
    pub open spec fn is_empty(&self) -> bool {
        &&& self.input().amount() == 0
        &&& self.output().amount() == 0
    }

    /// A furnace just built, or just switched, to `recipe` at tick `at`.
    pub open spec fn is_fresh(&self, recipe: Recipe, at: u64) -> bool {
        &&& self.recipe() == recipe
        &&& self.input().kind() == recipe.input
        &&& self.output().kind() == recipe.output
        &&& self.is_empty()
        &&& self.last_tick() == at
        &&& self.crafting_time() == 0
    }

    /// Batches that the furnace completes between its last update and tick
    /// `now`.
    pub open spec fn cycles_at(&self, now: u64) -> int {
        let by_input = (self.input().amount() as int) / (self.recipe().input_amount as int);
        let spent = self.crafting_time() + now - self.last_tick();
        if self.recipe().time == 0 {
            by_input
        } else if by_input <= spent / (self.recipe().time as int) {
            by_input
        } else {
            spent / (self.recipe().time as int)
        }
    }

    pub open spec fn input_at(&self, now: u64) -> int {
        self.input().amount() - self.cycles_at(now) * self.recipe().input_amount
    }

    pub open spec fn output_at(&self, now: u64) -> int {
        self.output().amount() + self.cycles_at(now) * self.recipe().output_amount
    }

    pub open spec fn crafting_time_at(&self, now: u64) -> int {
        if self.input_at(now) < self.recipe().input_amount {
            0
        } else {
            self.crafting_time() + now - self.last_tick() - self.cycles_at(now) * self.recipe().time
        }
    }

    /// `next` is this furnace brought up to tick `now`, its pools' amounts
    /// left aside.
    pub open spec fn advanced_except_amounts(&self, next: &Furnace, now: u64) -> bool {
        &&& next.recipe() == self.recipe()
        &&& next.last_tick() == now
        &&& next.crafting_time() == self.crafting_time_at(now)
    }

    /// `next` is this furnace brought up to tick `now`.
    pub open spec fn advanced(&self, next: &Furnace, now: u64) -> bool {
        &&& self.advanced_except_amounts(next, now)
        &&& next.input().kind() == self.input().kind()
        &&& next.output().kind() == self.output().kind()
        &&& next.input().amount() == self.input_at(now)
        &&& next.output().amount() == self.output_at(now)
    }

    /// The recipe turns one unit into one unit.
    pub open spec fn one_to_one(&self) -> bool {
        &&& self.recipe().input_amount == 1
        &&& self.recipe().output_amount == 1
    }

    /// Under a one-to-one recipe the furnace holds, at any later tick, as
    /// many units in its two pools together as it does now, and no more is
    /// produced than its input holds.
    pub proof fn lemma_one_to_one_keeps_units(&self, now: u64)
        requires
            self.wf(),
            self.one_to_one(),
            self.last_tick() <= now,
        ensures
            self.input_at(now) + self.output_at(now) == self.input().amount() + self.output().amount(),
            self.input_at(now) >= 0,
            self.output_at(now) >= self.output().amount(),
    {
        assert((self.input().amount() as int) / 1int == self.input().amount());
        assert(self.cycles_at(now) <= self.input().amount());
        assert(self.cycles_at(now) >= 0) by {
            if self.recipe().time > 0 {
                let spent = self.crafting_time() + now - self.last_tick();
                lemma_div_is_ordered(0, spent, self.recipe().time as int);
            }
        }
    }

    /// Under a one-to-one recipe, once `input * time` ticks have passed since
    /// the last update, every unit of input has been turned into output.
    pub proof fn lemma_one_to_one_drains(&self, now: u64)
        requires
            self.wf(),
            self.one_to_one(),
            self.last_tick() + self.input().amount() * self.recipe().time <= now,
        ensures
            self.output_at(now) == self.input().amount() + self.output().amount(),
            self.input_at(now) == 0,
    {
        let i = self.input().amount() as int;
        let t = self.recipe().time as int;
        assert(i / 1int == i);
        if t > 0 {
            let spent = self.crafting_time() + now - self.last_tick();
            assert(i * t <= spent);
            lemma_div_is_ordered(i * t, spent, t);
            lemma_div_by_multiple(i, t);
            assert(self.cycles_at(now) == i);
        }
    }

    /// Under a one-to-one recipe the capacity condition of `wf` is that the
    /// two pools together fit in a pool.
    pub proof fn lemma_one_to_one_wf(&self)
        requires
            self.one_to_one(),
        ensures
            self.wf() <==> {
                &&& self.input().kind() == self.recipe().input
                &&& self.output().kind() == self.recipe().output
                &&& self.crafting_time() <= self.last_tick()
                &&& self.input().amount() + self.output().amount() <= u32::MAX
            },
    {
        assert((self.input().amount() as int) / 1int == self.input().amount());
    }

    /// Builds a furnace for `recipe` from 10 iron.
    pub fn build(tick: &Tick, recipe: Recipe, iron: Bundle) -> (r: Furnace)
        requires
            recipe.wf(),
            iron.kind() == ResourceKind::Iron,
            iron.amount() == 10,
        ensures
            r.wf(),
            r.is_fresh(recipe, tick.cur()),
    {
        Furnace::fresh(recipe, tick.cur())
    }

    fn fresh(recipe: Recipe, at: u64) -> (r: Furnace)
        requires
            recipe.wf(),
        ensures
            r.wf(),
            r.is_fresh(recipe, at),
    {
        let r = Furnace {
            recipe,
            input: Resource::new_empty(recipe.input),
            output: Resource::new_empty(recipe.output),
            tick: at,
            crafting_time: 0,
        };
        assert((0int / (recipe.input_amount as int)) * recipe.output_amount == 0) by (nonlinear_arith)
            requires recipe.input_amount >= 1;
        r
    }

    #[verifier::when_used_as_spec(spec_recipe)]
    pub fn recipe(&self) -> (r: Recipe)
        ensures
            r == self.recipe(),
    {
        self.recipe
    }

    /// Units of input one batch takes.
    pub fn input_amounts(&self) -> (r: u32)
        ensures
            r == self.recipe().input_amount,
    {
        self.recipe.input_amount
    }

    /// Units of output one batch gives.
    pub fn output_amounts(&self) -> (r: u32)
        ensures
            r == self.recipe().output_amount,
    {
        self.recipe.output_amount
    }

    #[verifier::when_used_as_spec(spec_last_tick)]
    pub fn last_tick(&self) -> (r: u64)
        ensures
            r == self.last_tick(),
    {
        self.tick
    }

    /// Switches the furnace to `recipe` when both pools are empty; otherwise
    /// hands it back unchanged, naming the first pool that holds something.
    pub fn change_recipe(self, recipe: Recipe) -> (r: Result<Furnace, MachineNotEmptyError<Furnace>>)
        requires
            self.wf(),
            recipe.wf(),
        ensures
            r is Ok <==> self.is_empty(),
            match r {
                Ok(f) => f.wf() && f.is_fresh(recipe, self.last_tick()),
                Err(e) => {
                    &&& e.machine == self
                    &&& if self.input().amount() > 0 {
                        &&& e.location == BufferLocation::Input
                        &&& e.resource_type == self.input().kind()
                        &&& e.amount == self.input().amount()
                    } else {
                        &&& e.location == BufferLocation::Output
                        &&& e.resource_type == self.output().kind()
                        &&& e.amount == self.output().amount()
                    }
                },
            },
    {
        if self.input.amount() > 0 {
            let resource_type = self.input.kind();
            let amount = self.input.amount();
            Err(MachineNotEmptyError { machine: self, resource_type, amount, location: BufferLocation::Input })
        } else if self.output.amount() > 0 {
            let resource_type = self.output.kind();
            let amount = self.output.amount();
            Err(MachineNotEmptyError { machine: self, resource_type, amount, location: BufferLocation::Output })
        } else {
            Ok(Furnace::fresh(recipe, self.tick))
        }
    }

    /// Batches completed by tick `now`, as a machine integer.
    fn count_cycles(&self, now: u64) -> (r: u32)
        requires
            self.wf(),
            self.last_tick() <= now,
        ensures
            r == self.cycles_at(now),
    {
        let spent = self.crafting_time + (now - self.tick);
        let by_input = self.input.amount() / self.recipe.input_amount;
        if self.recipe.time == 0 {
            by_input
        } else {
            let by_time = spent / self.recipe.time;
            if (by_input as u64) <= by_time {
                by_input
            } else {
                by_time as u32
            }
        }
    }

    /// Brings the furnace up to tick `now`.
    fn advance_to(&mut self, now: u64)
        requires
            old(self).wf(),
            old(self).last_tick() <= now,
        ensures
            final(self).wf(),
            old(self).advanced(final(self), now),
    {
        let ghost before = *self;
        let count = self.count_cycles(now);
        let spent = self.crafting_time + (now - self.tick);
        let need = self.recipe.input_amount;
        let give = self.recipe.output_amount;
        let a = self.input.amount();
        let o = self.output.amount();
        proof {
            let n = need as int;
            let ai = a as int;
            let c = count as int;
            let g = give as int;
            assert(c <= ai / n);
            assert(c * n <= (ai / n) * n) by (nonlinear_arith)
                requires c <= ai / n, n > 0;
            assert((ai / n) * n <= ai) by (nonlinear_arith)
                requires n > 0, ai >= 0;
            assert(c * g <= (ai / n) * g) by (nonlinear_arith)
                requires c <= ai / n, g >= 0;
            lemma_div_after_batches(ai, c, n);
            assert(((ai / n) - c) * g + c * g == (ai / n) * g) by (nonlinear_arith);
            if self.recipe.time > 0 {
                let t = self.recipe.time as int;
                let sp = spent as int;
                assert(c <= sp / t);
                assert(c * t <= (sp / t) * t) by (nonlinear_arith)
                    requires c <= sp / t, t > 0;
                assert((sp / t) * t <= sp) by (nonlinear_arith)
                    requires t > 0, sp >= 0;
            }
        }
        let used = self.input.split_off(count * need);
        self.output.add(Resource::new(self.recipe.output, count * give));
        let remaining = spent - (count as u64) * self.recipe.time;
        self.crafting_time = if self.input.amount() < need { 0 } else { remaining };
        self.tick = now;
        proof {
            let _ = used;
            let n = need as int;
            assert((self.input().amount() as int) / n == (a as int) / n - count);
            assert(self.output().amount() == o + count * give);
            assert(before.cycles_at(now) == count);
        }
    }

    /// Brings the furnace up to the clock's tick and opens its input pool.
    pub fn inputs(&mut self, tick: &Tick) -> (r: &mut Resource)
        requires
            old(self).wf(),
            old(self).last_tick() <= tick.cur(),
        ensures
            r.kind() == old(self).recipe().input,
            r.amount() == old(self).input_at(tick.cur()),
            old(self).advanced_except_amounts(final(self), tick.cur()),
            final(self).input() == *final(r),
            final(self).crafting_time() <= tick.cur(),
            final(self).output().kind() == old(self).recipe().output,
            final(self).output().amount() == old(self).output_at(tick.cur()),
    {
        self.advance_to(tick.cur());
        &mut self.input
    }

    /// Brings the furnace up to the clock's tick and opens its output pool.
    pub fn outputs(&mut self, tick: &Tick) -> (r: &mut Resource)
        requires
            old(self).wf(),
            old(self).last_tick() <= tick.cur(),
        ensures
            r.kind() == old(self).recipe().output,
            r.amount() == old(self).output_at(tick.cur()),
            old(self).advanced_except_amounts(final(self), tick.cur()),
            final(self).output() == *final(r),
            final(self).crafting_time() <= tick.cur(),
            final(self).input().kind() == old(self).recipe().input,
            final(self).input().amount() == old(self).input_at(tick.cur()),
    {
        self.advance_to(tick.cur());
        &mut self.output
    }

    /// The amount that the output pool will hold at tick `now`, if nothing
    /// is added or taken before then. Leaves the furnace as it is.
    pub fn output_amount_at(&self, now: u64) -> (r: u32)
        requires
            self.wf(),
            self.last_tick() <= now,
        ensures
            r == self.output_at(now),
    {
        let count = self.count_cycles(now);
        proof {
            let n = self.recipe.input_amount as int;
            let a = self.input.amount() as int;
            let g = self.recipe.output_amount as int;
            let c = count as int;
            assert(c * g <= (a / n) * g) by (nonlinear_arith)
                requires c <= a / n, g >= 0;
        }
        self.output.amount() + count * self.recipe.output_amount
    }
}

/// A furnace neither makes nor loses units: between its last update and any
/// later tick it consumes input and produces output only in whole batches of
/// its recipe, so `input_amount` units taken from the input always stand
/// against `output_amount` units added to the output.
pub proof fn lemma_conversion_keeps_ratio(f: Furnace, now: u64)
    requires
        f.wf(),
        f.last_tick() <= now,
    ensures
        f.cycles_at(now) >= 0,
        f.input_at(now) >= 0,
        f.input().amount() - f.input_at(now) == f.cycles_at(now) * f.recipe().input_amount,
        f.output_at(now) - f.output().amount() == f.cycles_at(now) * f.recipe().output_amount,
        f.input_at(now) * f.recipe().output_amount + f.output_at(now) * f.recipe().input_amount
            == f.input().amount() * f.recipe().output_amount + f.output().amount() * f.recipe().input_amount,
{
    let n = f.recipe().input_amount as int;
    let g = f.recipe().output_amount as int;
    let a = f.input().amount() as int;
    let o = f.output().amount() as int;
    let c = f.cycles_at(now);
    assert(c >= 0) by {
        if f.recipe().time > 0 {
            let spent = f.crafting_time() + now - f.last_tick();
            lemma_div_is_ordered(0, spent, f.recipe().time as int);
            lemma_div_is_ordered(0, a, n);
        } else {
            lemma_div_is_ordered(0, a, n);
        }
    }
    assert(c <= a / n);
    assert(c * n <= (a / n) * n) by (nonlinear_arith)
        requires c <= a / n, n > 0;
    assert((a / n) * n <= a) by (nonlinear_arith)
        requires n > 0, a >= 0;
    assert((a - c * n) * g + (o + c * g) * n == a * g + o * n) by (nonlinear_arith);
}

/// Switching an empty furnace to another recipe and back gives the furnace
/// that building one for its recipe at its tick gives: the same empty pools,
/// the same recipe, no batch under way.
pub proof fn lemma_switch_round_trip(f: Furnace, other: Recipe, switched: Furnace, back: Furnace, built: Furnace)
    requires
        f.wf(),
        f.is_empty(),
        other.wf(),
        switched.is_fresh(other, f.last_tick()),
        back.is_fresh(f.recipe(), switched.last_tick()),
        built.is_fresh(f.recipe(), f.last_tick()),
    ensures
        back == built,
        back.wf(),
{
    lemma_resource_ext(back.input(), built.input());
    lemma_resource_ext(back.output(), built.output());
    assert((0int / (f.recipe().input_amount as int)) * f.recipe().output_amount == 0) by (nonlinear_arith)
        requires f.recipe().input_amount >= 1;
}

} // verus!
