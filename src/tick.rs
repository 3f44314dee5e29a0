//! The simulation clock.
//!
//! Time only moves through the methods below, and only forward. Everything
//! that changes over time takes the clock as a witness of "as of which tick".
use vstd::prelude::*;

verus! {

/// The current tick, and whether advancing it should be traced.
#[derive(Debug)]
pub struct Tick {
    tick: u64,
    log: bool,
}

impl Tick {
    pub closed spec fn spec_cur(&self) -> u64 {
        self.tick
    }

    pub closed spec fn spec_logging(&self) -> bool {
        self.log
    }

    /// A clock at tick 0, not tracing.
    pub fn start() -> (r: Tick)
        ensures
            r.cur() == 0,
            !r.logging(),
    {
        Tick { tick: 0, log: false }
    }

    /// Turns tracing of advances on or off.
    pub fn log(&mut self, log: bool)
        ensures
            final(self).cur() == old(self).cur(),
            final(self).logging() == log,
    {
        self.log = log;
    }

    #[verifier::when_used_as_spec(spec_logging)]
    pub fn logging(&self) -> (r: bool)
        ensures
            r == self.logging(),
    {
        self.log
    }

    /// The current tick number.
    #[verifier::when_used_as_spec(spec_cur)]
    pub fn cur(&self) -> (r: u64)
        ensures
            r == self.cur(),
    {
        self.tick
    }

    /// Moves the clock forward by one tick.
    pub fn advance(&mut self)
        requires
            old(self).cur() < u64::MAX,
        ensures
            final(self).cur() == old(self).cur() + 1,
            final(self).logging() == old(self).logging(),
    {
        self.tick = self.tick + 1;
    }

    /// Moves the clock forward by exactly `ticks`; 0 leaves it where it is.
    pub fn advance_by(&mut self, ticks: u64)
        requires
            old(self).cur() + ticks <= u64::MAX,
        ensures
            final(self).cur() == old(self).cur() + ticks,
            final(self).logging() == old(self).logging(),
    {
        self.tick = self.tick + ticks;
    }

    /// Moves the clock forward to `target`, or leaves it where it is when
    /// `target` is not later than now.
    pub fn advance_to_tick(&mut self, target: u64)
        ensures
            final(self).cur() == if target > old(self).cur() { target } else { old(self).cur() },
            final(self).logging() == old(self).logging(),
    {
        if target > self.tick {
            self.tick = target;
        }
    }

    /// Moves the clock forward one tick at a time until `condition` holds of
    /// the current tick number, or until `max_ticks` ticks have passed.
    /// Returns whether the condition was met. The condition is asked once at
    /// each tick reached, the starting tick included; a condition that holds
    /// at the start leaves the clock where it is.
    pub fn advance_until<F: Fn(u64) -> bool>(&mut self, condition: F, max_ticks: u64) -> (r: bool)
        requires
            old(self).cur() + max_ticks <= u64::MAX,
            forall|t: u64| call_requires(condition, (t,)),
        ensures
            old(self).cur() <= final(self).cur() <= old(self).cur() + max_ticks,
            final(self).logging() == old(self).logging(),
            r ==> call_ensures(condition, (final(self).cur(),), true),
            !r ==> final(self).cur() == old(self).cur() + max_ticks,
            !r ==> call_ensures(condition, (final(self).cur(),), false),
            forall|t: u64|
                old(self).cur() <= t < final(self).cur() ==> call_ensures(condition, (t,), false),
            (forall|b: bool| call_ensures(condition, (old(self).cur(),), b) ==> b) ==> {
                &&& r
                &&& final(self).cur() == old(self).cur()
            },
    {
        let start = self.tick;
        loop
            invariant
                start == old(self).cur(),
                start <= self.cur() <= start + max_ticks,
                start + max_ticks <= u64::MAX,
                self.logging() == old(self).logging(),
                forall|t: u64| call_requires(condition, (t,)),
                forall|t: u64| start <= t < self.cur() ==> call_ensures(condition, (t,), false),
                (forall|b: bool| call_ensures(condition, (start,), b) ==> b) ==> self.cur() == start,
            decreases start + max_ticks - self.cur(),
        {
            let now = self.tick;
            if condition(now) {
                return true;
            }
            if now - start >= max_ticks {
                return false;
            }
            self.tick = now + 1;
        }
    }
}

} // verus!
