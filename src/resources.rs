//! Resource pools and exact-size bundles.
//!
//! Every unit of a resource lives either in a [`Resource`] pool or in a
//! [`Bundle`]. Neither type can be copied or cloned, and every operation that
//! moves units between them states that the total is kept.
use vstd::prelude::*;

verus! {

/// The kinds of material in the economy.
#[derive(Debug, Clone, Copy, PartialEq, Eq, Structural)]
pub enum ResourceKind {
    IronOre,
    Iron,
    CopperOre,
    Copper,
    Steel,
    CopperWire,
    ElectronicCircuit,
    RedScience,
    Point,
}

/// A pool of any amount of one kind of resource.
#[derive(Debug)]
pub struct Resource {
    kind: ResourceKind,
    amount: u32,
}

/// Exactly `amount` units of one kind, fixed when the bundle is made.
/// It is used up by value: merged into a pool, spent on a building, or
/// turned into a pool of its own.
#[derive(Debug)]
pub struct Bundle {
    kind: ResourceKind,
    amount: u32,
}

/// A request for more units than a pool holds.
#[derive(Debug, Clone, Copy, PartialEq, Eq, Structural)]
pub struct InsufficientResourceError {
    pub kind: ResourceKind,
    pub requested_amount: u32,
    pub available_amount: u32,
}

/// Two pools of the same kind and amount are the same pool.
pub proof fn lemma_resource_ext(a: Resource, b: Resource)
    requires
        a.kind() == b.kind(),
        a.amount() == b.amount(),
    ensures
        a == b,
{
}

impl Resource {
    pub closed spec fn spec_kind(&self) -> ResourceKind {
        self.kind
    }

    pub closed spec fn spec_amount(&self) -> u32 {
        self.amount
    }

    /// Units are only brought into existence by the modules of this crate
    /// that mine or produce them.
    pub(crate) fn new(kind: ResourceKind, amount: u32) -> (r: Resource)
        ensures
            r.kind() == kind,
            r.amount() == amount,
    {
        Resource { kind, amount }
    }

    /// An empty pool of the given kind.
    pub fn new_empty(kind: ResourceKind) -> (r: Resource)
        ensures
            r.kind() == kind,
            r.amount() == 0,
    {
        Resource { kind, amount: 0 }
    }

    #[verifier::when_used_as_spec(spec_kind)]
    pub fn kind(&self) -> (r: ResourceKind)
        ensures
            r == self.kind(),
    {
        self.kind
    }

    #[verifier::when_used_as_spec(spec_amount)]
    pub fn amount(&self) -> (r: u32)
        ensures
            r == self.amount(),
    {
        self.amount
    }

    /// Splits the pool in two: the remainder and `amount` units. Hands the
    /// pool back unchanged when it holds fewer than `amount`.
    pub fn split(self, amount: u32) -> (r: Result<(Resource, Resource), Resource>)
        ensures
            match r {
                Ok((rest, part)) => {
                    &&& amount <= self.amount()
                    &&& rest.kind() == self.kind() && part.kind() == self.kind()
                    &&& part.amount() == amount
                    &&& rest.amount() + part.amount() == self.amount()
                },
                Err(same) => amount > self.amount() && same == self,
            },
    {
        if amount <= self.amount {
            Ok((Resource { kind: self.kind, amount: self.amount - amount }, Resource { kind: self.kind, amount }))
        } else {
            Err(self)
        }
    }

    /// Takes exactly `amount` units out as a new pool, or fails and leaves
    /// the pool as it was.
    pub fn split_off(&mut self, amount: u32) -> (r: Result<Resource, InsufficientResourceError>)
        ensures
            final(self).kind() == old(self).kind(),
            match r {
                Ok(part) => {
                    &&& amount <= old(self).amount()
                    &&& part.kind() == old(self).kind()
                    &&& part.amount() == amount
                    &&& final(self).amount() + part.amount() == old(self).amount()
                },
                Err(e) => {
                    &&& amount > old(self).amount()
                    &&& *final(self) == *old(self)
                    &&& e == InsufficientResourceError {
                        kind: old(self).kind(),
                        requested_amount: amount,
                        available_amount: old(self).amount() as u32,
                    }
                },
            },
    {
        if amount <= self.amount {
            self.amount = self.amount - amount;
            Ok(Resource { kind: self.kind, amount })
        } else {
            Err(InsufficientResourceError {
                kind: self.kind,
                requested_amount: amount,
                available_amount: self.amount,
            })
        }
    }

    /// Takes out as much as is there, up to `amount`.
    pub fn split_off_max(&mut self, amount: u32) -> (r: Resource)
        ensures
            final(self).kind() == old(self).kind(),
            r.kind() == old(self).kind(),
            r.amount() == if amount <= old(self).amount() { amount } else { old(self).amount() },
            final(self).amount() + r.amount() == old(self).amount(),
    {
        if amount <= self.amount {
            self.amount = self.amount - amount;
            Resource { kind: self.kind, amount }
        } else {
            let all = self.amount;
            self.amount = 0;
            Resource { kind: self.kind, amount: all }
        }
    }

    /// Takes everything out, leaving the pool empty.
    pub fn empty(&mut self) -> (r: Resource)
        ensures
            final(self).kind() == old(self).kind(),
            final(self).amount() == 0,
            r.kind() == old(self).kind(),
            r.amount() == old(self).amount(),
    {
        let all = self.amount;
        self.amount = 0;
        Resource { kind: self.kind, amount: all }
    }

    /// Takes out everything above `amount`, leaving at most `amount` behind.
    pub fn empty_except(&mut self, amount: u32) -> (r: Resource)
        ensures
            final(self).kind() == old(self).kind(),
            r.kind() == old(self).kind(),
            final(self).amount() == if old(self).amount() <= amount { old(self).amount() } else { amount },
            final(self).amount() + r.amount() == old(self).amount(),
    {
        let to_empty = if self.amount > amount { self.amount - amount } else { 0 };
        self.amount = self.amount - to_empty;
        Resource { kind: self.kind, amount: to_empty }
    }

    /// Moves all of this pool into `other`.
    pub fn empty_into(&mut self, other: &mut Resource)
        requires
            old(self).kind() == old(other).kind(),
            old(self).amount() + old(other).amount() <= u32::MAX,
        ensures
            final(self).kind() == old(self).kind(),
            final(other).kind() == old(other).kind(),
            final(self).amount() == 0,
            final(other).amount() == old(other).amount() + old(self).amount(),
    {
        other.amount = other.amount + self.amount;
        self.amount = 0;
    }

    /// Merges another pool of the same kind into this one.
    pub fn add(&mut self, other: Resource)
        requires
            old(self).kind() == other.kind(),
            old(self).amount() + other.amount() <= u32::MAX,
        ensures
            final(self).kind() == old(self).kind(),
            final(self).amount() == old(self).amount() + other.amount(),
    {
        self.amount = self.amount + other.amount;
    }

    /// Merges a bundle of the same kind into this pool, using the bundle up.
    pub fn add_bundle(&mut self, bundle: Bundle)
        requires
            old(self).kind() == bundle.kind(),
            old(self).amount() + bundle.amount() <= u32::MAX,
        ensures
            final(self).kind() == old(self).kind(),
            final(self).amount() == old(self).amount() + bundle.amount(),
    {
        self.amount = self.amount + bundle.amount;
    }

    /// Takes exactly `amount` units out as a bundle, or fails and leaves the
    /// pool as it was.
    pub fn bundle(&mut self, amount: u32) -> (r: Result<Bundle, InsufficientResourceError>)
        ensures
            final(self).kind() == old(self).kind(),
            match r {
                Ok(b) => {
                    &&& amount <= old(self).amount()
                    &&& b.kind() == old(self).kind()
                    &&& b.amount() == amount
                    &&& final(self).amount() + b.amount() == old(self).amount()
                },
                Err(e) => {
                    &&& amount > old(self).amount()
                    &&& *final(self) == *old(self)
                    &&& e == InsufficientResourceError {
                        kind: old(self).kind(),
                        requested_amount: amount,
                        available_amount: old(self).amount() as u32,
                    }
                },
            },
    {
        if amount <= self.amount {
            self.amount = self.amount - amount;
            Ok(Bundle { kind: self.kind, amount })
        } else {
            Err(InsufficientResourceError {
                kind: self.kind,
                requested_amount: amount,
                available_amount: self.amount,
            })
        }
    }
}

impl Bundle {
    pub closed spec fn spec_kind(&self) -> ResourceKind {
        self.kind
    }

    pub closed spec fn spec_amount(&self) -> u32 {
        self.amount
    }

    pub(crate) fn new(kind: ResourceKind, amount: u32) -> (r: Bundle)
        ensures
            r.kind() == kind,
            r.amount() == amount,
    {
        Bundle { kind, amount }
    }

    #[verifier::when_used_as_spec(spec_kind)]
    pub fn kind(&self) -> (r: ResourceKind)
        ensures
            r == self.kind(),
    {
        self.kind
    }

    #[verifier::when_used_as_spec(spec_amount)]
    pub fn amount(&self) -> (r: u32)
        ensures
            r == self.amount(),
    {
        self.amount
    }

    /// Splits the bundle into one of `first` units and one of the rest.
    pub fn split(self, first: u32) -> (r: (Bundle, Bundle))
        requires
            first <= self.amount(),
        ensures
            r.0.kind() == self.kind() && r.1.kind() == self.kind(),
            r.0.amount() == first,
            r.0.amount() + r.1.amount() == self.amount(),
    {
        (Bundle { kind: self.kind, amount: first }, Bundle { kind: self.kind, amount: self.amount - first })
    }

    /// Turns the bundle into a pool holding the same units.
    pub fn to_resource(self) -> (r: Resource)
        ensures
            r.kind() == self.kind(),
            r.amount() == self.amount(),
    {
        Resource { kind: self.kind, amount: self.amount }
    }
}

} // verus!
