//! One furnace slot that can be switched between the smelting recipes.
//!
//! The slot always holds exactly one furnace, tagged by its recipe. It opens
//! the furnace only to a caller that names the recipe it holds, and switches
//! recipes only through the furnace's own emptiness check: a refused switch
//! puts the old furnace back as it was.
use vstd::prelude::*;
use crate::machine::{Furnace, MachineNotEmptyError, Recipe};

verus! {

/// The furnace in a [`FlexibleFurnace`], tagged by its recipe.
#[derive(Debug)]
pub enum FurnaceState {
    Iron(Furnace),
    Copper(Furnace),
    Steel(Furnace),
    /// Stands in the slot only while a switch is under way.
    Vacant,
}

impl FurnaceState {
    /// The recipe that the tag stands for.
    pub open spec fn holds(&self, recipe: Recipe) -> bool {
        match self {
            FurnaceState::Iron(_) => recipe == Recipe::spec_iron_smelting(),
            FurnaceState::Copper(_) => recipe == Recipe::spec_copper_smelting(),
            FurnaceState::Steel(_) => recipe == Recipe::spec_steel_smelting(),
            FurnaceState::Vacant => false,
        }
    }

    pub open spec fn furnace(&self) -> Furnace
        recommends
            !(self is Vacant),
    {
        match self {
            FurnaceState::Iron(f) => *f,
            FurnaceState::Copper(f) => *f,
            FurnaceState::Steel(f) => *f,
            FurnaceState::Vacant => arbitrary(),
        }
    }

    /// Occupied, by a well-formed furnace whose recipe is the tag's.
    pub open spec fn wf(&self) -> bool {
        &&& !(self is Vacant)
        &&& self.furnace().wf()
        &&& self.holds(self.furnace().recipe())
    }

    /// `self` and `other` carry the same tag.
    pub open spec fn same_tag(&self, other: &FurnaceState) -> bool {
        match (self, other) {
            (FurnaceState::Iron(_), FurnaceState::Iron(_)) => true,
            (FurnaceState::Copper(_), FurnaceState::Copper(_)) => true,
            (FurnaceState::Steel(_), FurnaceState::Steel(_)) => true,
            _ => false,
        }
    }

    fn change_recipe<NewRecipe: SupportedFurnaceRecipe>(self, recipe: NewRecipe) -> (r: Result<
        FurnaceState,
        MachineNotEmptyError<FurnaceState>,
    >)
        requires
            self.wf(),
        ensures
            r is Ok <==> self.furnace().is_empty(),
            match r {
                Ok(next) => {
                    &&& next.wf()
                    &&& next.furnace().is_fresh(NewRecipe::descriptor(), self.furnace().last_tick())
                },
                Err(e) => {
                    &&& e.machine == self
                    &&& e.resource_type == (if self.furnace().input().amount() > 0 {
                        self.furnace().input().kind()
                    } else {
                        self.furnace().output().kind()
                    })
                },
            },
    {
        proof {
            NewRecipe::lemma_supported();
        }
        let descriptor = recipe.recipe();
        match self {
            FurnaceState::Iron(furnace) => match furnace.change_recipe(descriptor) {
                Ok(next) => Ok(NewRecipe::wrap(next)),
                Err(e) => Err(MachineNotEmptyError {
                    machine: FurnaceState::Iron(e.machine),
                    resource_type: e.resource_type,
                    amount: e.amount,
                    location: e.location,
                }),
            },
            FurnaceState::Copper(furnace) => match furnace.change_recipe(descriptor) {
                Ok(next) => Ok(NewRecipe::wrap(next)),
                Err(e) => Err(MachineNotEmptyError {
                    machine: FurnaceState::Copper(e.machine),
                    resource_type: e.resource_type,
                    amount: e.amount,
                    location: e.location,
                }),
            },
            FurnaceState::Steel(furnace) => match furnace.change_recipe(descriptor) {
                Ok(next) => Ok(NewRecipe::wrap(next)),
                Err(e) => Err(MachineNotEmptyError {
                    machine: FurnaceState::Steel(e.machine),
                    resource_type: e.resource_type,
                    amount: e.amount,
                    location: e.location,
                }),
            },
            FurnaceState::Vacant => vstd::pervasive::unreached(),
        }
    }
}

/// A recipe that a [`FlexibleFurnace`] can be switched to.
pub trait SupportedFurnaceRecipe: Sized {
    /// The recipe this type names.
    spec fn descriptor() -> Recipe;

    /// The recipe is one of the smelting recipes that [`FurnaceState`] tags.
    proof fn lemma_supported()
        ensures
            Self::descriptor().wf(),
            Self::descriptor() == Recipe::spec_iron_smelting() || Self::descriptor()
                == Recipe::spec_copper_smelting() || Self::descriptor()
                == Recipe::spec_steel_smelting(),
    ;

    fn recipe(&self) -> (r: Recipe)
        ensures
            r == Self::descriptor(),
    ;

    /// Tags a furnace set to this recipe.
    fn wrap(furnace: Furnace) -> (r: FurnaceState)
        requires
            furnace.wf(),
            furnace.recipe() == Self::descriptor(),
        ensures
            r.wf(),
            r.furnace() == furnace,
    ;

    /// Opens the furnace in `state` if it is set to this recipe.
    fn try_get(state: &mut FurnaceState) -> (r: Option<&mut Furnace>)
        requires
            old(state).wf(),
        ensures
            r is Some <==> old(state).furnace().recipe() == Self::descriptor(),
            match r {
                Some(f) => {
                    &&& *f == old(state).furnace()
                    &&& final(state).same_tag(old(state))
                    &&& final(state).furnace() == *final(f)
                },
                None => *final(state) == *old(state),
            },
    ;
}

/// Marks the recipe [`Recipe::iron_smelting`].
#[derive(Debug, Clone, Copy)]
pub struct IronSmelting;

/// Marks the recipe [`Recipe::copper_smelting`].
#[derive(Debug, Clone, Copy)]
pub struct CopperSmelting;

/// Marks the recipe [`Recipe::steel_smelting`].
#[derive(Debug, Clone, Copy)]
pub struct SteelSmelting;

impl SupportedFurnaceRecipe for IronSmelting {
    open spec fn descriptor() -> Recipe {
        Recipe::spec_iron_smelting()
    }

    proof fn lemma_supported() {
    }

    fn recipe(&self) -> (r: Recipe) {
        Recipe::iron_smelting()
    }

    fn wrap(furnace: Furnace) -> (r: FurnaceState) {
        FurnaceState::Iron(furnace)
    }

    fn try_get(state: &mut FurnaceState) -> (r: Option<&mut Furnace>) {
        match state {
            FurnaceState::Iron(furnace) => Some(furnace),
            _ => None,
        }
    }
}

impl SupportedFurnaceRecipe for CopperSmelting {
    open spec fn descriptor() -> Recipe {
        Recipe::spec_copper_smelting()
    }

    proof fn lemma_supported() {
    }

    fn recipe(&self) -> (r: Recipe) {
        Recipe::copper_smelting()
    }

    fn wrap(furnace: Furnace) -> (r: FurnaceState) {
        FurnaceState::Copper(furnace)
    }

    fn try_get(state: &mut FurnaceState) -> (r: Option<&mut Furnace>) {
        match state {
            FurnaceState::Copper(furnace) => Some(furnace),
            _ => None,
        }
    }
}

impl SupportedFurnaceRecipe for SteelSmelting {
    open spec fn descriptor() -> Recipe {
        Recipe::spec_steel_smelting()
    }

    proof fn lemma_supported() {
    }

    fn recipe(&self) -> (r: Recipe) {
        Recipe::steel_smelting()
    }

    fn wrap(furnace: Furnace) -> (r: FurnaceState) {
        FurnaceState::Steel(furnace)
    }

    fn try_get(state: &mut FurnaceState) -> (r: Option<&mut Furnace>) {
        match state {
            FurnaceState::Steel(furnace) => Some(furnace),
            _ => None,
        }
    }
}

/// A furnace slot whose recipe can be switched while it is empty.
#[derive(Debug)]
pub struct FlexibleFurnace {
    furnace: FurnaceState,
}

impl FlexibleFurnace {
    pub closed spec fn state(&self) -> FurnaceState {
        self.furnace
    }

    pub open spec fn wf(&self) -> bool {
        self.state().wf()
    }

    /// The furnace in the slot.
    pub open spec fn furnace(&self) -> Furnace {
        self.state().furnace()
    }

    /// Puts a furnace set to `R` in a new slot.
    pub fn new<R: SupportedFurnaceRecipe>(furnace: Furnace) -> (r: Self)
        requires
            furnace.wf(),
            furnace.recipe() == R::descriptor(),
        ensures
            r.wf(),
            r.furnace() == furnace,
    {
        FlexibleFurnace { furnace: R::wrap(furnace) }
    }

    /// Opens the furnace if it is set to `R`.
    pub fn as_recipe_mut<R: SupportedFurnaceRecipe>(&mut self) -> (r: Option<&mut Furnace>)
        requires
            old(self).wf(),
        ensures
            r is Some <==> old(self).furnace().recipe() == R::descriptor(),
            match r {
                Some(f) => {
                    &&& *f == old(self).furnace()
                    &&& final(self).state().same_tag(&old(self).state())
                    &&& final(self).furnace() == *final(f)
                },
                None => *final(self) == *old(self),
            },
    {
        R::try_get(&mut self.furnace)
    }

    /// Switches the slot to `NewRecipe` when its furnace is empty. Otherwise
    /// the slot keeps the furnace it had, unchanged, and the error names the
    /// first pool that holds something.
    pub fn change_recipe<NewRecipe: SupportedFurnaceRecipe>(&mut self, new_recipe: NewRecipe) -> (r: Result<
        (),
        MachineNotEmptyError<()>,
    >)
        requires
            old(self).wf(),
        ensures
            final(self).wf(),
            r is Ok <==> old(self).furnace().is_empty(),
            match r {
                Ok(()) => final(self).furnace().is_fresh(NewRecipe::descriptor(), old(self).furnace().last_tick()),
                Err(e) => {
                    &&& *final(self) == *old(self)
                    &&& e.resource_type == (if old(self).furnace().input().amount() > 0 {
                        old(self).furnace().input().kind()
                    } else {
                        old(self).furnace().output().kind()
                    })
                },
            },
    {
        let mut current = FurnaceState::Vacant;
        std::mem::swap(&mut current, &mut self.furnace);
        match current.change_recipe(new_recipe) {
            Ok(next) => {
                self.furnace = next;
                Ok(())
            },
            Err(e) => {
                self.furnace = e.machine;
                Err(MachineNotEmptyError {
                    machine: (),
                    resource_type: e.resource_type,
                    amount: e.amount,
                    location: e.location,
                })
            },
        }
    }
}

} // verus!
