//! The capability of advancing a state by one time step.

use crate::point::Point;
use macroquad::math::Vec3;
use vstd::prelude::*;

verus! {

/// A dynamical system that can be integrated one fixed time step at a time.
///
/// An implementation supplies [`Attractor::advance`], the formula of one step.
/// It reads its parameters through `&self` and must return the same state for
/// the same parameters and the same input.
pub trait Attractor {
    /// The state one time step after `coords`.
    fn advance(&self, coords: Vec3) -> Vec3;

    /// Moves `p` one time step forward. The colour of the particle stays as it
    /// is; its new position is one that `advance` gives for the old position.
    fn step(&self, p: &mut Point)
        ensures
            final(p).color == old(p).color,
            call_ensures(Self::advance, (self, old(p).coords), final(p).coords),
    {
        p.coords = self.advance(p.coords);
    }
}

/// `after` is a state that `attractor.advance(before)` can return.
pub open spec fn leads_to<A: Attractor>(attractor: &A, before: Vec3, after: Vec3) -> bool {
    call_ensures(A::advance, (attractor, before), after)
}

/// The formula of `attractor` gives one state for each state: whatever it
/// returns for a state, it returns every time.
pub open spec fn single_valued<A: Attractor>(attractor: &A) -> bool {
    forall|before: Vec3, first: Vec3, second: Vec3|
        leads_to(attractor, before, first) && leads_to(attractor, before, second) ==> first == second
}

} // verus!
