//! Particles and the resizable set that holds them.

use crate::attractor::leads_to;
use crate::attractor::single_valued;
use crate::attractor::Attractor;
use macroquad::math::Vec3;
use vstd::prelude::*;

verus! {

/// `macroquad::math::Vec3`, the three-component single-precision vector of
/// `glam`. It is declared as an opaque type: values of it are stored, copied
/// and handed on, and nothing is assumed about what they hold.
#[verifier::external_type_specification]
#[verifier::external_body]
pub struct ExVec3(macroquad::math::Vec3);

/// A display colour as four 8-bit channels.
#[derive(Clone, Copy, Debug, PartialEq, Eq, Structural)]
pub struct Rgba {
    pub r: u8,
    pub g: u8,
    pub b: u8,
    pub a: u8,
}

/// Number of colours in the palette.
pub const PALETTE_LEN: usize = 1;

/// The fixed palette that particle colours are drawn from.
pub open spec fn palette() -> Seq<Rgba> {
    seq![Rgba { r: 255, g: 5, b: 5, a: 178 }]
}

/// `color` is one of the palette's entries.
pub open spec fn in_palette(color: Rgba) -> bool {
    palette().contains(color)
}

/// The palette entry at `index`, or `None` where the palette has no such entry.
pub fn palette_color(index: usize) -> (color: Option<Rgba>)
    ensures
        palette().len() == PALETTE_LEN,
        color == (if index < palette().len() {
            Some(palette()[index as int])
        } else {
            None
        }),
{
    if index < PALETTE_LEN {
        Some(Rgba { r: 255, g: 5, b: 5, a: 178 })
    } else {
        None
    }
}

/// Calls `macroquad::rand::gen_range`, which is the `gen_range` of
/// `quad-rand`, on two `usize` bounds. That function computes
/// `low + (high - low) * r / 2^32` in double precision, for a 32-bit random
/// number `r`, and drops the fraction. For bounds up to `2^20` every step of
/// that computation is exact, so the outcome lies in `low..high`. Which
/// number of that range comes out depends on the generator's state and is
/// left open.
#[verifier::external_body]
fn random_in_range(low: usize, high: usize) -> (drawn: usize)
    requires
        low < high <= 0x10_0000,
    ensures
        low <= drawn < high,
{
    macroquad::rand::gen_range(low, high)
}

/// One particle: a position in state space and a display colour.
#[derive(Clone, Copy, Debug)]
pub struct Point {
    pub coords: Vec3,
    pub color: Rgba,
}

impl Point {
    /// A particle at `coords` with a colour drawn at random from the palette.
    pub fn new(coords: Vec3) -> (p: Point)
        ensures
            p.coords == coords,
            in_palette(p.color),
    {
        let index: usize = random_in_range(0, PALETTE_LEN);
        match palette_color(index) {
            Some(color) => Point { coords, color },
            None => unreached(),
        }
    }
}

/// `p` is a newly made particle: its position is one that `sampler` can
/// return and its colour is one of the palette's.
pub open spec fn sampled<F: Fn() -> Vec3>(sampler: &F, p: Point) -> bool {
    sampler.ensures((), p.coords) && in_palette(p.color)
}

/// `after` is `before` with every position sampled anew: as many particles,
/// each with a position that `sampler` can return and with the colour it had.
pub open spec fn resampled<F: Fn() -> Vec3>(sampler: &F, before: Seq<Point>, after: Seq<Point>) -> bool {
    &&& after.len() == before.len()
    &&& forall|i: int|
        0 <= i < before.len() ==> {
            &&& sampler.ensures((), (#[trigger] after[i]).coords)
            &&& after[i].color == before[i].color
        }
}

/// `after` is `before` one time step later under `attractor`: as many
/// particles, each at a position that the attractor's formula gives for the
/// position it had, and with the colour it had.
pub open spec fn stepped<A: Attractor>(attractor: &A, before: Seq<Point>, after: Seq<Point>) -> bool {
    &&& after.len() == before.len()
    &&& forall|i: int|
        0 <= i < before.len() ==> {
            &&& leads_to(attractor, before[i].coords, (#[trigger] after[i]).coords)
            &&& after[i].color == before[i].color
        }
}

/// `after` is `before` with one particle appended.
pub open spec fn grown_by_one(before: Seq<Point>, after: Seq<Point>) -> bool {
    after.len() == before.len() + 1 && after.drop_last() == before
}

/// `before` without its last particle; an empty sequence stays empty.
pub open spec fn shrunk(before: Seq<Point>) -> Seq<Point> {
    if before.len() == 0 {
        before
    } else {
        before.drop_last()
    }
}

/// An ordered, resizable set of particles. The order is the order of insertion.
pub struct Points {
    pub points: Vec<Point>,
}

impl View for Points {
    type V = Seq<Point>;

    open spec fn view(&self) -> Seq<Point> {
        self.points@
    }
}

impl Points {
    /// A set of `num` newly sampled particles; an empty set where `num` is
    /// not positive.
    pub fn new<F: Fn() -> Vec3>(num: i32, sampler: &F) -> (set: Points)
        requires
            sampler.requires(()),
        ensures
            set@.len() == (if num > 0 {
                num as int
            } else {
                0
            }),
            forall|i: int| 0 <= i < set@.len() ==> sampled(sampler, #[trigger] set@[i]),
    {
        let mut points: Vec<Point> = Vec::new();
        let mut made: i32 = 0;
        while made < num
            invariant
                sampler.requires(()),
                0 <= made,
                made <= num || made == 0,
                points@.len() == made,
                forall|i: int| 0 <= i < points@.len() ==> sampled(sampler, #[trigger] points@[i]),
            decreases num - made,
        {
            points.push(Point::new(sampler()));
            made = made + 1;
        }
        Points { points }
    }

    /// Gives every particle a newly sampled position. The number of particles
    /// and the colour of each stay as they are.
    pub fn reset<F: Fn() -> Vec3>(&mut self, sampler: &F)
        requires
            sampler.requires(()),
        ensures
            resampled(sampler, old(self)@, final(self)@),
            final(self)@.len() == old(self)@.len(),
    {
        let count: usize = self.points.len();
        let mut idx: usize = 0;
        while idx < count
            invariant
                sampler.requires(()),
                self@.len() == count,
                old(self)@.len() == count,
                idx <= count,
                forall|i: int|
                    0 <= i < idx ==> {
                        &&& sampler.ensures((), (#[trigger] self@[i]).coords)
                        &&& self@[i].color == old(self)@[i].color
                    },
                forall|i: int| idx <= i < count ==> self@[i] == old(self)@[i],
            decreases count - idx,
        {
            self.points[idx].coords = sampler();
            idx = idx + 1;
        }
    }

    /// Appends one newly sampled particle. The particles already in the set
    /// keep their places and values.
    pub fn add_point<F: Fn() -> Vec3>(&mut self, sampler: &F)
        requires
            sampler.requires(()),
        ensures
            grown_by_one(old(self)@, final(self)@),
            sampled(sampler, final(self)@.last()),
    {
        self.points.push(Point::new(sampler()));
        assert(self@.drop_last() == old(self)@);
    }

    /// Removes the particle that was added last. On an empty set nothing
    /// happens.
    pub fn remove_point(&mut self)
        ensures
            final(self)@ == shrunk(old(self)@),
            old(self)@.len() == 0 ==> final(self)@.len() == 0,
    {
        self.points.pop();
    }

    /// Moves every particle one time step forward under `attractor`. The
    /// number of particles and the colour of each stay as they are.
    pub fn step_all<A: Attractor>(&mut self, attractor: &A)
        ensures
            stepped(attractor, old(self)@, final(self)@),
            final(self)@.len() == old(self)@.len(),
    {
        let count: usize = self.points.len();
        let mut idx: usize = 0;
        while idx < count
            invariant
                self@.len() == count,
                old(self)@.len() == count,
                idx <= count,
                forall|i: int|
                    0 <= i < idx ==> {
                        &&& leads_to(attractor, old(self)@[i].coords, (#[trigger] self@[i]).coords)
                        &&& self@[i].color == old(self)@[i].color
                    },
                forall|i: int| idx <= i < count ==> self@[i] == old(self)@[i],
            decreases count - idx,
        {
            attractor.step(&mut self.points[idx]);
            idx = idx + 1;
        }
    }
}

/// Where the attractor's formula gives one state for each state, stepping a
/// set gives one set for each set: two runs from the same particles end with
/// the same particles.
pub proof fn lemma_stepping_is_repeatable<A: Attractor>(
    attractor: &A,
    start: Seq<Point>,
    first: Seq<Point>,
    second: Seq<Point>,
)
    requires
        single_valued(attractor),
        stepped(attractor, start, first),
        stepped(attractor, start, second),
    ensures
        first == second,
{
    assert forall|i: int| 0 <= i < first.len() implies first[i] == second[i] by {
        assert(leads_to(attractor, start[i].coords, first[i].coords));
        assert(leads_to(attractor, start[i].coords, second[i].coords));
    }
    assert(first =~= second);
}

/// Removing a particle right after adding one gives back the set as it was,
/// and so the same number of particles.
pub proof fn lemma_add_then_remove_restores(before: Seq<Point>, grown: Seq<Point>)
    requires
        grown_by_one(before, grown),
    ensures
        shrunk(grown) == before,
        shrunk(grown).len() == before.len(),
{
}

} // verus!
