//! Triangles.

use vstd::prelude::*;
use crate::draw::Draw;
use crate::error::PixResult;
use crate::shape::point::Point;
use crate::state::PixState;

verus! {

/// A triangle with three corners.
#[derive(Clone, Copy, Debug, PartialEq, Eq, Hash)]
pub struct Tri<T, const N: usize>(pub [Point<T, N>; 3]);

/// A triangle in the plane with whole coordinates.
pub type TriI2 = Tri<i32, 2>;

/// A triangle in space with whole coordinates.
pub type TriI3 = Tri<i32, 3>;

impl<T: Copy, const N: usize> Tri<T, N> {
    /// The triangle with the corners `p1`, `p2` and `p3`.
    pub fn new(p1: Point<T, N>, p2: Point<T, N>, p3: Point<T, N>) -> (tri: Self)
        ensures
            tri.0@ == seq![p1, p2, p3],
    {
        let tri = Tri([p1, p2, p3]);
        assert(tri.0@ =~= seq![p1, p2, p3]);
        tri
    }

    /// The first corner.
    pub fn p1(&self) -> (p: Point<T, N>)
        ensures
            p == self.0@[0],
    {
        self.0[0]
    }

    /// Moves the first corner to `p`.
    pub fn set_p1(&mut self, p: Point<T, N>)
        ensures
            final(self).0@ == old(self).0@.update(0, p),
    {
        self.0[0] = p;
    }

    /// The second corner.
    pub fn p2(&self) -> (p: Point<T, N>)
        ensures
            p == self.0@[1],
    {
        self.0[1]
    }

    /// Moves the second corner to `p`.
    pub fn set_p2(&mut self, p: Point<T, N>)
        ensures
            final(self).0@ == old(self).0@.update(1, p),
    {
        self.0[1] = p;
    }

    /// The third corner.
    pub fn p3(&self) -> (p: Point<T, N>)
        ensures
            p == self.0@[2],
    {
        self.0[2]
    }

    /// Moves the third corner to `p`.
    pub fn set_p3(&mut self, p: Point<T, N>)
        ensures
            final(self).0@ == old(self).0@.update(2, p),
    {
        self.0[2] = p;
    }

    /// The three corners.
    pub fn values(&self) -> (points: [Point<T, N>; 3])
        ensures
            points == self.0,
    {
        self.0
    }

    /// The three corners, in order.
    pub fn to_vec(self) -> (v: Vec<Point<T, N>>)
        ensures
            v@ == self.0@,
    {
        let mut v: Vec<Point<T, N>> = Vec::new();
        v.push(self.0[0]);
        v.push(self.0[1]);
        v.push(self.0[2]);
        assert(v@ =~= self.0@);
        v
    }
}

impl Draw for Tri<i32, 2> {
    /// The triangle is appended to the commands, with the fill and the stroke
    /// of the settings, and nothing else changes.
    open spec fn drawn(&self, before: &PixState, after: &PixState, r: PixResult<()>) -> bool {
        &&& r is Ok
        &&& after.ops() == before.triangle_drawn(*self)
        &&& after.ui == before.ui
        &&& after.same_setup(before)
    }

    /// Draws the triangle with the fill and the stroke of the settings.
    fn draw(&self, s: &mut PixState) -> (r: PixResult<()>) {
        s.triangle(*self);
        Ok(())
    }
}

} // verus!
