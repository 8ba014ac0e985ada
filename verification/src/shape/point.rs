//! Points in a space of any dimension.

use vstd::prelude::*;
use crate::shape::rect::Pos;

verus! {

/// A point with `N` coordinates.
#[derive(Clone, Copy, Debug, PartialEq, Eq, Hash)]
pub struct Point<T, const N: usize>(pub [T; N]);

/// A point in the plane with whole coordinates.
pub type PointI2 = Point<i32, 2>;

impl<T: Copy, const N: usize> Point<T, N> {
    /// The point with the given coordinates.
    pub fn new(coords: [T; N]) -> (p: Self)
        ensures
            p.0 == coords,
    {
        Point(coords)
    }

    /// The coordinates.
    pub fn values(&self) -> (coords: [T; N])
        ensures
            coords == self.0,
    {
        self.0
    }

    /// The coordinates, in order.
    pub fn to_vec(self) -> (v: Vec<T>)
        ensures
            v@ == self.0@,
    {
        let mut v: Vec<T> = Vec::new();
        let mut i: usize = 0;
        while i < N
            invariant
                0 <= i <= N,
                self.0@.len() == N,
                v@ == self.0@.take(i as int),
            decreases N - i,
        {
            v.push(self.0[i]);
            assert(v@ =~= self.0@.take(i + 1));
            i += 1;
        }
        assert(self.0@.take(N as int) =~= self.0@);
        v
    }
}

impl<T: Copy> Point<T, 2> {
    /// The point `(x, y)`.
    pub fn from_xy(x: T, y: T) -> (p: Self)
        ensures
            p.0@ == seq![x, y],
    {
        let p = Point([x, y]);
        assert(p.0@ =~= seq![x, y]);
        p
    }

    /// The first coordinate.
    pub fn x(&self) -> (x: T)
        ensures
            x == self.0@[0],
    {
        self.0[0]
    }

    /// The second coordinate.
    pub fn y(&self) -> (y: T)
        ensures
            y == self.0@[1],
    {
        self.0[1]
    }
}

impl<T: Copy> Point<T, 3> {
    /// The point `(x, y, z)`.
    pub fn from_xyz(x: T, y: T, z: T) -> (p: Self)
        ensures
            p.0@ == seq![x, y, z],
    {
        let p = Point([x, y, z]);
        assert(p.0@ =~= seq![x, y, z]);
        p
    }
}

impl Point<i32, 2> {
    /// The canvas position of the point.
    pub fn pos(&self) -> (p: Pos)
        ensures
            p == (Pos { x: self.0@[0], y: self.0@[1] }),
    {
        Pos { x: self.0[0], y: self.0[1] }
    }
}

} // verus!
