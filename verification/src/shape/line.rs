//! Lines.

use vstd::prelude::*;
use crate::draw::Draw;
use crate::error::PixResult;
use crate::shape::point::Point;
use crate::state::PixState;

verus! {

/// A line from one point to another.
#[derive(Clone, Copy, Debug, PartialEq, Eq, Hash)]
#[must_use]
pub struct Line<T, const N: usize>(pub [Point<T, N>; 2]);

/// A line in the plane with whole coordinates.
pub type LineI2 = Line<i32, 2>;

/// A line in space with whole coordinates.
pub type LineI3 = Line<i32, 3>;

impl<T: Copy, const N: usize> Line<T, N> {
    /// The line from `start` to `end`.
    pub fn new(start: Point<T, N>, end: Point<T, N>) -> (line: Self)
        ensures
            line.0@ == seq![start, end],
    {
        let line = Line([start, end]);
        assert(line.0@ =~= seq![start, end]);
        line
    }

    /// Where the line starts.
    pub fn start(&self) -> (p: Point<T, N>)
        ensures
            p == self.0@[0],
    {
        self.0[0]
    }

    /// Lets the line start at `start`.
    pub fn set_start(&mut self, start: Point<T, N>)
        ensures
            final(self).0@ == old(self).0@.update(0, start),
    {
        self.0[0] = start;
    }

    /// Where the line ends.
    pub fn end(&self) -> (p: Point<T, N>)
        ensures
            p == self.0@[1],
    {
        self.0[1]
    }

    /// Lets the line end at `end`.
    pub fn set_end(&mut self, end: Point<T, N>)
        ensures
            final(self).0@ == old(self).0@.update(1, end),
    {
        self.0[1] = end;
    }

    /// Start and end.
    pub fn as_array(&self) -> (points: [Point<T, N>; 2])
        ensures
            points == self.0,
    {
        self.0
    }

    /// Start and end, borrowed.
    pub fn as_bytes(&self) -> (points: &[Point<T, N>; 2])
        ensures
            *points == self.0,
    {
        &self.0
    }

    /// Start and end, for writing.
    pub fn as_bytes_mut(&mut self) -> (points: &mut [Point<T, N>; 2])
        ensures
            *points == old(self).0,
            final(self).0 == *final(points),
    {
        &mut self.0
    }

    /// The coordinates of the start, then those of the end.
    pub fn to_vec(self) -> (v: Vec<Vec<T>>)
        ensures
            v@.len() == 2,
            v@[0]@ == self.0@[0].0@,
            v@[1]@ == self.0@[1].0@,
    {
        let start = self.start().to_vec();
        let end = self.end().to_vec();
        let mut v: Vec<Vec<T>> = Vec::new();
        v.push(start);
        v.push(end);
        v
    }
}

impl<T: Copy> Line<T, 2> {
    /// The line from `(x1, y1)` to `(x2, y2)`.
    pub fn from_xy(x1: T, y1: T, x2: T, y2: T) -> (line: Self)
        ensures
            line.0@.len() == 2,
            line.0@[0].0@ == seq![x1, y1],
            line.0@[1].0@ == seq![x2, y2],
    {
        Line::new(Point::from_xy(x1, y1), Point::from_xy(x2, y2))
    }
}

impl<T: Copy> Line<T, 3> {
    /// The line from `(x1, y1, z1)` to `(x2, y2, z2)`.
    pub fn from_xyz(x1: T, y1: T, z1: T, x2: T, y2: T, z2: T) -> (line: Self)
        ensures
            line.0@.len() == 2,
            line.0@[0].0@ == seq![x1, y1, z1],
            line.0@[1].0@ == seq![x2, y2, z2],
    {
        Line::new(Point::from_xyz(x1, y1, z1), Point::from_xyz(x2, y2, z2))
    }
}

impl Draw for Line<i32, 2> {
    /// The line is appended to the commands, with the stroke of the settings,
    /// and nothing else changes.
    open spec fn drawn(&self, before: &PixState, after: &PixState, r: PixResult<()>) -> bool {
        &&& r is Ok
        &&& after.ops() == before.line_drawn(*self)
        &&& after.ui == before.ui
        &&& after.same_setup(before)
    }

    /// Draws the line with the stroke of the settings.
    fn draw(&self, s: &mut PixState) -> (r: PixResult<()>) {
        s.line(*self);
        Ok(())
    }
}

} // verus!
