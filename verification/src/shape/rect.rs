//! Canvas positions and axis-aligned rectangles in whole pixels.

use vstd::prelude::*;

verus! {

/// The value of `v` limited to what an `i32` can hold.
pub open spec fn sat(v: int) -> int {
    if v < i32::MIN {
        i32::MIN as int
    } else if v > i32::MAX {
        i32::MAX as int
    } else {
        v
    }
}

/// The value of `v` limited to `lo..=hi`. With `hi < lo` the result is `lo`.
pub open spec fn clamp(v: int, lo: int, hi: int) -> int {
    if v < lo || hi < lo {
        lo
    } else if v > hi {
        hi
    } else {
        v
    }
}

/// Half of `v`, rounded towards zero.
pub open spec fn half(v: int) -> int {
    if v >= 0 {
        v / 2
    } else {
        -((-v) / 2)
    }
}

/// Narrows a 64-bit value to 32 bits, stopping at the ends of the range.
pub fn saturate(v: i64) -> (r: i32)
    ensures
        r == sat(v as int),
{
    if v < i32::MIN as i64 {
        i32::MIN
    } else if v > i32::MAX as i64 {
        i32::MAX
    } else {
        v as i32
    }
}

/// Limits `v` to `lo..=hi`. With `hi < lo` the result is `lo`.
pub fn clamp_to(v: i64, lo: i64, hi: i64) -> (r: i64)
    ensures
        r == clamp(v as int, lo as int, hi as int),
{
    if v < lo || hi < lo {
        lo
    } else if v > hi {
        hi
    } else {
        v
    }
}

/// A position on the canvas.
#[derive(Clone, Copy, Debug, PartialEq, Eq, Structural, Hash, Default)]
pub struct Pos {
    /// Distance from the left edge.
    pub x: i32,
    /// Distance from the top edge.
    pub y: i32,
}

impl Pos {
    /// The position `(x, y)`.
    pub fn new(x: i32, y: i32) -> (p: Self)
        ensures
            p == (Pos { x, y }),
    {
        Pos { x, y }
    }

    /// This position moved by `(dx, dy)`, each coordinate stopping at the ends of
    /// the `i32` range.
    pub open spec fn moved(self, dx: int, dy: int) -> Pos {
        Pos { x: sat(self.x + dx) as i32, y: sat(self.y + dy) as i32 }
    }

    /// Moves the position by `(dx, dy)`, each coordinate stopping at the ends of
    /// the `i32` range.
    pub fn offset(self, dx: i32, dy: i32) -> (p: Self)
        ensures
            p == self.moved(dx as int, dy as int),
    {
        Pos { x: saturate(self.x as i64 + dx as i64), y: saturate(self.y as i64 + dy as i64) }
    }
}

/// An axis-aligned rectangle: its top-left corner, width and height.
///
/// A rectangle covers the positions from its left and top edge up to, but not
/// including, its right and bottom edge. One with a width or height of zero or
/// less covers nothing.
#[derive(Clone, Copy, Debug, PartialEq, Eq, Structural, Hash, Default)]
pub struct Rect {
    /// Left edge.
    pub x: i32,
    /// Top edge.
    pub y: i32,
    /// Width.
    pub w: i32,
    /// Height.
    pub h: i32,
}

impl Rect {
    /// The rectangle with top-left corner `(x, y)`, width `w` and height `h`.
    pub fn new(x: i32, y: i32, w: i32, h: i32) -> (r: Self)
        ensures
            r == (Rect { x, y, w, h }),
    {
        Rect { x, y, w, h }
    }

    /// Whether the rectangle covers `p`.
    pub open spec fn covers(self, p: Pos) -> bool {
        &&& self.x <= p.x < self.x + self.w
        &&& self.y <= p.y < self.y + self.h
    }

    /// The first column right of the rectangle.
    pub open spec fn spec_right(self) -> int {
        sat(self.x + self.w)
    }

    /// The first row below the rectangle.
    pub open spec fn spec_bottom(self) -> int {
        sat(self.y + self.h)
    }

    /// The position in the middle of the rectangle.
    pub open spec fn spec_center(self) -> Pos {
        Pos { x: sat(self.x + half(self.w as int)) as i32, y: sat(self.y + half(self.h as int)) as i32 }
    }

    /// This rectangle moved by `(dx, dy)`.
    pub open spec fn shifted(self, dx: int, dy: int) -> Rect {
        Rect { x: sat(self.x + dx) as i32, y: sat(self.y + dy) as i32, w: self.w, h: self.h }
    }

    /// This rectangle with `(dw, dh)` added to its size.
    pub open spec fn grown(self, dw: int, dh: int) -> Rect {
        Rect { x: self.x, y: self.y, w: sat(self.w + dw) as i32, h: sat(self.h + dh) as i32 }
    }

    /// Whether the rectangle covers `p`.
    pub fn contains_point(&self, p: Pos) -> (inside: bool)
        ensures
            inside == self.covers(p),
    {
        let px = p.x as i64;
        let py = p.y as i64;
        self.x as i64 <= px && px < self.x as i64 + self.w as i64 && self.y as i64 <= py && py
            < self.y as i64 + self.h as i64
    }

    /// Left edge.
    pub fn left(&self) -> (v: i32)
        ensures
            v == self.x,
    {
        self.x
    }

    /// Top edge.
    pub fn top(&self) -> (v: i32)
        ensures
            v == self.y,
    {
        self.y
    }

    /// The first column right of the rectangle, stopping at the end of the `i32`
    /// range.
    pub fn right(&self) -> (v: i32)
        ensures
            v == self.spec_right(),
    {
        saturate(self.x as i64 + self.w as i64)
    }

    /// The first row below the rectangle, stopping at the end of the `i32` range.
    pub fn bottom(&self) -> (v: i32)
        ensures
            v == self.spec_bottom(),
    {
        saturate(self.y as i64 + self.h as i64)
    }

    /// Top-left corner.
    pub fn top_left(&self) -> (p: Pos)
        ensures
            p == (Pos { x: self.x, y: self.y }),
    {
        Pos { x: self.x, y: self.y }
    }

    /// The position in the middle of the rectangle.
    pub fn center(&self) -> (p: Pos)
        ensures
            p == self.spec_center(),
    {
        Pos {
            x: saturate(self.x as i64 + (self.w / 2) as i64),
            y: saturate(self.y as i64 + (self.h / 2) as i64),
        }
    }

    /// The rectangle moved by `(dx, dy)`, each coordinate stopping at the ends of
    /// the `i32` range.
    pub fn offset(self, dx: i32, dy: i32) -> (r: Self)
        ensures
            r == self.shifted(dx as int, dy as int),
    {
        Rect {
            x: saturate(self.x as i64 + dx as i64),
            y: saturate(self.y as i64 + dy as i64),
            w: self.w,
            h: self.h,
        }
    }

    /// The rectangle with `(dw, dh)` added to its size, each stopping at the ends
    /// of the `i32` range.
    pub fn resized(self, dw: i32, dh: i32) -> (r: Self)
        ensures
            r == self.grown(dw as int, dh as int),
    {
        Rect {
            x: self.x,
            y: self.y,
            w: saturate(self.w as i64 + dw as i64),
            h: saturate(self.h as i64 + dh as i64),
        }
    }
}

} // verus!
