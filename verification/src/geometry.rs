//! Points, sizes and affine maps of the page model.

use vstd::prelude::*;
use crate::fixed::{affine, affine_of, lemma_scaled_unit, ONE};

verus! {

/// A position in a frame, in layout units.
#[derive(Clone, Copy, PartialEq, Eq, Structural, Debug)]
pub struct Point {
    pub x: i64,
    pub y: i64,
}

/// The extent of a frame or an item, in layout units. Either side may be
/// negative.
#[derive(Clone, Copy, PartialEq, Eq, Structural, Debug)]
pub struct Size {
    pub x: i64,
    pub y: i64,
}

/// An affine map. The point `(x, y)` goes to
/// `(sx * x + kx * y + tx, ky * x + sy * y + ty)`; the four ratios are
/// fixed-point numbers and the two offsets are lengths.
#[derive(Clone, Copy, PartialEq, Eq, Structural, Debug)]
pub struct Transform {
    pub sx: i64,
    pub ky: i64,
    pub kx: i64,
    pub sy: i64,
    pub tx: i64,
    pub ty: i64,
}

impl Point {
    /// The origin.
    pub open spec fn spec_zero() -> Point {
        Point { x: 0, y: 0 }
    }

    /// The image of the point under `ts`.
    pub open spec fn spec_transform(self, ts: Transform) -> Point {
        let x = self.x as int;
        let y = self.y as int;
        Point {
            x: affine(ts.sx as int, ts.kx as int, ts.tx as int, x, y) as i64,
            y: affine(ts.ky as int, ts.sy as int, ts.ty as int, x, y) as i64,
        }
    }

    /// The origin.
    pub fn zero() -> (p: Point)
        ensures
            p == Point::spec_zero(),
    {
        Point { x: 0, y: 0 }
    }

    /// The point with the given coordinates.
    pub fn new(x: i64, y: i64) -> (p: Point)
        ensures
            p == (Point { x, y }),
    {
        Point { x, y }
    }

    /// The point on the horizontal axis at `x`.
    pub fn with_x(x: i64) -> (p: Point)
        ensures
            p == (Point { x, y: 0 }),
    {
        Point { x, y: 0 }
    }

    /// The point on the vertical axis at `y`.
    pub fn with_y(y: i64) -> (p: Point)
        ensures
            p == (Point { x: 0, y }),
    {
        Point { x: 0, y }
    }

    /// Maps the point through `ts`.
    pub fn transform(self, ts: Transform) -> (p: Point)
        ensures
            p == self.spec_transform(ts),
    {
        Point {
            x: affine_of(ts.sx, ts.kx, ts.tx, self.x, self.y),
            y: affine_of(ts.ky, ts.sy, ts.ty, self.x, self.y),
        }
    }
}

impl Size {
    /// The size without extent.
    pub open spec fn spec_zero() -> Size {
        Size { x: 0, y: 0 }
    }

    /// The corner opposite to the origin.
    pub open spec fn spec_to_point(self) -> Point {
        Point { x: self.x, y: self.y }
    }

    /// The size without extent.
    pub fn zero() -> (s: Size)
        ensures
            s == Size::spec_zero(),
    {
        Size { x: 0, y: 0 }
    }

    /// The size with the given width and height.
    pub fn new(x: i64, y: i64) -> (s: Size)
        ensures
            s == (Size { x, y }),
    {
        Size { x, y }
    }

    /// The corner opposite to the origin.
    pub fn to_point(self) -> (p: Point)
        ensures
            p == self.spec_to_point(),
    {
        Point { x: self.x, y: self.y }
    }
}

impl Transform {
    /// The map that moves nothing.
    pub open spec fn spec_identity() -> Transform {
        Transform { sx: ONE, ky: 0, kx: 0, sy: ONE, tx: 0, ty: 0 }
    }

    /// The shift by `(tx, ty)`.
    pub open spec fn spec_translate(tx: i64, ty: i64) -> Transform {
        Transform { sx: ONE, ky: 0, kx: 0, sy: ONE, tx, ty }
    }

    /// The scaling by the ratios `sx` and `sy` about the origin.
    pub open spec fn spec_scale(sx: i64, sy: i64) -> Transform {
        Transform { sx, ky: 0, kx: 0, sy, tx: 0, ty: 0 }
    }

    /// The map that applies `prev` first and `self` after it.
    pub open spec fn spec_pre_concat(self, prev: Transform) -> Transform {
        let (sx, kx, tx) = (self.sx as int, self.kx as int, self.tx as int);
        let (ky, sy, ty) = (self.ky as int, self.sy as int, self.ty as int);
        Transform {
            sx: affine(sx, kx, 0, prev.sx as int, prev.ky as int) as i64,
            ky: affine(ky, sy, 0, prev.sx as int, prev.ky as int) as i64,
            kx: affine(sx, kx, 0, prev.kx as int, prev.sy as int) as i64,
            sy: affine(ky, sy, 0, prev.kx as int, prev.sy as int) as i64,
            tx: affine(sx, kx, tx, prev.tx as int, prev.ty as int) as i64,
            ty: affine(ky, sy, ty, prev.tx as int, prev.ty as int) as i64,
        }
    }

    /// The map that moves nothing.
    pub fn identity() -> (t: Transform)
        ensures
            t == Transform::spec_identity(),
    {
        Transform { sx: ONE, ky: 0, kx: 0, sy: ONE, tx: 0, ty: 0 }
    }

    /// The shift by `(tx, ty)`.
    pub fn translate(tx: i64, ty: i64) -> (t: Transform)
        ensures
            t == Transform::spec_translate(tx, ty),
    {
        Transform { sx: ONE, ky: 0, kx: 0, sy: ONE, tx, ty }
    }

    /// The scaling by the ratios `sx` and `sy` about the origin.
    pub fn scale(sx: i64, sy: i64) -> (t: Transform)
        ensures
            t == Transform::spec_scale(sx, sy),
    {
        Transform { sx, ky: 0, kx: 0, sy, tx: 0, ty: 0 }
    }

    /// Whether the map moves nothing.
    pub fn is_identity(&self) -> (b: bool)
        ensures
            b == (*self == Transform::spec_identity()),
    {
        self.sx == ONE && self.ky == 0 && self.kx == 0 && self.sy == ONE && self.tx == 0
            && self.ty == 0
    }

    /// Composes the map with one that is applied before it.
    pub fn pre_concat(self, prev: Transform) -> (t: Transform)
        ensures
            t == self.spec_pre_concat(prev),
    {
        Transform {
            sx: affine_of(self.sx, self.kx, 0, prev.sx, prev.ky),
            ky: affine_of(self.ky, self.sy, 0, prev.sx, prev.ky),
            kx: affine_of(self.sx, self.kx, 0, prev.kx, prev.sy),
            sy: affine_of(self.ky, self.sy, 0, prev.kx, prev.sy),
            tx: affine_of(self.sx, self.kx, self.tx, prev.tx, prev.ty),
            ty: affine_of(self.ky, self.sy, self.ty, prev.tx, prev.ty),
        }
    }
}

/// The map that moves nothing is neutral: composed with it, before or after,
/// a map stays what it is, and a point stays where it is under it.
pub proof fn law_identity_is_neutral(t: Transform, p: Point)
    ensures
        t.spec_pre_concat(Transform::spec_identity()) == t,
        Transform::spec_identity().spec_pre_concat(t) == t,
        p.spec_transform(Transform::spec_identity()) == p,
{
    lemma_scaled_unit(0);
    lemma_scaled_unit(t.sx as int);
    lemma_scaled_unit(t.ky as int);
    lemma_scaled_unit(t.kx as int);
    lemma_scaled_unit(t.sy as int);
    lemma_scaled_unit(t.tx as int);
    lemma_scaled_unit(t.ty as int);
    lemma_scaled_unit(p.x as int);
    lemma_scaled_unit(p.y as int);
}

/// A shift after a shift is the shift by the sums, as far as the sums are
/// lengths; a shift moves a point by its offsets, as far as the point stays
/// among the points.
pub proof fn law_shifts_add(a: Point, b: Point, p: Point)
    ensures
        i64::MIN <= a.x + b.x <= i64::MAX && i64::MIN <= a.y + b.y <= i64::MAX
            ==> Transform::spec_translate(a.x, a.y).spec_pre_concat(
            Transform::spec_translate(b.x, b.y),
        ) == Transform::spec_translate((a.x + b.x) as i64, (a.y + b.y) as i64),
        i64::MIN <= p.x + a.x <= i64::MAX && i64::MIN <= p.y + a.y <= i64::MAX
            ==> p.spec_transform(Transform::spec_translate(a.x, a.y)) == (Point {
            x: (p.x + a.x) as i64,
            y: (p.y + a.y) as i64,
        }),
{
    lemma_scaled_unit(0);
    lemma_scaled_unit(65536);
    lemma_scaled_unit(b.x as int);
    lemma_scaled_unit(b.y as int);
    lemma_scaled_unit(p.x as int);
    lemma_scaled_unit(p.y as int);
}

} // verus!
