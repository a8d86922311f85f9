use vstd::prelude::*;

use crate::point::Point;
use crate::size::Size;
use crate::text::{int_text, push_int};
use vstd::string::StringExecFns;

verus! {

/// Whether `v` is representable as an `i32`.
pub open spec fn fits_i32(v: int) -> bool {
    i32::MIN <= v <= i32::MAX
}

/// The smaller of two integers.
pub open spec fn min_int(a: int, b: int) -> int {
    if a <= b { a } else { b }
}

/// The larger of two integers.
pub open spec fn max_int(a: int, b: int) -> int {
    if a >= b { a } else { b }
}

/// An axis-aligned rectangle: origin `(x, y)` at the top-left, extent
/// `(width, height)`. Nothing forces the extent to be non-negative.
#[derive(Clone, Copy, Debug, PartialEq, Eq, Structural)]
pub struct Rectangle {
    pub x: i32,
    pub y: i32,
    pub width: i32,
    pub height: i32,
}

impl Rectangle {
    /// The right edge, `x + width`, as an unbounded integer.
    pub open spec fn right(self) -> int {
        self.x + self.width
    }

    /// The bottom edge, `y + height`, as an unbounded integer.
    pub open spec fn bottom(self) -> int {
        self.y + self.height
    }

    /// Both far edges are representable as `i32`.
    pub open spec fn edges_fit(self) -> bool {
        fits_i32(self.right()) && fits_i32(self.bottom())
    }

    /// Half-open containment: `px` in `[left, right)` and `py` in `[top, bottom)`.
    pub open spec fn contains_point(self, px: int, py: int) -> bool {
        self.x <= px < self.right() && self.y <= py < self.bottom()
    }

    /// Strict overlap of the open ranges on both axes.
    pub open spec fn overlaps(self, other: Rectangle) -> bool {
        other.x < self.right() && self.x < other.right() && other.y < self.bottom() && self.y
            < other.bottom()
    }

    /// `v / 2` rounded toward zero, as integer division on `i32` does.
    pub open spec fn half(v: int) -> int {
        if v >= 0 {
            v / 2
        } else {
            -((-v) / 2)
        }
    }

    /// The midpoint, each coordinate being the origin plus half the extent
    /// rounded toward zero.
    pub open spec fn center_x(self) -> int {
        self.x + Self::half(self.width as int)
    }

    pub open spec fn center_y(self) -> int {
        self.y + Self::half(self.height as int)
    }

    /// All four fields are zero.
    pub open spec fn all_zero(self) -> bool {
        self.x == 0 && self.y == 0 && self.width == 0 && self.height == 0
    }

    /// The union's origin, in unbounded integers.
    pub open spec fn union_x(a: Rectangle, b: Rectangle) -> int {
        min_int(a.x as int, b.x as int)
    }

    pub open spec fn union_y(a: Rectangle, b: Rectangle) -> int {
        min_int(a.y as int, b.y as int)
    }

    /// The union's extent, in unbounded integers.
    pub open spec fn union_width(a: Rectangle, b: Rectangle) -> int {
        max_int(a.right(), b.right()) - Self::union_x(a, b)
    }

    pub open spec fn union_height(a: Rectangle, b: Rectangle) -> int {
        max_int(a.bottom(), b.bottom()) - Self::union_y(a, b)
    }

    /// The union of `a` and `b` is representable: both inputs' far edges fit,
    /// and so does the union's extent.
    pub open spec fn union_fits(a: Rectangle, b: Rectangle) -> bool {
        a.edges_fit() && b.edges_fit() && fits_i32(Self::union_width(a, b)) && fits_i32(
            Self::union_height(a, b),
        )
    }

    /// The union of `a` and `b`, when representable.
    pub open spec fn union_spec(a: Rectangle, b: Rectangle) -> Rectangle {
        Rectangle {
            x: Self::union_x(a, b) as i32,
            y: Self::union_y(a, b) as i32,
            width: Self::union_width(a, b) as i32,
            height: Self::union_height(a, b) as i32,
        }
    }

    pub fn new(x: i32, y: i32, width: i32, height: i32) -> (r: Rectangle)
        ensures
            r.x == x,
            r.y == y,
            r.width == width,
            r.height == height,
    {
        Rectangle { x, y, width, height }
    }

    /// The all-zero rectangle.
    pub fn empty() -> (r: Rectangle)
        ensures
            r.all_zero(),
    {
        Rectangle { x: 0, y: 0, width: 0, height: 0 }
    }

    /// The smallest rectangle that bounds both `left` and `right`: origin at the
    /// component-wise minimum of the origins, far edges at the component-wise
    /// maximum of the far edges. Negative extents are bounded as stored.
    pub fn union(left: &Rectangle, right: &Rectangle) -> (r: Rectangle)
        requires
            Self::union_fits(*left, *right),
        ensures
            r == Self::union_spec(*left, *right),
            r.x == Self::union_x(*left, *right),
            r.y == Self::union_y(*left, *right),
            r.width == Self::union_width(*left, *right),
            r.height == Self::union_height(*left, *right),
    {
        let x: i32 = if left.x <= right.x { left.x } else { right.x };
        let y: i32 = if left.y <= right.y { left.y } else { right.y };
        let lr: i32 = left.get_right();
        let rr: i32 = right.get_right();
        let lb: i32 = left.get_bottom();
        let rb: i32 = right.get_bottom();
        let far_x: i32 = if lr >= rr { lr } else { rr };
        let far_y: i32 = if lb >= rb { lb } else { rb };
        Rectangle { x, y, width: far_x - x, height: far_y - y }
    }

    pub fn get_top(&self) -> (r: i32)
        ensures
            r == self.y,
    {
        self.y
    }

    pub fn get_right(&self) -> (r: i32)
        requires
            fits_i32(self.right()),
        ensures
            r == self.right(),
    {
        self.x + self.width
    }

    pub fn get_bottom(&self) -> (r: i32)
        requires
            fits_i32(self.bottom()),
        ensures
            r == self.bottom(),
    {
        self.y + self.height
    }

    pub fn get_left(&self) -> (r: i32)
        ensures
            r == self.x,
    {
        self.x
    }

    /// The origin.
    pub fn get_location(&self) -> (r: Point)
        ensures
            r.x == self.x,
            r.y == self.y,
    {
        Point { x: self.x, y: self.y }
    }

    /// The midpoint, with half of each extent truncated toward zero.
    pub fn get_center(&self) -> (r: Point)
        requires
            fits_i32(self.center_x()),
            fits_i32(self.center_y()),
        ensures
            r.x == self.center_x(),
            r.y == self.center_y(),
    {
        Point { x: self.x + self.width / 2, y: self.y + self.height / 2 }
    }

    /// The extent.
    pub fn size(&self) -> (r: Size)
        ensures
            r.width == self.width,
            r.height == self.height,
    {
        Size { width: self.width, height: self.height }
    }

    /// True exactly when all four fields are zero; a zero-area rectangle away
    /// from the origin is not empty.
    pub fn is_empth(&self) -> (r: bool)
        ensures
            r == self.all_zero(),
    {
        self.width == 0 && self.height == 0 && self.x == 0 && self.y == 0
    }

    /// The fields as text for diagnostics: `"x y width height"`, each in decimal.
    pub open spec fn display_text(self) -> Seq<char> {
        int_text(self.x as int) + seq![' '] + int_text(self.y as int) + seq![' '] + int_text(
            self.width as int,
        ) + seq![' '] + int_text(self.height as int)
    }

    /// The fields as text for diagnostics, separated by single spaces.
    pub fn debug_display_string(&self) -> (r: String)
        ensures
            r@ == self.display_text(),
    {
        let mut out = String::new();
        proof { reveal_strlit(" "); }
        push_int(&mut out, self.x);
        out.append(" ");
        push_int(&mut out, self.y);
        out.append(" ");
        push_int(&mut out, self.width);
        out.append(" ");
        push_int(&mut out, self.height);
        out
    }

    /// The same predicate as `is_empth`: true exactly when all four fields are zero.
    pub fn is_empty(&self) -> (r: bool)
        ensures
            r == self.all_zero(),
    {
        self.is_empth()
    }

    /// Half-open containment of the point `(x, y)`.
    pub fn contains(&self, x: i32, y: i32) -> (r: bool)
        ensures
            r == self.contains_point(x as int, y as int),
    {
        let right: i64 = self.x as i64 + self.width as i64;
        let bottom: i64 = self.y as i64 + self.height as i64;
        self.x <= x && (x as i64) < right && self.y <= y && (y as i64) < bottom
    }

    /// Strict overlap: rectangles that only touch along an edge do not intersect.
    pub fn intersects(&self, other: &Rectangle) -> (r: bool)
        ensures
            r == self.overlaps(*other),
    {
        let self_right: i64 = self.x as i64 + self.width as i64;
        let self_bottom: i64 = self.y as i64 + self.height as i64;
        let other_right: i64 = other.x as i64 + other.width as i64;
        let other_bottom: i64 = other.y as i64 + other.height as i64;
        (other.x as i64) < self_right && (self.x as i64) < other_right && (other.y as i64)
            < self_bottom && (self.y as i64) < other_bottom
    }

    /// Moves the origin by `(-horizontal_amount, -vertical_amount)` and grows the
    /// extent by `(horizontal_amount, vertical_amount)`.
    pub fn inflate(&mut self, horizontal_amount: i32, vertical_amount: i32)
        requires
            fits_i32(old(self).x - horizontal_amount),
            fits_i32(old(self).y - vertical_amount),
            fits_i32(old(self).width + horizontal_amount),
            fits_i32(old(self).height + vertical_amount),
        ensures
            final(self).x == old(self).x - horizontal_amount,
            final(self).y == old(self).y - vertical_amount,
            final(self).width == old(self).width + horizontal_amount,
            final(self).height == old(self).height + vertical_amount,
    {
        self.x = self.x - horizontal_amount;
        self.y = self.y - vertical_amount;
        self.width = self.width + horizontal_amount;
        self.height = self.height + vertical_amount;
    }
}

/// A rectangle with positive width and height contains its own origin.
pub proof fn lemma_contains_origin(r: Rectangle)
    requires
        r.width > 0,
        r.height > 0,
    ensures
        r.contains_point(r.x as int, r.y as int),
{
}

/// No rectangle contains its far corner `(right, bottom)`: the test is half-open.
pub proof fn lemma_excludes_far_corner(r: Rectangle)
    ensures
        !r.contains_point(r.right(), r.bottom()),
{
}

/// The union reaches at least as far as each input on every side: its origin is
/// at or before both origins and its far edges at or past both far edges. Each
/// input with positive extent has all four corner cells inside the union.
pub proof fn lemma_union_bounds(r1: Rectangle, r2: Rectangle)
    requires
        Rectangle::union_fits(r1, r2),
    ensures
        ({
            let u = Rectangle::union_spec(r1, r2);
            &&& u.x <= r1.x && u.y <= r1.y && r1.right() <= u.right() && r1.bottom() <= u.bottom()
            &&& u.x <= r2.x && u.y <= r2.y && r2.right() <= u.right() && r2.bottom() <= u.bottom()
        }),
        r1.width > 0 && r1.height > 0 ==> corners_inside(r1, Rectangle::union_spec(r1, r2)),
        r2.width > 0 && r2.height > 0 ==> corners_inside(r2, Rectangle::union_spec(r1, r2)),
{
}

/// `outer` contains the four corner cells of `inner`: the origin, the cells just
/// before the far edges, and the last cell before the far corner.
pub open spec fn corners_inside(inner: Rectangle, outer: Rectangle) -> bool {
    &&& outer.contains_point(inner.x as int, inner.y as int)
    &&& outer.contains_point(inner.right() - 1, inner.y as int)
    &&& outer.contains_point(inner.x as int, inner.bottom() - 1)
    &&& outer.contains_point(inner.right() - 1, inner.bottom() - 1)
}

/// The union does not depend on the order of its arguments.
pub proof fn lemma_union_commutes(r1: Rectangle, r2: Rectangle)
    ensures
        Rectangle::union_spec(r1, r2) == Rectangle::union_spec(r2, r1),
        Rectangle::union_fits(r1, r2) == Rectangle::union_fits(r2, r1),
{
}

} // verus!
