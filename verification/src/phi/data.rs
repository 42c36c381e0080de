//! Axis-aligned rectangles on the integer grid.

use vstd::prelude::*;

verus! {

/// An axis-aligned rectangle. The corner `(x, y)` is the one nearest the
/// origin; `w` and `h` are unsigned, so a rectangle never has a negative
/// extent. Edges are inclusive: two rectangles that touch overlap.
#[derive(Clone, Copy, Debug, PartialEq, Eq, Structural)]
pub struct Rectangle {
    pub x: i64,
    pub y: i64,
    pub w: u64,
    pub h: u64,
}

/// Where a span of length `len` starting at `pos` ends up when it is pushed,
/// by the least amount, into the span of length `plen` starting at `ppos`.
/// Meant for `len <= plen`.
pub open spec fn clamp_axis(pos: int, len: int, ppos: int, plen: int) -> int {
    if pos < ppos {
        ppos
    } else if pos + len >= ppos + plen {
        ppos + plen - len
    } else {
        pos
    }
}

impl Rectangle {
    /// The coordinate of the far vertical edge.
    pub open spec fn right(self) -> int {
        self.x + self.w
    }

    /// The coordinate of the far horizontal edge.
    pub open spec fn bottom(self) -> int {
        self.y + self.h
    }

    /// All four corners of `rect` lie within `self`, edges included.
    pub open spec fn spec_contains(self, rect: Rectangle) -> bool {
        &&& self.x <= rect.x
        &&& rect.right() <= self.right()
        &&& self.y <= rect.y
        &&& rect.bottom() <= self.bottom()
    }

    /// The projections of the two rectangles intersect on both axes, edges
    /// included.
    pub open spec fn spec_overlaps(self, other: Rectangle) -> bool {
        &&& self.x <= other.right()
        &&& self.right() >= other.x
        &&& self.y <= other.bottom()
        &&& self.bottom() >= other.y
    }

    /// `self` is no wider and no taller than `parent`.
    pub open spec fn fits_in(self, parent: Rectangle) -> bool {
        self.w <= parent.w && self.h <= parent.h
    }

    /// `self` moved by the least amount that puts it inside `parent`, each
    /// axis on its own; `None` where it is wider or taller than `parent`.
    pub open spec fn spec_move_inside(self, parent: Rectangle) -> Option<Rectangle> {
        if self.fits_in(parent) {
            Some(
                Rectangle {
                    x: clamp_axis(self.x as int, self.w as int, parent.x as int, parent.w as int) as i64,
                    y: clamp_axis(self.y as int, self.h as int, parent.y as int, parent.h as int) as i64,
                    w: self.w,
                    h: self.h,
                },
            )
        } else {
            None
        }
    }

    /// The rectangle as the renderer takes it: signed 32-bit corner, unsigned
    /// 32-bit extent. `None` exactly when a field does not fit.
    pub fn to_sdl(self) -> (r: Option<(i32, i32, u32, u32)>)
        ensures
            r.is_some() <==> (i32::MIN <= self.x <= i32::MAX && i32::MIN <= self.y <= i32::MAX
                && self.w <= u32::MAX && self.h <= u32::MAX),
            r.is_some() ==> r.unwrap().0 == self.x && r.unwrap().1 == self.y && r.unwrap().2
                == self.w && r.unwrap().3 == self.h,
    {
        if self.x < -0x8000_0000 || self.x > 0x7fff_ffff || self.y < -0x8000_0000 || self.y
            > 0x7fff_ffff || self.w > 0xffff_ffff || self.h > 0xffff_ffff {
            None
        } else {
            Some((self.x as i32, self.y as i32, self.w as u32, self.h as u32))
        }
    }

    /// Moves the rectangle into `parent` if it can fit there.
    pub fn move_inside(self, parent: Rectangle) -> (r: Option<Rectangle>)
        ensures
            r == self.spec_move_inside(parent),
            r.is_none() <==> (self.w > parent.w || self.h > parent.h),
            r.is_some() ==> parent.spec_contains(r.unwrap()),
    {
        if self.w > parent.w || self.h > parent.h {
            return None;
        }
        let x: i64 = clamp_exec(self.x, self.w, parent.x, parent.w);
        let y: i64 = clamp_exec(self.y, self.h, parent.y, parent.h);
        Some(Rectangle { x, y, w: self.w, h: self.h })
    }

    /// Whether `rect` lies within `self`, edges included.
    pub fn contains(&self, rect: Rectangle) -> (r: bool)
        ensures
            r == self.spec_contains(rect),
    {
        let xmin: i128 = rect.x as i128;
        let xmax: i128 = xmin + rect.w as i128;
        let ymin: i128 = rect.y as i128;
        let ymax: i128 = ymin + rect.h as i128;
        let right: i128 = self.x as i128 + self.w as i128;
        let bottom: i128 = self.y as i128 + self.h as i128;
        let xmin_contained = xmin >= self.x as i128 && xmin <= right;
        let xmax_contained = xmax >= self.x as i128 && xmax <= right;
        let ymin_contained = ymin >= self.y as i128 && ymin <= bottom;
        let ymax_contained = ymax >= self.y as i128 && ymax <= bottom;
        xmin_contained && xmax_contained && ymin_contained && ymax_contained
    }

    /// Whether the two rectangles share at least a point, edges included.
    pub fn overlaps(&self, other: Rectangle) -> (r: bool)
        ensures
            r == self.spec_overlaps(other),
    {
        let left_edge_left_of_right = self.x as i128 <= other.x as i128 + other.w as i128;
        let right_edge_right_of_left = self.x as i128 + self.w as i128 >= other.x as i128;
        let top_edge_above_bottom = self.y as i128 <= other.y as i128 + other.h as i128;
        let bottom_edge_below_top = self.y as i128 + self.h as i128 >= other.y as i128;
        left_edge_left_of_right && right_edge_right_of_left && top_edge_above_bottom
            && bottom_edge_below_top
    }
}

/// One axis of `move_inside`.
fn clamp_exec(pos: i64, len: u64, ppos: i64, plen: u64) -> (r: i64)
    requires
        len <= plen,
    ensures
        r == clamp_axis(pos as int, len as int, ppos as int, plen as int),
        ppos <= r,
        r + len <= ppos + plen,
{
    if pos < ppos {
        ppos
    } else if pos as i128 + len as i128 >= ppos as i128 + plen as i128 {
        (ppos as i128 + plen as i128 - len as i128) as i64
    } else {
        pos
    }
}

/// A rectangle that contains another also overlaps it.
pub proof fn lemma_contains_implies_overlaps(a: Rectangle, b: Rectangle)
    requires
        a.spec_contains(b),
    ensures
        a.spec_overlaps(b),
{
}

/// Overlap does not depend on which of the two rectangles is asked.
pub proof fn lemma_overlaps_symmetric(a: Rectangle, b: Rectangle)
    ensures
        a.spec_overlaps(b) == b.spec_overlaps(a),
{
}

/// A rectangle without extent is a point: it overlaps a rectangle exactly
/// when it lies within it, edges included, and it always lies within
/// itself.
pub proof fn lemma_point_overlaps_where_contained(a: Rectangle, point: Rectangle)
    requires
        point.w == 0,
        point.h == 0,
    ensures
        a.spec_overlaps(point) == a.spec_contains(point),
        point.spec_contains(point),
{
}

/// Moving a rectangle into a parent a second time changes nothing: the
/// result of the first move is already where the second would put it, and a
/// rectangle that cannot be moved in once cannot be moved in at all.
pub proof fn lemma_move_inside_idempotent(r: Rectangle, parent: Rectangle)
    ensures
        r.spec_move_inside(parent).is_some() ==> r.spec_move_inside(parent).unwrap().spec_move_inside(
            parent,
        ) == r.spec_move_inside(parent),
        r.spec_move_inside(parent).is_none() <==> !r.fits_in(parent),
{
}

/// A rectangle fits exactly when the move succeeds, and the moved rectangle,
/// of the same size, lies inside the parent.
pub proof fn lemma_move_inside_contained(r: Rectangle, parent: Rectangle)
    ensures
        r.spec_move_inside(parent).is_none() <==> (r.w > parent.w || r.h > parent.h),
        r.spec_move_inside(parent).is_some() ==> {
            let m = r.spec_move_inside(parent).unwrap();
            &&& parent.spec_contains(m)
            &&& m.w == r.w
            &&& m.h == r.h
        },
{
}

/// A rectangle that lies inside its parent is left where it is.
pub proof fn lemma_move_inside_fixes_contained(r: Rectangle, parent: Rectangle)
    requires
        parent.spec_contains(r),
    ensures
        r.spec_move_inside(parent) == Some(r),
{
}

} // verus!
