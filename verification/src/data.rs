//! Axis-aligned rectangles and the spatial predicates every other part of
//! the engine builds on.

use vstd::prelude::*;

verus! {

/// Why a geometric operation was rejected.
#[derive(Clone, Copy, Debug, PartialEq, Eq, Structural)]
pub enum Error {
    /// The rectangle has a negative width or height, or one of its corners
    /// lies outside the native integer range.
    InvalidExtent,
    /// A requested region is not contained in the image it is cut from.
    OutOfBounds,
}

/// A rectangle as the drawing surface takes it: a 32-bit signed position
/// and an unsigned size.
#[derive(Clone, Copy, Debug, PartialEq, Eq, Structural)]
pub struct NativeRect {
    pub x: i32,
    pub y: i32,
    pub w: u32,
    pub h: u32,
}

/// An axis-aligned rectangle in whole logical units. `(x, y)` is the corner
/// with the smallest coordinates; a well-formed rectangle has a width and a
/// height that are not negative.
#[derive(Clone, Copy, Debug, PartialEq, Eq, Structural)]
pub struct Rectangle {
    pub x: i64,
    pub y: i64,
    pub w: i64,
    pub h: i64,
}

/// Where a segment `[pos, pos + len]` ends up when it is pushed into
/// `[lo, lo + span]` without being resized: it snaps to the near edge it
/// sticks out of, and stays where it is when it already lies inside.
pub open spec fn clamp_axis(pos: int, len: int, lo: int, span: int) -> int {
    if pos < lo {
        lo
    } else if pos + len > lo + span {
        lo + span - len
    } else {
        pos
    }
}

impl Rectangle {
    /// Neither the width nor the height is negative.
    pub open spec fn wf(self) -> bool {
        self.w >= 0 && self.h >= 0
    }

    /// The coordinate of the right side.
    pub open spec fn right(self) -> int {
        self.x + self.w
    }

    /// The coordinate of the bottom side.
    pub open spec fn bottom(self) -> int {
        self.y + self.h
    }

    /// Both corners have coordinates that a 32-bit signed integer holds.
    pub open spec fn fits_native(self) -> bool {
        &&& i32::MIN <= self.x
        &&& i32::MIN <= self.y
        &&& self.right() <= i32::MAX
        &&& self.bottom() <= i32::MAX
    }

    /// All four corners of `rect` lie within the closed bounds of `self`.
    pub open spec fn contains_spec(&self, rect: Rectangle) -> bool {
        &&& self.x <= rect.x <= self.right()
        &&& self.x <= rect.right() <= self.right()
        &&& self.y <= rect.y <= self.bottom()
        &&& self.y <= rect.bottom() <= self.bottom()
    }

    /// `self` is no larger than `parent` in either dimension.
    pub open spec fn fits_in(self, parent: Rectangle) -> bool {
        self.w <= parent.w && self.h <= parent.h
    }

    /// Some corner of `rect` is separated from `self` by one of its sides.
    pub open spec fn strictly_outside(self, rect: Rectangle) -> bool {
        ||| rect.right() < self.x
        ||| rect.x > self.right()
        ||| rect.bottom() < self.y
        ||| rect.y > self.bottom()
    }

    /// The rectangle of the same size whose corner is the origin: the
    /// bounds of `self` in its own coordinates.
    pub open spec fn frame(self) -> Rectangle {
        Rectangle { x: 0, y: 0, w: self.w, h: self.h }
    }

    /// The rectangle that `rect` names when its position is counted from
    /// the corner of `self`.
    pub open spec fn inner(self, rect: Rectangle) -> Rectangle {
        Rectangle {
            x: (self.x + rect.x) as i64,
            y: (self.y + rect.y) as i64,
            w: rect.w,
            h: rect.h,
        }
    }

    /// `self` moved, never resized, so that it lies within `parent`;
    /// `None` when it is larger than `parent` in some dimension.
    pub open spec fn move_inside_spec(self, parent: Rectangle) -> Option<Rectangle> {
        if self.fits_in(parent) {
            Some(
                Rectangle {
                    x: clamp_axis(self.x as int, self.w as int, parent.x as int, parent.w as int) as i64,
                    y: clamp_axis(self.y as int, self.h as int, parent.y as int, parent.h as int) as i64,
                    w: self.w,
                    h: self.h,
                },
            )
        } else {
            None
        }
    }

    /// The native rectangle with the same position and size.
    ///
    /// Fails with `InvalidExtent` exactly when the width or the height is
    /// negative or a corner does not fit the native signed 32-bit range.
    pub fn to_sdl(self) -> (r: Result<NativeRect, Error>)
        ensures
            r is Ok <==> self.wf() && self.fits_native(),
            r matches Ok(n) ==> n.x == self.x && n.y == self.y && n.w == self.w && n.h == self.h,
            r matches Err(e) ==> e == Error::InvalidExtent,
    {
        if self.w < 0 || self.h < 0 {
            return Err(Error::InvalidExtent);
        }
        let right: i128 = self.x as i128 + self.w as i128;
        let bottom: i128 = self.y as i128 + self.h as i128;
        if self.x < i32::MIN as i64 || self.y < i32::MIN as i64 || right > i32::MAX as i128
            || bottom > i32::MAX as i128 {
            return Err(Error::InvalidExtent);
        }
        Ok(NativeRect { x: self.x as i32, y: self.y as i32, w: self.w as u32, h: self.h as u32 })
    }

    /// Returns a (perhaps moved) copy of `self` that lies within `parent`,
    /// or `None` if `self` is wider or taller than `parent`.
    pub fn move_inside(self, parent: Rectangle) -> (r: Option<Rectangle>)
        ensures
            r == self.move_inside_spec(parent),
            r is Some <==> self.fits_in(parent),
            self.wf() && parent.wf() ==> (r matches Some(moved) ==> parent.contains_spec(moved)),
    {
        if self.w > parent.w || self.h > parent.h {
            return None;
        }
        let x = clamp(self.x, self.w, parent.x, parent.w);
        let y = clamp(self.y, self.h, parent.y, parent.h);
        Some(Rectangle { x, y, w: self.w, h: self.h })
    }

    /// Whether all four corners of `rect` lie within the closed bounds of
    /// `self`.
    #[verifier::when_used_as_spec(contains_spec)]
    pub fn contains(&self, rect: Rectangle) -> (b: bool)
        ensures
            b == self.contains_spec(rect),
    {
        let left: i128 = self.x as i128;
        let right: i128 = self.x as i128 + self.w as i128;
        let top: i128 = self.y as i128;
        let bottom: i128 = self.y as i128 + self.h as i128;
        let xmin: i128 = rect.x as i128;
        let xmax: i128 = rect.x as i128 + rect.w as i128;
        let ymin: i128 = rect.y as i128;
        let ymax: i128 = rect.y as i128 + rect.h as i128;

        xmin >= left && xmin <= right && xmax >= left && xmax <= right && ymin >= top && ymin
            <= bottom && ymax >= top && ymax <= bottom
    }
}

/// One axis of `move_inside`, for a segment no longer than the span it is
/// moved into.
fn clamp(pos: i64, len: i64, lo: i64, span: i64) -> (r: i64)
    requires
        len <= span,
    ensures
        r == clamp_axis(pos as int, len as int, lo as int, span as int),
{
    if pos < lo {
        lo
    } else if pos as i128 + len as i128 > lo as i128 + span as i128 {
        (lo as i128 + span as i128 - len as i128) as i64
    } else {
        pos
    }
}

/// A rectangle that is no larger than its parent is, once moved inside,
/// contained in the parent.
pub proof fn lemma_move_inside_contained(r: Rectangle, parent: Rectangle)
    requires
        r.wf(),
        parent.wf(),
        r.fits_in(parent),
    ensures
        r.move_inside_spec(parent) is Some,
        parent.contains(r.move_inside_spec(parent)->Some_0),
        r.move_inside_spec(parent)->Some_0.w == r.w,
        r.move_inside_spec(parent)->Some_0.h == r.h,
{
}

/// A rectangle that is larger than its parent in some dimension cannot be
/// moved inside it.
pub proof fn lemma_move_inside_too_large(r: Rectangle, parent: Rectangle)
    requires
        r.w > parent.w || r.h > parent.h,
    ensures
        r.move_inside_spec(parent) is None,
{
}

/// A rectangle that already lies within its parent is not moved.
pub proof fn lemma_move_inside_keeps_contained(r: Rectangle, parent: Rectangle)
    requires
        r.wf(),
        parent.wf(),
        parent.contains(r),
    ensures
        r.move_inside_spec(parent) == Some(r),
{
}

/// Every well-formed rectangle contains itself.
pub proof fn lemma_contains_reflexive(r: Rectangle)
    requires
        r.wf(),
    ensures
        r.contains(r),
{
}

/// A rectangle that lies strictly outside another is not contained in it.
pub proof fn lemma_contains_rejects_outside(outer: Rectangle, inner: Rectangle)
    requires
        outer.strictly_outside(inner),
    ensures
        !outer.contains(inner),
{
}

/// Containment is transitive.
pub proof fn lemma_contains_transitive(a: Rectangle, b: Rectangle, c: Rectangle)
    requires
        a.contains(b),
        b.contains(c),
    ensures
        a.contains(c),
{
}

/// A rectangle that lies within the frame of another names, counted from
/// that other's corner, a rectangle that the other contains, provided the
/// far corner of the other has coordinates that fit the coordinate type.
pub proof fn lemma_inner_contained(outer: Rectangle, rect: Rectangle)
    requires
        outer.wf(),
        rect.wf(),
        outer.right() <= i64::MAX,
        outer.bottom() <= i64::MAX,
        outer.frame().contains(rect),
    ensures
        outer.inner(rect).wf(),
        outer.contains(outer.inner(rect)),
        outer.inner(rect).x == outer.x + rect.x,
        outer.inner(rect).y == outer.y + rect.y,
{
}

/// Moving a rectangle inside a parent a second time changes nothing.
pub proof fn lemma_move_inside_idempotent(r: Rectangle, parent: Rectangle)
    requires
        r.wf(),
        parent.wf(),
        r.fits_in(parent),
    ensures
        r.move_inside_spec(parent)->Some_0.move_inside_spec(parent) == r.move_inside_spec(parent),
{
}

/// Counting a position from a corner that is itself counted from a corner
/// adds the offsets up, as long as the sums fit the coordinate type.
pub proof fn lemma_inner_composes(outer: Rectangle, middle: Rectangle, rect: Rectangle)
    requires
        i64::MIN <= outer.x + middle.x <= i64::MAX,
        i64::MIN <= outer.y + middle.y <= i64::MAX,
        i64::MIN <= middle.x + rect.x <= i64::MAX,
        i64::MIN <= middle.y + rect.y <= i64::MAX,
    ensures
        outer.inner(middle).inner(rect) == outer.inner(middle.inner(rect)),
{
}

} // verus!
