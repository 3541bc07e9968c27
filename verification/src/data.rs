//! Geometry: axis-aligned rectangles, and values that may die within a tick.

use vstd::prelude::*;

verus! {

/// Length units in one pixel.
pub const UNIT: i64 = 1_000_000;

/// An axis-aligned rectangle: the corner nearest the origin, and the size.
#[derive(Clone, Copy, Debug, PartialEq, Eq, Structural)]
pub struct Rectangle {
    pub x: i64,
    pub y: i64,
    pub w: i64,
    pub h: i64,
}

/// Where an interval of length `len` that starts at `pos` comes to lie when it
/// is pushed into the interval of length `span` that starts at `lo`: at the low
/// end if it starts below it, at the high end if it reaches or passes it, and
/// where it was otherwise.
pub open spec fn clamp_axis(pos: int, len: int, lo: int, span: int) -> int {
    if pos < lo {
        lo
    } else if pos + len >= lo + span {
        lo + span - len
    } else {
        pos
    }
}

/// The whole pixels in a length, rounded towards zero.
pub open spec fn whole_pixels(v: int) -> int {
    if v >= 0 {
        v / (UNIT as int)
    } else {
        -((-v) / (UNIT as int))
    }
}

/// `v` held to the range of `i32`.
pub open spec fn clamp_i32(v: int) -> int {
    if v < i32::MIN as int {
        i32::MIN as int
    } else if v > i32::MAX as int {
        i32::MAX as int
    } else {
        v
    }
}

/// `v` held to the range of `u32`.
pub open spec fn clamp_u32(v: int) -> int {
    if v < 0 {
        0
    } else if v > u32::MAX as int {
        u32::MAX as int
    } else {
        v
    }
}

impl Rectangle {
    /// The size is not negative, and the far edges are representable.
    pub open spec fn wf(self) -> bool {
        &&& self.w >= 0
        &&& self.h >= 0
        &&& self.x + self.w <= i64::MAX
        &&& self.y + self.h <= i64::MAX
    }

    /// Both corners of `rect` lie within `self`, edges included.
    pub open spec fn spec_contains(self, rect: Rectangle) -> bool {
        &&& self.x <= rect.x <= self.x + self.w
        &&& self.x <= rect.x + rect.w <= self.x + self.w
        &&& self.y <= rect.y <= self.y + self.h
        &&& self.y <= rect.y + rect.h <= self.y + self.h
    }

    /// The open interiors meet on both axes: touching edges do not count.
    pub open spec fn spec_overlaps(self, other: Rectangle) -> bool {
        &&& self.x < other.x + other.w
        &&& self.x + self.w > other.x
        &&& self.y < other.y + other.h
        &&& self.y + self.h > other.y
    }

    /// `self` pushed into `parent`, where it is not larger than `parent`.
    pub open spec fn spec_move_inside(self, parent: Rectangle) -> Option<Rectangle> {
        if self.w > parent.w || self.h > parent.h {
            None
        } else {
            Some(
                Rectangle {
                    x: clamp_axis(self.x as int, self.w as int, parent.x as int, parent.w as int) as i64,
                    y: clamp_axis(self.y as int, self.h as int, parent.y as int, parent.h as int) as i64,
                    w: self.w,
                    h: self.h,
                },
            )
        }
    }

    /// The point halfway along both sides, rounded towards the near corner.
    pub open spec fn spec_center(self) -> (int, int) {
        (self.x + self.w / 2, self.y + self.h / 2)
    }

    /// The rectangle in whole pixels, as a renderer takes it: position, then
    /// size. A rectangle less than a pixel wide or high has none.
    pub open spec fn spec_to_sdl(self) -> Option<(i32, i32, u32, u32)> {
        let w = clamp_u32(whole_pixels(self.w as int));
        let h = clamp_u32(whole_pixels(self.h as int));
        if w == 0 || h == 0 {
            None
        } else {
            Some(
                (
                    clamp_i32(whole_pixels(self.x as int)) as i32,
                    clamp_i32(whole_pixels(self.y as int)) as i32,
                    w as u32,
                    h as u32,
                ),
            )
        }
    }

    /// The rectangle in whole pixels, each coordinate rounded towards zero and
    /// held to the range of its type.
    pub fn to_sdl(self) -> (r: Option<(i32, i32, u32, u32)>)
        requires
            self.w >= 0,
            self.h >= 0,
        ensures
            r == self.spec_to_sdl(),
    {
        let w: u32 = pixels_u32(self.w);
        let h: u32 = pixels_u32(self.h);
        if w == 0 || h == 0 {
            None
        } else {
            Some((pixels_i32(self.x), pixels_i32(self.y), w, h))
        }
    }

    /// A rectangle of the given size at the origin.
    pub fn with_size(w: i64, h: i64) -> (r: Rectangle)
        ensures
            r == (Rectangle { x: 0, y: 0, w, h }),
    {
        Rectangle { w, h, x: 0, y: 0 }
    }

    /// Pushes `self` into `parent` without changing its size. There is no
    /// result exactly when `self` is wider or higher than `parent`.
    pub fn move_inside(self, parent: Rectangle) -> (r: Option<Rectangle>)
        requires
            self.wf(),
            parent.wf(),
        ensures
            r == self.spec_move_inside(parent),
            r.is_none() <==> self.w > parent.w || self.h > parent.h,
            r matches Some(inner) ==> inner.wf() && parent.spec_contains(inner),
    {
        if self.w > parent.w || self.h > parent.h {
            return None;
        }
        let x: i64 = if self.x < parent.x {
            parent.x
        } else if self.x >= parent.x + parent.w - self.w {
            parent.x + parent.w - self.w
        } else {
            self.x
        };
        let y: i64 = if self.y < parent.y {
            parent.y
        } else if self.y >= parent.y + parent.h - self.h {
            parent.y + parent.h - self.h
        } else {
            self.y
        };
        Some(Rectangle { w: self.w, h: self.h, x, y })
    }

    /// Whether `rect` lies within `self`, edges included.
    pub fn contains(&self, rect: Rectangle) -> (r: bool)
        ensures
            r == self.spec_contains(rect),
    {
        let xmin: i128 = rect.x as i128;
        let xmax: i128 = xmin + rect.w as i128;
        let ymin: i128 = rect.y as i128;
        let ymax: i128 = ymin + rect.h as i128;
        let right: i128 = self.x as i128 + self.w as i128;
        let bottom: i128 = self.y as i128 + self.h as i128;
        xmin >= self.x as i128 && xmin <= right && xmax >= self.x as i128 && xmax <= right
            && ymin >= self.y as i128 && ymin <= bottom && ymax >= self.y as i128 && ymax
            <= bottom
    }

    /// Whether the interiors of `self` and `other` meet.
    pub fn overlaps(&self, other: Rectangle) -> (r: bool)
        ensures
            r == self.spec_overlaps(other),
    {
        (self.x as i128) < other.x as i128 + other.w as i128 && self.x as i128 + self.w as i128
            > other.x as i128 && (self.y as i128) < other.y as i128 + other.h as i128
            && self.y as i128 + self.h as i128 > other.y as i128
    }

    /// The rectangle of the same size whose center is `center`.
    pub fn center_at(self, center: (i64, i64)) -> (r: Rectangle)
        requires
            self.wf(),
            i64::MIN <= center.0 - self.w / 2,
            center.0 - self.w / 2 + self.w <= i64::MAX,
            i64::MIN <= center.1 - self.h / 2,
            center.1 - self.h / 2 + self.h <= i64::MAX,
        ensures
            r == (Rectangle {
                x: (center.0 - self.w / 2) as i64,
                y: (center.1 - self.h / 2) as i64,
                w: self.w,
                h: self.h,
            }),
            r.wf(),
            r.spec_center() == (center.0 as int, center.1 as int),
    {
        Rectangle { x: center.0 - self.w / 2, y: center.1 - self.h / 2, w: self.w, h: self.h }
    }

    /// The center of the rectangle.
    pub fn center(self) -> (r: (i64, i64))
        requires
            self.wf(),
        ensures
            (r.0 as int, r.1 as int) == self.spec_center(),
    {
        let x: i64 = self.x + self.w / 2;
        let y: i64 = self.y + self.h / 2;
        (x, y)
    }

    /// A rectangle pushed into one of its own size lands exactly on it; in
    /// particular a rectangle pushed into itself does not move.
    pub proof fn lemma_move_inside_same_size(self, parent: Rectangle)
        requires
            self.wf(),
            parent.wf(),
            self.w == parent.w,
            self.h == parent.h,
        ensures
            self.spec_move_inside(parent) == Some(parent),
            self.spec_move_inside(self) == Some(self),
    {
    }

    /// A rectangle wider or higher than its parent cannot be pushed into it.
    pub proof fn lemma_move_inside_too_large(self, parent: Rectangle)
        requires
            self.w > parent.w || self.h > parent.h,
        ensures
            self.spec_move_inside(parent).is_none(),
    {
    }

    /// Overlap does not depend on which of the two rectangles is asked.
    pub proof fn lemma_overlaps_symmetric(self, other: Rectangle)
        ensures
            self.spec_overlaps(other) == other.spec_overlaps(self),
    {
    }
}

/// The whole pixels in `v`, held to the range of `i32`.
fn pixels_i32(v: i64) -> (r: i32)
    ensures
        r == clamp_i32(whole_pixels(v as int)),
{
    let p: i64 = v / UNIT;
    if p < i32::MIN as i64 {
        i32::MIN
    } else if p > i32::MAX as i64 {
        i32::MAX
    } else {
        p as i32
    }
}

/// The whole pixels in `v`, held to the range of `u32`.
fn pixels_u32(v: i64) -> (r: u32)
    requires
        v >= 0,
    ensures
        r == clamp_u32(whole_pixels(v as int)),
{
    let p: i64 = v / UNIT;
    if p > u32::MAX as i64 {
        u32::MAX
    } else {
        p as u32
    }
}

/// A value together with a flag that says whether it survives the current tick.
pub struct MaybeAlive<T> {
    pub alive: bool,
    pub value: T,
}

impl<T> MaybeAlive<T> {
    /// The value if it is alive, nothing otherwise.
    pub fn as_option(self) -> (r: Option<T>)
        ensures
            r == (if self.alive { Some(self.value) } else { None }),
    {
        if self.alive {
            Some(self.value)
        } else {
            None
        }
    }
}

} // verus!
