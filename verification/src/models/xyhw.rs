//! Rectangles on the display's coordinate grid, and the width and origin that a
//! maximum window width leaves of them.

use vstd::prelude::*;

verus! {

/// The rectangle that a region stands for: an origin and an extent.
pub struct Rect {
    pub x: int,
    pub y: int,
    pub w: int,
    pub h: int,
}

impl Rect {
    /// A rectangle is valid when its extent is not negative and all of it lies
    /// on the grid of `i32` coordinates.
    pub open spec fn valid(self) -> bool {
        &&& 0 <= self.w <= i32::MAX
        &&& 0 <= self.h <= i32::MAX
        &&& i32::MIN <= self.x
        &&& i32::MIN <= self.y
        &&& self.x + self.w <= i32::MAX
        &&& self.y + self.h <= i32::MAX
    }

    /// The part of this rectangle that `columns` columns take when none may be
    /// wider than `max`: the full height, the limited width, centred.
    pub open spec fn limited(self, max: Option<u32>, columns: int) -> Rect {
        Rect {
            x: limited_x(self.x, self.w, max, columns),
            y: self.y,
            w: limited_width(self.w, max, columns),
            h: self.h,
        }
    }
}

/// The extent that is left of `extent` from `origin` on: nothing where it is
/// negative, and no more than reaches the last coordinate.
pub open spec fn clip_extent(origin: int, extent: int) -> int {
    if extent < 0 {
        0
    } else if origin + extent > i32::MAX {
        i32::MAX - origin
    } else {
        extent
    }
}

/// The width that `columns` columns take of `width` when none may be wider
/// than `max`: their summed maximum, or all of `width` where that is less.
pub open spec fn limited_width(width: int, max: Option<u32>, columns: int) -> int {
    match max {
        Some(m) => if m * columns < width {
            m * columns
        } else {
            width
        },
        None => width,
    }
}

/// The origin that centres the limited width in a region that starts at `x`
/// and is `width` wide.
pub open spec fn limited_x(x: int, width: int, max: Option<u32>, columns: int) -> int {
    match max {
        Some(m) => if m * columns < width {
            x + (width - m * columns) / 2
        } else {
            x
        },
        None => x,
    }
}

/// The limited part of a valid rectangle is a valid rectangle inside it.
pub proof fn lemma_limited_within(r: Rect, max: Option<u32>, columns: nat)
    requires
        r.valid(),
    ensures
        r.limited(max, columns as int).valid(),
        r.x <= r.limited(max, columns as int).x,
        r.limited(max, columns as int).x + r.limited(max, columns as int).w <= r.x + r.w,
        r.limited(max, columns as int).w <= r.w,
        max is None ==> r.limited(max, columns as int) == r,
{
    if let Some(m) = max {
        assert(0 <= m * columns) by (nonlinear_arith)
            requires
                0 <= m,
                0 <= columns,
        ;
    }
}

/// The plain values from which a region is made.
#[derive(Clone, Copy, Debug, PartialEq, Eq)]
pub struct XyhwBuilder {
    pub x: i32,
    pub y: i32,
    pub w: i32,
    pub h: i32,
}

impl XyhwBuilder {
    /// The valid rectangle nearest to these values: the origin as given, the
    /// extent clipped.
    pub open spec fn rect(self) -> Rect {
        Rect {
            x: self.x as int,
            y: self.y as int,
            w: clip_extent(self.x as int, self.w as int),
            h: clip_extent(self.y as int, self.h as int),
        }
    }
}

impl Default for XyhwBuilder {
    fn default() -> (builder: Self)
        ensures
            builder == (XyhwBuilder { x: 0, y: 0, w: 0, h: 0 }),
    {
        XyhwBuilder { x: 0, y: 0, w: 0, h: 0 }
    }
}

/// A region: a valid rectangle with `i32` coordinates.
#[derive(Clone, Copy, Debug, PartialEq, Eq)]
pub struct Xyhw {
    x: i32,
    y: i32,
    w: i32,
    h: i32,
}

impl View for Xyhw {
    type V = Rect;

    closed spec fn view(&self) -> Rect {
        Rect { x: self.x as int, y: self.y as int, w: self.w as int, h: self.h as int }
    }
}

fn clip(origin: i32, extent: i32) -> (clipped: i32)
    ensures
        clipped == clip_extent(origin as int, extent as int),
{
    if extent < 0 {
        0
    } else if origin > 0 && extent > i32::MAX - origin {
        i32::MAX - origin
    } else {
        extent
    }
}

impl Xyhw {
    #[verifier::type_invariant]
    closed spec fn inv(self) -> bool {
        self@.valid()
    }

    /// Two regions that stand for the same rectangle are the same region.
    pub proof fn lemma_view_injective(self, other: Xyhw)
        requires
            self@ == other@,
        ensures
            self == other,
    {
    }

    /// Tells the verifier what holds of every region: its rectangle is valid.
    pub fn validity(&self)
        ensures
            self@.valid(),
    {
        proof {
            use_type_invariant(self);
        }
    }

    pub fn x(&self) -> (x: i32)
        ensures
            x == self@.x,
    {
        self.x
    }

    pub fn y(&self) -> (y: i32)
        ensures
            y == self@.y,
    {
        self.y
    }

    pub fn w(&self) -> (w: i32)
        ensures
            w == self@.w,
            0 <= w,
    {
        proof {
            use_type_invariant(self);
        }
        self.w
    }

    pub fn h(&self) -> (h: i32)
        ensures
            h == self@.h,
            0 <= h,
    {
        proof {
            use_type_invariant(self);
        }
        self.h
    }

    /// The width that `column_count` columns take of this region when none may
    /// be wider than `max`.
    pub fn width_limited(&self, max: Option<u32>, column_count: usize) -> (width: i32)
        ensures
            width == limited_width(self@.w, max, column_count as int),
            0 <= width <= self@.w,
    {
        proof {
            use_type_invariant(self);
        }
        match max {
            Some(m) => {
                assert(0 <= m * column_count <= 0xffff_ffff * 0xffff_ffff_ffff_ffff)
                    by (nonlinear_arith)
                    requires
                        0 <= m <= 0xffff_ffff,
                        0 <= column_count <= 0xffff_ffff_ffff_ffff,
                ;
                let limit: u128 = (m as u128) * (column_count as u128);
                if limit < self.w as u128 {
                    limit as i32
                } else {
                    self.w
                }
            },
            None => self.w,
        }
    }

    /// The origin that centres the limited width in this region.
    pub fn x_limited(&self, max: Option<u32>, column_count: usize) -> (x: i32)
        ensures
            x == limited_x(self@.x, self@.w, max, column_count as int),
            self@.x <= x,
            x + limited_width(self@.w, max, column_count as int) <= self@.x + self@.w,
    {
        proof {
            use_type_invariant(self);
        }
        let width: i32 = self.width_limited(max, column_count);
        self.x + (self.w - width) / 2
    }

    /// The part of this region that `column_count` columns take when none may
    /// be wider than `max`.
    pub fn limited(&self, max: Option<u32>, column_count: usize) -> (region: Xyhw)
        ensures
            region@ == self@.limited(max, column_count as int),
    {
        proof {
            use_type_invariant(self);
        }
        Xyhw {
            x: self.x_limited(max, column_count),
            y: self.y,
            w: self.width_limited(max, column_count),
            h: self.h,
        }
    }
}

impl From<XyhwBuilder> for Xyhw {
    /// Makes a region of the builder's values, with the extent clipped to what
    /// is valid.
    fn from(builder: XyhwBuilder) -> (region: Xyhw)
        ensures
            region@ == builder.rect(),
    {
        Xyhw {
            x: builder.x,
            y: builder.y,
            w: clip(builder.x, builder.w),
            h: clip(builder.y, builder.h),
        }
    }
}

impl vstd::std_specs::convert::FromSpecImpl<XyhwBuilder> for Xyhw {
    open spec fn obeys_from_spec() -> bool {
        true
    }

    closed spec fn from_spec(builder: XyhwBuilder) -> Xyhw {
        Xyhw {
            x: builder.x,
            y: builder.y,
            w: clip_extent(builder.x as int, builder.w as int) as i32,
            h: clip_extent(builder.y as int, builder.h as int) as i32,
        }
    }
}

impl Default for Xyhw {
    fn default() -> (region: Self)
        ensures
            region@ == (Rect { x: 0, y: 0, w: 0, h: 0 }),
    {
        Xyhw { x: 0, y: 0, w: 0, h: 0 }
    }
}

} // verus!
