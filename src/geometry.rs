use vstd::prelude::*;

verus! {

/// An axis-aligned rectangle in world pixels: top-left corner and size.
#[derive(Clone, Copy, Debug, PartialEq, Eq, Structural)]
pub struct Rect {
    pub x: i32,
    pub y: i32,
    pub w: i32,
    pub h: i32,
}

/// A point or a displacement in world pixels.
#[derive(Clone, Copy, Debug, PartialEq, Eq, Structural)]
pub struct Vec2i {
    pub x: i32,
    pub y: i32,
}

impl Rect {
    /// A rectangle never has a negative extent.
    pub open spec fn wf(self) -> bool {
        0 <= self.w && 0 <= self.h
    }

    pub open spec fn left_spec(self) -> int {
        self.x as int
    }

    pub open spec fn right_spec(self) -> int {
        self.x + self.w
    }

    pub open spec fn top_spec(self) -> int {
        self.y as int
    }

    pub open spec fn bottom_spec(self) -> int {
        self.y + self.h
    }

    /// Overlap with inclusive edges: rectangles that share an edge overlap.
    pub open spec fn overlaps_spec(self, other: Rect) -> bool {
        self.left_spec() <= other.right_spec() && self.right_spec() >= other.left_spec()
            && self.top_spec() <= other.bottom_spec() && self.bottom_spec()
            >= other.top_spec()
    }

    /// The same rectangle moved by `(dx, dy)`, in unbounded integers.
    pub open spec fn shifted_overlaps_spec(self, dx: int, dy: int, other: Rect) -> bool {
        self.x + dx <= other.right_spec() && self.x + dx + self.w >= other.left_spec() && self.y
            + dy <= other.bottom_spec() && self.y + dy + self.h >= other.top_spec()
    }

    pub fn new(x: i32, y: i32, w: i32, h: i32) -> (r: Rect)
        requires
            0 <= w,
            0 <= h,
        ensures
            r == (Rect { x, y, w, h }),
            r.wf(),
    {
        Rect { x, y, w, h }
    }

    pub fn left(&self) -> (r: i64)
        ensures
            r == self.left_spec(),
    {
        self.x as i64
    }

    pub fn right(&self) -> (r: i64)
        ensures
            r == self.right_spec(),
    {
        self.x as i64 + self.w as i64
    }

    pub fn top(&self) -> (r: i64)
        ensures
            r == self.top_spec(),
    {
        self.y as i64
    }

    pub fn bottom(&self) -> (r: i64)
        ensures
            r == self.bottom_spec(),
    {
        self.y as i64 + self.h as i64
    }

    /// Whether the two rectangles overlap, edges included.
    pub fn overlaps(&self, other: &Rect) -> (r: bool)
        ensures
            r == self.overlaps_spec(*other),
    {
        self.left() <= other.right() && self.right() >= other.left() && self.top()
            <= other.bottom() && self.bottom() >= other.top()
    }

    /// Whether this rectangle, moved by `offset`, overlaps `other`.
    pub fn overlaps_shifted(&self, offset: Vec2i, other: &Rect) -> (r: bool)
        ensures
            r == self.shifted_overlaps_spec(offset.x as int, offset.y as int, *other),
    {
        let l = self.x as i64 + offset.x as i64;
        let t = self.y as i64 + offset.y as i64;
        l <= other.right() && l + self.w as i64 >= other.left() && t <= other.bottom() && t
            + self.h as i64 >= other.top()
    }
}

/// Overlap does not depend on the order of the two rectangles.
pub proof fn lemma_overlaps_symmetric(a: Rect, b: Rect)
    ensures
        a.overlaps_spec(b) == b.overlaps_spec(a),
{
}

impl Vec2i {
    pub fn new(x: i32, y: i32) -> (r: Vec2i)
        ensures
            r == (Vec2i { x, y }),
    {
        Vec2i { x, y }
    }
}

/// Shorthand for [`Vec2i::new`].
pub fn vec2i(x: i32, y: i32) -> (r: Vec2i)
    ensures
        r == (Vec2i { x, y }),
{
    Vec2i { x, y }
}

/// The integer nearest to `v` inside the range of `i32`.
pub open spec fn clamp_i32(v: int) -> int {
    if v < i32::MIN {
        i32::MIN as int
    } else if v > i32::MAX {
        i32::MAX as int
    } else {
        v
    }
}

/// `a + b`, held to the range of `i32`.
pub fn add_clamped(a: i32, b: i64) -> (r: i32)
    ensures
        r == clamp_i32(a + b),
{
    let s: i128 = a as i128 + b as i128;
    if s < i32::MIN as i128 {
        i32::MIN
    } else if s > i32::MAX as i128 {
        i32::MAX
    } else {
        s as i32
    }
}


/// Division that rounds toward zero, as machine integers do.
pub open spec fn div_trunc(a: int, b: int) -> int {
    if a >= 0 {
        a / b
    } else {
        -((-a) / b)
    }
}

/// How far a velocity of `v` pixels per second carries in `dt_ms` milliseconds,
/// rounded toward zero and held to the range of `i32`.
pub open spec fn frame_step_spec(v: int, dt_ms: int) -> int {
    clamp_i32(div_trunc(v * dt_ms, 1000))
}

/// Distance covered at `v` pixels per second during `dt_ms` milliseconds.
pub fn frame_step(v: i32, dt_ms: u32) -> (r: i32)
    ensures
        r == frame_step_spec(v as int, dt_ms as int),
{
    proof {
        assert(-0x8000_0000 * 0x1_0000_0000 <= (v as int) * (dt_ms as int) <= 0x8000_0000 * 0x1_0000_0000)
            by (nonlinear_arith)
            requires
                -0x8000_0000 <= v < 0x8000_0000,
                0 <= dt_ms < 0x1_0000_0000,
        ;
    }
    let a: i128 = (v as i128) * (dt_ms as i128);
    let q: i128 = if a >= 0 {
        a / 1000
    } else {
        -((-a) / 1000)
    };
    if q < i32::MIN as i128 {
        i32::MIN
    } else if q > i32::MAX as i128 {
        i32::MAX
    } else {
        q as i32
    }
}

/// `base` scaled by `scale_milli / 1000`, rounded down.
pub open spec fn scaled_spec(base: int, scale_milli: int) -> int {
    base * scale_milli / 1000
}

/// A tuning value multiplied by the interface scale, given in thousandths.
pub fn scaled(base: u16, scale_milli: u16) -> (r: i32)
    ensures
        r == scaled_spec(base as int, scale_milli as int),
        0 <= r <= 65535 * 65535 / 1000,
{
    proof {
        assert(0 <= (base as int) * (scale_milli as int) <= 65535 * 65535) by (nonlinear_arith)
            requires
                0 <= base <= 65535,
                0 <= scale_milli <= 65535,
        ;
    }
    ((base as u64) * (scale_milli as u64) / 1000) as i32
}

} // verus!
