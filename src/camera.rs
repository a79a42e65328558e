use vstd::prelude::*;
use crate::geometry::{Rect, Vec2i, clamp_i32};

verus! {

/// Positions of the four camera-bound bodies at the window's edges.
#[derive(Clone, Copy, Debug, PartialEq, Eq, Structural)]
pub struct CameraBounds {
    pub left: Vec2i,
    pub right: Vec2i,
    pub top: Vec2i,
    pub bottom: Vec2i,
}

/// Where the camera-bound bodies go, and the window to show, if it changed.
#[derive(Clone, Copy, Debug, PartialEq, Eq, Structural)]
pub struct CameraFollow {
    pub bounds: CameraBounds,
    /// Top-left corner and size of the window to show; the height is negative
    /// because world y grows downward.
    pub display: Option<Rect>,
}

pub open spec fn pt(x: int, y: int) -> Vec2i {
    Vec2i { x: clamp_i32(x) as i32, y: clamp_i32(y) as i32 }
}

pub open spec fn window(x: int, y: int, screen: Vec2i) -> Rect {
    Rect { x: clamp_i32(x) as i32, y: clamp_i32(y) as i32, w: screen.x, h: -screen.y as i32 }
}

/// The camera after the player, at `pos` and `size`, moved this frame (`direction`:
/// 1 walking left, 2 walking right, 0 otherwise).
///
/// Horizontally: near the left bound (within a quarter screen plus a pixel) and not
/// walking right, the window's left edge goes a quarter screen left of the player;
/// else near the right bound and not walking left, its right edge goes a quarter
/// screen right of the player. Vertically, likewise with an eighth of the screen
/// at the top and at the bottom, each only when the player is not near the other.
pub open spec fn follow_spec(pos: Vec2i, size: Vec2i, bounds: CameraBounds, screen: Vec2i, direction: i8) -> CameraFollow {
    let (px, py, w, h) = (pos.x as int, pos.y as int, size.x as int, size.y as int);
    let (sw, sh) = (screen.x as int, screen.y as int);
    let row_y = py + h - sh;
    let near_left = px - 1 <= bounds.left.x + sw / 4 && direction != 2;
    let near_right = px + h + 1 >= bounds.right.x && direction != 1;
    let (b0, b1, d1) = if near_left {
        (pt(px - sw / 4, row_y), pt(px + sw / 2, row_y), Some(window(px - sw / 4, bounds.top.y + sh, screen)))
    } else if near_right {
        (
            pt(px + w + sw / 4 - sw, row_y),
            pt(px + w, row_y),
            Some(window(px + w - (sw - sw / 4), bounds.top.y + sh, screen)),
        )
    } else {
        (bounds.left, bounds.right, None)
    };
    let near_top = py - 1 <= bounds.top.y + sh / 8;
    let near_bottom = py + h + 1 >= bounds.bottom.y;
    let (b2, b3, d2) = if near_top && !near_bottom {
        (
            pt(px, py - sh / 8),
            pt(px, py + sh / 8 + sh - sh / 2 + sh / 8),
            Some(window(b0.x as int, py - sh / 8 + sh, screen)),
        )
    } else if near_bottom && !near_top {
        (
            pt(px, py + sh / 8 + h - sh),
            pt(px, py + h),
            Some(window(b0.x as int, py + h + sh / 8 - sh + sh, screen)),
        )
    } else {
        (bounds.top, bounds.bottom, None)
    };
    CameraFollow {
        bounds: CameraBounds { left: b0, right: b1, top: b2, bottom: b3 },
        display: if d2 is Some { d2 } else { d1 },
    }
}

fn clamp64(v: i64) -> (r: i32)
    ensures
        r == clamp_i32(v as int),
{
    if v < i32::MIN as i64 {
        i32::MIN
    } else if v > i32::MAX as i64 {
        i32::MAX
    } else {
        v as i32
    }
}

fn point(x: i64, y: i64) -> (r: Vec2i)
    ensures
        r == pt(x as int, y as int),
{
    Vec2i { x: clamp64(x), y: clamp64(y) }
}

fn make_window(x: i64, y: i64, screen: Vec2i) -> (r: Rect)
    requires
        screen.y > i32::MIN,
    ensures
        r == window(x as int, y as int, screen),
{
    Rect { x: clamp64(x), y: clamp64(y), w: screen.x, h: -screen.y }
}

/// Moves the camera-bound bodies after the player; see [`follow_spec`].
pub fn camera_follow(pos: Vec2i, size: Vec2i, bounds: CameraBounds, screen: Vec2i, direction: i8) -> (r: CameraFollow)
    requires
        0 <= screen.x,
        0 <= screen.y,
    ensures
        r == follow_spec(pos, size, bounds, screen, direction),
{
    let px = pos.x as i64;
    let py = pos.y as i64;
    let w = size.x as i64;
    let h = size.y as i64;
    let sw = screen.x as i64;
    let sh = screen.y as i64;
    let row_y = py + h - sh;
    let near_left = px - 1 <= bounds.left.x as i64 + sw / 4 && direction != 2;
    let near_right = px + h + 1 >= bounds.right.x as i64 && direction != 1;
    let (b0, b1, d1) = if near_left {
        (point(px - sw / 4, row_y), point(px + sw / 2, row_y), Some(make_window(px - sw / 4, bounds.top.y as i64 + sh, screen)))
    } else if near_right {
        (
            point(px + w + sw / 4 - sw, row_y),
            point(px + w, row_y),
            Some(make_window(px + w - (sw - sw / 4), bounds.top.y as i64 + sh, screen)),
        )
    } else {
        (bounds.left, bounds.right, None)
    };
    let near_top = py - 1 <= bounds.top.y as i64 + sh / 8;
    let near_bottom = py + h + 1 >= bounds.bottom.y as i64;
    let (b2, b3, d2) = if near_top && !near_bottom {
        (
            point(px, py - sh / 8),
            point(px, py + sh / 8 + sh - sh / 2 + sh / 8),
            Some(make_window(b0.x as i64, py - sh / 8 + sh, screen)),
        )
    } else if near_bottom && !near_top {
        (
            point(px, py + sh / 8 + h - sh),
            point(px, py + h),
            Some(make_window(b0.x as i64, py + h + sh / 8 - sh + sh, screen)),
        )
    } else {
        (bounds.top, bounds.bottom, None)
    };
    let display = match d2 {
        Some(d) => Some(d),
        None => d1,
    };
    CameraFollow { bounds: CameraBounds { left: b0, right: b1, top: b2, bottom: b3 }, display }
}

} // verus!
