//! Rectangles and the animated selection highlight.

use vstd::prelude::*;
use crate::anim::{closer, closerize, lemma_closer_step};

verus! {

/// Largest coordinate a rectangle may hold.
pub const POS_MAX: i32 = 1073741823;
/// Smallest coordinate a rectangle may hold.
pub const POS_MIN: i32 = -1073741824;
/// Largest width or height a rectangle may hold.
pub const SIZE_MAX: u32 = 1073741823;

/// A coordinate brought into `[POS_MIN, POS_MAX]`.
pub open spec fn clamp_pos(v: int) -> int {
    if v > POS_MAX { POS_MAX as int } else if v < POS_MIN { POS_MIN as int } else { v }
}

/// A size brought into `[1, SIZE_MAX]`: a rectangle is never empty.
pub open spec fn clamp_size(v: int) -> int {
    if v <= 0 { 1 } else if v > SIZE_MAX { SIZE_MAX as int } else { v }
}

/// An axis-aligned rectangle on the surface, in pixels.
#[derive(Debug, Clone, Copy, PartialEq, Eq, Structural)]
pub struct Rect {
    pub x: i32,
    pub y: i32,
    pub w: u32,
    pub h: u32,
}

fn clamp_position(v: i32) -> (r: i32)
    ensures
        r == clamp_pos(v as int),
{
    if v > POS_MAX { POS_MAX } else if v < POS_MIN { POS_MIN } else { v }
}

fn clamp_extent(v: u32) -> (r: u32)
    ensures
        r == clamp_size(v as int),
{
    if v == 0 { 1 } else if v > SIZE_MAX { SIZE_MAX } else { v }
}

impl Rect {
    /// Coordinates and sizes lie in the ranges that `new` produces.
    pub open spec fn wf(self) -> bool {
        POS_MIN <= self.x <= POS_MAX && POS_MIN <= self.y <= POS_MAX && 1 <= self.w <= SIZE_MAX
            && 1 <= self.h <= SIZE_MAX
    }

    pub open spec fn spec_new(x: int, y: int, w: int, h: int) -> Rect {
        Rect {
            x: clamp_pos(x) as i32,
            y: clamp_pos(y) as i32,
            w: clamp_size(w) as u32,
            h: clamp_size(h) as u32,
        }
    }

    /// A rectangle with its position and size clamped into range.
    pub fn new(x: i32, y: i32, w: u32, h: u32) -> (r: Rect)
        ensures
            r == Rect::spec_new(x as int, y as int, w as int, h as int),
            r.wf(),
    {
        Rect { x: clamp_position(x), y: clamp_position(y), w: clamp_extent(w), h: clamp_extent(h) }
    }

    /// A rectangle from wide values, clamped into range as `new` does.
    pub fn new_wide(x: i64, y: i64, w: u64, h: u64) -> (r: Rect)
        ensures
            r == Rect::spec_new(x as int, y as int, w as int, h as int),
            r.wf(),
    {
        let cx: i32 = if x > POS_MAX as i64 { POS_MAX } else if x < POS_MIN as i64 { POS_MIN } else { x as i32 };
        let cy: i32 = if y > POS_MAX as i64 { POS_MAX } else if y < POS_MIN as i64 { POS_MIN } else { y as i32 };
        let cw: u32 = if w == 0 { 1 } else if w > SIZE_MAX as u64 { SIZE_MAX } else { w as u32 };
        let ch: u32 = if h == 0 { 1 } else if h > SIZE_MAX as u64 { SIZE_MAX } else { h as u32 };
        Rect { x: cx, y: cy, w: cw, h: ch }
    }

    /// The y-position of the bottom edge.
    pub fn bottom(&self) -> (r: i32)
        requires
            self.wf(),
        ensures
            r == self.y + self.h,
    {
        self.y + self.h as i32
    }
}

/// A value clamped into `i32`.
pub open spec fn clamp_i32(v: int) -> int {
    if v > i32::MAX { i32::MAX as int } else if v < i32::MIN { i32::MIN as int } else { v }
}

/// Brings a wide value into `i32`, saturating at its bounds.
pub fn saturate_i32(v: i64) -> (r: i32)
    ensures
        r == clamp_i32(v as int),
{
    if v > i32::MAX as i64 { i32::MAX } else if v < i32::MIN as i64 { i32::MIN } else { v as i32 }
}

/// The highlight rectangle: where it is drawn now, where it is heading, and
/// its colour.
#[derive(Debug, Clone, Copy)]
pub struct SelectionWindow {
    pub rect: Rect,
    pub desired: Rect,
    pub colors: (u8, u8, u8),
}

impl SelectionWindow {
    pub open spec fn wf(self) -> bool {
        self.rect.wf() && self.desired.wf()
    }

    /// The rectangle one animation step from `rect` toward `desired`.
    pub open spec fn stepped(self) -> Rect {
        if self.rect == self.desired {
            self.rect
        } else {
            Rect {
                x: closer(self.rect.x as int, self.desired.x as int) as i32,
                y: closer(self.rect.y as int, self.desired.y as int) as i32,
                w: closer(self.rect.w as int, self.desired.w as int) as u32,
                h: closer(self.rect.h as int, self.desired.h as int) as u32,
            }
        }
    }

    /// A one-pixel highlight at the origin, in the colour `rgb`.
    pub fn new(rgb: (u8, u8, u8)) -> (r: SelectionWindow)
        ensures
            r.wf(),
            r.rect == (Rect { x: 0, y: 0, w: 1, h: 1 }),
            r.desired == r.rect,
            r.colors == rgb,
    {
        SelectionWindow {
            rect: Rect { x: 0, y: 0, w: 1, h: 1 },
            desired: Rect { x: 0, y: 0, w: 1, h: 1 },
            colors: rgb,
        }
    }

    /// Sets where the highlight heads; it gets there through `tick`.
    pub fn move_to(&mut self, location: Rect)
        requires
            location.wf(),
        ensures
            *final(self) == (SelectionWindow { desired: location, ..*old(self) }),
    {
        self.desired = location;
    }

    /// Moves each coordinate and size of the highlight one step toward its
    /// destination.
    pub fn tick(&mut self)
        requires
            old(self).wf(),
        ensures
            final(self).wf(),
            *final(self) == (SelectionWindow { rect: old(self).stepped(), ..*old(self) }),
    {
        if self.rect != self.desired {
            proof {
                lemma_closer_step(self.rect.x as int, self.desired.x as int);
                lemma_closer_step(self.rect.y as int, self.desired.y as int);
                lemma_closer_step(self.rect.w as int, self.desired.w as int);
                lemma_closer_step(self.rect.h as int, self.desired.h as int);
            }
            let x = closerize(self.rect.x, self.desired.x);
            let y = closerize(self.rect.y, self.desired.y);
            let w = closerize(self.rect.w as i32, self.desired.w as i32);
            let h = closerize(self.rect.h as i32, self.desired.h as i32);
            self.rect = Rect { x, y, w: w as u32, h: h as u32 };
        }
    }
}

} // verus!
