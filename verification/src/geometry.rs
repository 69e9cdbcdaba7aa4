//! Rectangles on the screen. Sides and positions are kept within half the range
//! of an `i32`, so that the far edges have coordinates too.
use vstd::prelude::*;

verus! {

/// The largest side and the largest position, and the smallest position.
pub const MAX_EXTENT: i32 = 1_073_741_823;

pub const MIN_POSITION: i32 = -1_073_741_824;

#[derive(Clone, Copy, PartialEq, Eq, Structural, Debug)]
pub struct Rect {
    pub x: i32,
    pub y: i32,
    pub width: u32,
    pub height: u32,
}

pub open spec fn clamped_position(v: int) -> int {
    if v > MAX_EXTENT {
        MAX_EXTENT as int
    } else if v < MIN_POSITION {
        MIN_POSITION as int
    } else {
        v
    }
}

pub open spec fn clamped_side(v: int) -> int {
    if v <= 0 {
        1
    } else if v > MAX_EXTENT {
        MAX_EXTENT as int
    } else {
        v
    }
}

/// The rectangle with these clamped coordinates.
pub open spec fn rect_of(x: int, y: int, width: int, height: int) -> Rect {
    Rect {
        x: clamped_position(x) as i32,
        y: clamped_position(y) as i32,
        width: clamped_side(width) as u32,
        height: clamped_side(height) as u32,
    }
}

fn clamp_position(v: i32) -> (r: i32)
    ensures
        r == clamped_position(v as int),
{
    if v > MAX_EXTENT {
        MAX_EXTENT
    } else if v < MIN_POSITION {
        MIN_POSITION
    } else {
        v
    }
}

fn clamp_side(v: u32) -> (r: u32)
    ensures
        r == clamped_side(v as int),
{
    if v == 0 {
        1
    } else if v > MAX_EXTENT as u32 {
        MAX_EXTENT as u32
    } else {
        v
    }
}

impl Rect {
    pub open spec fn wf(self) -> bool {
        &&& MIN_POSITION <= self.x <= MAX_EXTENT
        &&& MIN_POSITION <= self.y <= MAX_EXTENT
        &&& 1 <= self.width <= MAX_EXTENT
        &&& 1 <= self.height <= MAX_EXTENT
    }

    /// The point lies in the rectangle: its left and upper edges belong to it, the
    /// others do not.
    pub open spec fn holds(self, x: int, y: int) -> bool {
        self.x <= x < self.x + self.width && self.y <= y < self.y + self.height
    }

    pub fn new(x: i32, y: i32, width: u32, height: u32) -> (r: Rect)
        ensures
            r == rect_of(x as int, y as int, width as int, height as int),
            r.wf(),
    {
        Rect {
            x: clamp_position(x),
            y: clamp_position(y),
            width: clamp_side(width),
            height: clamp_side(height),
        }
    }

    pub fn contains_point(&self, x: i32, y: i32) -> (r: bool)
        requires
            self.wf(),
        ensures
            r == self.holds(x as int, y as int),
    {
        x >= self.x && x < self.x + self.width as i32 && y >= self.y && y < self.y
            + self.height as i32
    }

    /// How far into the rectangle a point lies, where it does.
    pub fn offset(&self, x: i32, y: i32) -> (r: Option<(u32, u32)>)
        requires
            self.wf(),
        ensures
            r is Some <==> self.holds(x as int, y as int),
            r matches Some((dx, dy)) ==> dx == x - self.x && dy == y - self.y && dx < self.width
                && dy < self.height,
    {
        if self.contains_point(x, y) {
            Some(((x - self.x) as u32, (y - self.y) as u32))
        } else {
            None
        }
    }
}

} // verus!
