use vstd::prelude::*;

verus! {

/// A position in screen or client coordinates.
#[derive(Clone, Copy, Debug, PartialEq, Eq, Structural)]
pub struct Point {
    pub x: i32,
    pub y: i32,
}

/// A rectangle given by its edges, as the windowing system reports regions.
#[derive(Clone, Copy, Debug, PartialEq, Eq, Structural)]
pub struct Rect {
    pub left: i32,
    pub top: i32,
    pub right: i32,
    pub bottom: i32,
}

/// Half of `d`, rounded toward zero (the rounding of integer division on `i32`).
pub open spec fn half_toward_zero(d: int) -> int {
    if d >= 0 {
        d / 2
    } else {
        -((-d) / 2)
    }
}

/// The top-left corner that centres a `width` x `height` window on a screen
/// of `screen_width` x `screen_height`: half of the spare room on each axis.
pub fn center_window(screen_width: i32, screen_height: i32, width: i32, height: i32) -> (p: Point)
    ensures
        p.x == half_toward_zero(screen_width - width),
        p.y == half_toward_zero(screen_height - height),
        width <= screen_width ==> p.x == (screen_width - width) / 2,
        height <= screen_height ==> p.y == (screen_height - height) / 2,
{
    Point { x: half_of_difference(screen_width, width), y: half_of_difference(screen_height, height) }
}

/// `(total - part) / 2` rounded toward zero, computed without overflow.
fn half_of_difference(total: i32, part: i32) -> (r: i32)
    ensures
        r == half_toward_zero(total - part),
{
    let d: i64 = total as i64 - part as i64;
    let h: i64 = if d >= 0 {
        d / 2
    } else {
        -((-d) / 2)
    };
    h as i32
}

/// The colour value with red in the low byte, then green, then blue.
pub open spec fn color_of(r: u8, g: u8, b: u8) -> u32 {
    (r + 0x100 * g + 0x10000 * b) as u32
}

/// Opaque white.
pub const WHITE: u32 = 0x00FF_FFFF;

/// Packs three channel intensities into a colour value.
pub fn rgb(r: u8, g: u8, b: u8) -> (c: u32)
    ensures
        c == color_of(r, g, b),
        c == r + 0x100 * g + 0x10000 * b,
{
    r as u32 + 0x100 * (g as u32) + 0x10000 * (b as u32)
}

} // verus!
