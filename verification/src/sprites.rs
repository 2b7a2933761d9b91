//! What a renderer needs to know of a sprite: its region in a sprite sheet,
//! in texture space, and where and how to draw it.

use vstd::prelude::*;
use crate::fixed::{clamp, sat_mul_div, trunc_div};
use crate::geometry::{Point, Rect};

verus! {

/// The full width, or height, of a sprite sheet in texture space: a texture
/// coordinate is a count of millionths of the sheet's extent.
pub const TEXTURE_UNIT: i64 = 1_000_000;

/// A length of `px` pixels in a sheet that is `extent` pixels long, in
/// texture space.
pub open spec fn normalized(px: i64, extent: u32) -> i64 {
    clamp(trunc_div(px * TEXTURE_UNIT, extent as int))
}

/// A pixel rectangle of a sheet of the given size, in texture space.
pub open spec fn normalized_rect(px: Rect, sheet_width: u32, sheet_height: u32) -> Rect {
    Rect {
        x: normalized(px.x, sheet_width),
        y: normalized(px.y, sheet_height),
        w: normalized(px.w, sheet_width),
        h: normalized(px.h, sheet_height),
    }
}

/// A pixel of a sheet of the given size, in texture space.
pub open spec fn normalized_point(px: Point, sheet_width: u32, sheet_height: u32) -> Point {
    Point { x: normalized(px.x, sheet_width), y: normalized(px.y, sheet_height) }
}

pub fn normalize(px: i64, extent: u32) -> (r: i64)
    requires
        extent > 0,
    ensures
        r == normalized(px, extent),
{
    sat_mul_div(px, TEXTURE_UNIT, extent as i64)
}

pub fn normalize_rect(px: Rect, sheet_width: u32, sheet_height: u32) -> (r: Rect)
    requires
        sheet_width > 0,
        sheet_height > 0,
    ensures
        r == normalized_rect(px, sheet_width, sheet_height),
{
    Rect {
        x: normalize(px.x, sheet_width),
        y: normalize(px.y, sheet_height),
        w: normalize(px.w, sheet_width),
        h: normalize(px.h, sheet_height),
    }
}

pub fn normalize_point(px: Point, sheet_width: u32, sheet_height: u32) -> (r: Point)
    requires
        sheet_width > 0,
        sheet_height > 0,
    ensures
        r == normalized_point(px, sheet_width, sheet_height),
{
    Point { x: normalize(px.x, sheet_width), y: normalize(px.y, sheet_height) }
}

/// One sprite to draw.
#[derive(Clone, Copy, Debug, PartialEq, Eq, Structural)]
pub struct SpriteDraw {
    /// The sprite's region of its sheet, in texture space.
    pub src: Rect,
    /// Where the sprite goes, in world coordinates.
    pub dest: Point,
    /// The point of the sprite that lands on `dest` and about which it
    /// turns, in texture space.
    pub offset: Point,
    /// The angle by which the sprite is turned.
    pub rotation: i64,
    /// Whether the sprite is drawn mirrored, facing left.
    pub mirrored: bool,
}

} // verus!
