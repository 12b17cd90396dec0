//! Plain device-pixel geometry and color values shared by the pipelines.

use vstd::prelude::*;

verus! {

/// Top-left position of a command's destination, in device pixels.
#[derive(Clone, Copy, Debug, PartialEq, Eq, Structural)]
pub struct PxPosition {
    pub x: i32,
    pub y: i32,
}

/// Size of a command's destination, in device pixels.
#[derive(Clone, Copy, Debug, PartialEq, Eq, Structural)]
pub struct PxSize {
    pub width: u32,
    pub height: u32,
}

/// An axis-aligned rectangle in device pixels, used to clip a text area.
#[derive(Clone, Copy, Debug, PartialEq, Eq, Structural)]
pub struct PxRect {
    pub left: i32,
    pub top: i32,
    pub right: i32,
    pub bottom: i32,
}

/// An RGBA color with 8-bit channels.
#[derive(Clone, Copy, Debug, PartialEq, Eq, Structural)]
pub struct Color {
    pub r: u8,
    pub g: u8,
    pub b: u8,
    pub a: u8,
}

impl PxPosition {
    pub fn new(x: i32, y: i32) -> (p: PxPosition)
        ensures
            p.x == x && p.y == y,
    {
        PxPosition { x, y }
    }
}

impl PxSize {
    pub fn new(width: u32, height: u32) -> (s: PxSize)
        ensures
            s.width == width && s.height == height,
    {
        PxSize { width, height }
    }
}

impl Color {
    pub fn rgba(r: u8, g: u8, b: u8, a: u8) -> (c: Color)
        ensures
            c.r == r && c.g == g && c.b == b && c.a == a,
    {
        Color { r, g, b, a }
    }

    /// Opaque black, the default color of a rendered text area.
    pub fn black() -> (c: Color)
        ensures
            c.r == 0 && c.g == 0 && c.b == 0 && c.a == 255,
    {
        Color { r: 0, g: 0, b: 0, a: 255 }
    }
}

} // verus!
