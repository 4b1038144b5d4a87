//! Body colors, stored as 8-bit RGBA channels.
//!
//! Palette generation and random colors live outside the engine; the core
//! only carries a color per body for the renderer to read.

use vstd::prelude::*;

verus! {

/// An RGBA color with 8-bit channels.
#[derive(Clone, Copy, Debug, PartialEq, Eq, Structural)]
pub struct ColorRGBA {
    pub r: u8,
    pub g: u8,
    pub b: u8,
    pub a: u8,
}

impl ColorRGBA {
    pub fn new(r: u8, g: u8, b: u8, a: u8) -> (c: Self)
        ensures
            c == (ColorRGBA { r, g, b, a }),
    {
        ColorRGBA { r, g, b, a }
    }

    pub fn red() -> (c: Self)
        ensures
            c == (ColorRGBA { r: 255u8, g: 0u8, b: 0u8, a: 255u8 }),
    {
        ColorRGBA { r: 255, g: 0, b: 0, a: 255 }
    }

    pub fn white() -> (c: Self)
        ensures
            c == (ColorRGBA { r: 255u8, g: 255u8, b: 255u8, a: 255u8 }),
    {
        ColorRGBA { r: 255, g: 255, b: 255, a: 255 }
    }

    pub fn black() -> (c: Self)
        ensures
            c == (ColorRGBA { r: 0u8, g: 0u8, b: 0u8, a: 255u8 }),
    {
        ColorRGBA { r: 0, g: 0, b: 0, a: 255 }
    }

    pub fn gray() -> (c: Self)
        ensures
            c == (ColorRGBA { r: 128u8, g: 128u8, b: 128u8, a: 255u8 }),
    {
        ColorRGBA { r: 128, g: 128, b: 128, a: 255 }
    }

    pub fn orange() -> (c: Self)
        ensures
            c == (ColorRGBA { r: 255u8, g: 165u8, b: 0u8, a: 255u8 }),
    {
        ColorRGBA { r: 255, g: 165, b: 0, a: 255 }
    }

    pub fn blue() -> (c: Self)
        ensures
            c == (ColorRGBA { r: 0u8, g: 0u8, b: 255u8, a: 255u8 }),
    {
        ColorRGBA { r: 0, g: 0, b: 255, a: 255 }
    }

    pub fn transparent() -> (c: Self)
        ensures
            c == (ColorRGBA { r: 0u8, g: 0u8, b: 0u8, a: 0u8 }),
    {
        ColorRGBA { r: 0, g: 0, b: 0, a: 0 }
    }
}

} // verus!
