//! Colors for drawing to the game window.

use vstd::prelude::*;

verus! {

/// An ARGB color used when rendering to the game window.
#[derive(Clone, Copy, Debug, PartialEq, Eq, Structural)]
pub struct ColorArgs {
    pub a: u8,
    pub r: u8,
    pub g: u8,
    pub b: u8,
}

impl ColorArgs {
    /// Creates a color with the given alpha, red, green, and blue.
    ///
    /// An alpha of 255 is fully opaque, and 0 is fully transparent.
    pub fn argb(a: u8, r: u8, g: u8, b: u8) -> (c: Self)
        ensures
            c == (ColorArgs { a, r, g, b }),
    {
        ColorArgs { a, r, g, b }
    }

    /// Creates an opaque color with the given red, green, and blue.
    pub fn rgb(r: u8, g: u8, b: u8) -> (c: Self)
        ensures
            c == (ColorArgs { a: 255, r, g, b }),
    {
        ColorArgs { a: 255, r, g, b }
    }
}

} // verus!
