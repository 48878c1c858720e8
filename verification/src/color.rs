use vstd::prelude::*;

verus! {

/// An 8-bit RGBA colour, alpha last. Colours built by `opaque` have alpha 255.
#[derive(Clone, Copy, Debug, PartialEq, Eq, Structural)]
pub struct Rgba8 {
    pub r: u8,
    pub g: u8,
    pub b: u8,
    pub a: u8,
}

impl Rgba8 {
    /// An opaque colour from its red, green and blue channels.
    pub fn opaque(r: u8, g: u8, b: u8) -> (c: Rgba8)
        ensures
            c == (Rgba8 { r, g, b, a: 255 }),
    {
        Rgba8 { r, g, b, a: 255 }
    }

    /// A colour whose channels are already premultiplied by alpha.
    pub fn premultiplied(r: u8, g: u8, b: u8, a: u8) -> (c: Rgba8)
        ensures
            c == (Rgba8 { r, g, b, a }),
    {
        Rgba8 { r, g, b, a }
    }

    /// An opaque grey of the given lightness.
    pub fn gray(l: u8) -> (c: Rgba8)
        ensures
            c == (Rgba8 { r: l, g: l, b: l, a: 255 }),
    {
        Rgba8 { r: l, g: l, b: l, a: 255 }
    }

    /// Opaque white.
    pub fn white() -> (c: Rgba8)
        ensures
            c == (Rgba8 { r: 255, g: 255, b: 255, a: 255 }),
    {
        Rgba8 { r: 255, g: 255, b: 255, a: 255 }
    }
}

} // verus!
