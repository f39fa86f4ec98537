use vstd::prelude::*;

verus! {

/// An 8-bit-per-channel RGBA colour, used only for drawing the curve.
#[derive(Clone, Copy, Debug, PartialEq, Eq, Structural)]
pub struct Rgba {
    pub r: u8,
    pub g: u8,
    pub b: u8,
    pub a: u8,
}

impl Rgba {
    /// An opaque colour from its three channels.
    pub fn from_rgb(r: u8, g: u8, b: u8) -> (c: Rgba)
        ensures
            c == (Rgba { r, g, b, a: 255 }),
    {
        Rgba { r, g, b, a: 255 }
    }

    /// A colour from all four channels, taken as they are.
    pub fn from_rgba(r: u8, g: u8, b: u8, a: u8) -> (c: Rgba)
        ensures
            c == (Rgba { r, g, b, a }),
    {
        Rgba { r, g, b, a }
    }

    /// The light red that a fresh model draws with.
    pub fn light_red() -> (c: Rgba)
        ensures
            c == (Rgba { r: 255, g: 128, b: 128, a: 255 }),
    {
        Rgba::from_rgb(255, 128, 128)
    }

    /// The four channels in the order red, green, blue, alpha.
    pub fn to_array(&self) -> (arr: [u8; 4])
        ensures
            arr@ == seq![self.r, self.g, self.b, self.a],
    {
        let arr = [self.r, self.g, self.b, self.a];
        assert(arr@ =~= seq![self.r, self.g, self.b, self.a]);
        arr
    }
}

} // verus!
