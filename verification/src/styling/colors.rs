//! Colours with an alpha channel.

use vstd::prelude::*;
use vstd::std_specs::convert::FromSpecImpl;

verus! {

/// A colour in four eight-bit channels.
#[derive(Debug, Clone, Copy, PartialEq, Eq, Structural)]
pub struct Color {
    pub red: u8,
    pub green: u8,
    pub blue: u8,
    pub alpha: u8,
}

/// The colour that a number written `0xAARRGGBB` names. A number whose alpha
/// byte is zero names the opaque colour of its other three bytes.
pub open spec fn color_of(color: u32) -> Color {
    Color {
        red: ((color / 0x1_0000) % 0x100) as u8,
        green: ((color / 0x100) % 0x100) as u8,
        blue: (color % 0x100) as u8,
        alpha: if color / 0x100_0000 == 0 {
            255u8
        } else {
            (color / 0x100_0000) as u8
        },
    }
}

/// The number `0xRRGGBBAA` of a colour.
pub open spec fn packed(color: Color) -> u32 {
    (color.red * 0x100_0000 + color.green * 0x1_0000 + color.blue * 0x100 + color.alpha) as u32
}

impl Color {
    /// An opaque colour.
    #[must_use]
    pub fn from_rgb(red: u8, green: u8, blue: u8) -> (r: Self)
        ensures
            r == (Color { red, green, blue, alpha: 255 }),
    {
        Self { red, green, blue, alpha: 255 }
    }

    #[must_use]
    pub fn from_rgba(red: u8, green: u8, blue: u8, alpha: u8) -> (r: Self)
        ensures
            r == (Color { red, green, blue, alpha }),
    {
        Self { red, green, blue, alpha }
    }

    /// The colour that `0xAARRGGBB` names, opaque where the alpha byte is
    /// zero.
    #[must_use]
    pub fn from_u32(color: u32) -> (r: Self)
        ensures
            r == color_of(color),
    {
        let filled: u32 = if color & 0xFF00_0000 == 0 {
            color | 0xFF00_0000
        } else {
            color
        };
        let alpha = ((filled >> 24) & 0xFF) as u8;
        let red = ((filled >> 16) & 0xFF) as u8;
        let green = ((filled >> 8) & 0xFF) as u8;
        let blue = (filled & 0xFF) as u8;
        assert(color & 0xFF00_0000 == 0 <==> color / 0x100_0000 == 0) by (bit_vector);
        assert(color & 0xFF00_0000 == 0 ==> ((color | 0xFF00_0000) >> 24) & 0xFF == 255)
            by (bit_vector);
        assert(((color | 0xFF00_0000) >> 16) & 0xFF == (color / 0x1_0000) % 0x100)
            by (bit_vector);
        assert(((color | 0xFF00_0000) >> 8) & 0xFF == (color / 0x100) % 0x100) by (bit_vector);
        assert((color | 0xFF00_0000) & 0xFF == color % 0x100) by (bit_vector);
        assert((color >> 24) & 0xFF == color / 0x100_0000) by (bit_vector);
        assert((color >> 16) & 0xFF == (color / 0x1_0000) % 0x100) by (bit_vector);
        assert((color >> 8) & 0xFF == (color / 0x100) % 0x100) by (bit_vector);
        assert(color & 0xFF == color % 0x100) by (bit_vector);
        Self::from_rgba(red, green, blue, alpha)
    }

    /// The number `0xRRGGBBAA` of the colour.
    #[must_use]
    pub fn as_u32(&self) -> (r: u32)
        ensures
            r == packed(*self),
    {
        let red: u32 = self.red as u32;
        let green: u32 = self.green as u32;
        let blue: u32 = self.blue as u32;
        let alpha: u32 = self.alpha as u32;
        assert((red << 24) | (green << 16) | (blue << 8) | alpha == red * 0x100_0000 + green
            * 0x1_0000 + blue * 0x100 + alpha) by (bit_vector)
            requires
                red < 256,
                green < 256,
                blue < 256,
                alpha < 256,
        ;
        (red << 24) | (green << 16) | (blue << 8) | alpha
    }
}

impl From<u32> for Color {
    fn from(value: u32) -> (r: Self) {
        Color::from_u32(value)
    }
}

impl FromSpecImpl<u32> for Color {
    open spec fn obeys_from_spec() -> bool {
        true
    }

    open spec fn from_spec(value: u32) -> Self {
        color_of(value)
    }
}

} // verus!
