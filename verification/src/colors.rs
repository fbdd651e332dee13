//! An RGBA colour value and its packed 32-bit wire form.
//!
//! The native library exchanges colours as a single 32-bit integer laid out
//! as `alpha << 24 | red << 16 | green << 8 | blue`; this layout is
//! load-bearing and must be reproduced exactly.

use vstd::prelude::*;

verus! {

/// The packed colour type the native library exchanges: `0xAARRGGBB`.
pub type ColorT = u32;

/// An RGBA colour repr.
#[derive(Clone, Copy, Debug, Eq, Hash, PartialEq)]
pub struct Color {
    pub red: u8,
    pub green: u8,
    pub blue: u8,
    pub alpha: u8,
}

/// The packed wire form of a colour: `alpha << 24 | red << 16 | green << 8 | blue`.
pub open spec fn spec_pack_color(c: Color) -> u32 {
    ((c.alpha as u32) << 24u32) | ((c.red as u32) << 16u32) | ((c.green as u32) << 8u32)
        | (c.blue as u32)
}

/// The colour whose channels are the four bytes of `t`, highest byte the alpha.
pub open spec fn spec_unpack_color(t: u32) -> Color {
    Color {
        red: ((t >> 16u32) & 0xFF) as u8,
        green: ((t >> 8u32) & 0xFF) as u8,
        blue: (t & 0xFF) as u8,
        alpha: ((t >> 24u32) & 0xFF) as u8,
    }
}

impl Color {
    /// Equivalent to [`from_rgba()`](Color::from_rgba) with full opacity.
    pub fn from_rgb(red: u8, green: u8, blue: u8) -> (r: Self)
        ensures
            r == (Color { red, green, blue, alpha: 0xFF }),
    {
        Color { red, green, blue, alpha: 0xFF }
    }

    pub fn from_rgba(red: u8, green: u8, blue: u8, alpha: u8) -> (r: Self)
        ensures
            r == (Color { red, green, blue, alpha }),
    {
        Color { red, green, blue, alpha }
    }
}

/// Pack a colour into the native library's 32-bit wire form.
pub fn to_color_t(color: Color) -> (r: ColorT)
    ensures
        r == spec_pack_color(color),
{
    ((color.alpha as ColorT) << 24u32) | ((color.red as ColorT) << 16u32)
        | ((color.green as ColorT) << 8u32) | (color.blue as ColorT)
}

/// Unpack the native library's 32-bit wire form into a colour.
pub fn from_color_t(color: ColorT) -> (r: Color)
    ensures
        r == spec_unpack_color(color),
{
    proof {
        assert((color >> 24u32) & 0xFF < 256 && (color >> 16u32) & 0xFF < 256 && (color
            >> 8u32) & 0xFF < 256 && color & 0xFF < 256) by (bit_vector);
    }
    let alpha = ((color >> 24u32) & 0xFF) as u8;
    let red = ((color >> 16u32) & 0xFF) as u8;
    let green = ((color >> 8u32) & 0xFF) as u8;
    let blue = (color & 0xFF) as u8;

    Color::from_rgba(red, green, blue, alpha)
}

/// Law: packing a colour into the 32-bit wire form and unpacking the result
/// returns the original byte quadruple exactly.
pub proof fn lemma_color_wire_roundtrip(c: Color)
    ensures
        spec_unpack_color(spec_pack_color(c)) == c,
{
    let a = c.alpha;
    let r = c.red;
    let g = c.green;
    let b = c.blue;
    let t = spec_pack_color(c);
    assert(t == ((a as u32) << 24u32) | ((r as u32) << 16u32) | ((g as u32) << 8u32) | (
    b as u32));
    assert(((((a as u32) << 24u32) | ((r as u32) << 16u32) | ((g as u32) << 8u32) | (
    b as u32)) >> 16u32) & 0xFF == r as u32) by (bit_vector);
    assert(((((a as u32) << 24u32) | ((r as u32) << 16u32) | ((g as u32) << 8u32) | (
    b as u32)) >> 8u32) & 0xFF == g as u32) by (bit_vector);
    assert(((((a as u32) << 24u32) | ((r as u32) << 16u32) | ((g as u32) << 8u32) | (
    b as u32)) & 0xFF) == b as u32) by (bit_vector);
    assert(((((a as u32) << 24u32) | ((r as u32) << 16u32) | ((g as u32) << 8u32) | (
    b as u32)) >> 24u32) & 0xFF == a as u32) by (bit_vector);
    assert(spec_unpack_color(t).red == r);
    assert(spec_unpack_color(t).green == g);
    assert(spec_unpack_color(t).blue == b);
    assert(spec_unpack_color(t).alpha == a);
}

} // verus!
