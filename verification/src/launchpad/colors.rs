//! LED colours of a red/green controller.

use vstd::prelude::*;

verus! {

/// A value that an LED can be set to.
pub trait Color: Sized + Copy {

}

/// A red/green colour as the controller expects it in the velocity byte of a
/// message: red in bits 0 and 1, green in bits 4 and 5, every other bit clear.
pub type RGColor = u8;

impl Color for RGColor {

}

/// The colour byte with the given intensities.  Only the two low bits of each
/// intensity count.
pub open spec fn rg_color(red: u8, green: u8) -> u8 {
    ((green % 4) * 16 + red % 4) as u8
}

/// The red intensity held in a colour byte.
pub open spec fn red_of(color: u8) -> u8 {
    color % 4
}

/// The green intensity held in a colour byte.
pub open spec fn green_of(color: u8) -> u8 {
    (color / 16) % 4
}

/// Packs a red and a green intensity (0 to 3 each) into one colour byte.
/// Intensities above 3 are reduced to their two low bits.
pub fn rg_color_code(red: u8, green: u8) -> (color: RGColor)
    ensures
        color == rg_color(red, green),
        color == ((green & 3) << 4) | (red & 3),
        color & 0xcc == 0,
        red_of(color) == red % 4,
        green_of(color) == green % 4,
{
    let color: u8 = ((green & 0b0000_0011) << 4) | (red & 0b0000_0011);
    proof {
        assert(((green & 3) << 4) | (red & 3) == ((green % 4) * 16 + red % 4) as u8) by (bit_vector);
        assert((((green & 3) << 4) | (red & 3)) & 0xcc == 0) by (bit_vector);
    }
    color
}

/// A colour byte gives back the intensities it was made from, and sets no bit
/// outside positions 0, 1, 4 and 5.
pub proof fn lemma_rg_color_decodes(red: u8, green: u8)
    ensures
        red_of(rg_color(red, green)) == red % 4,
        green_of(rg_color(red, green)) == green % 4,
        rg_color(red, green) & 0xcc == 0,
        rg_color(red, green) <= 0x33,
{
    let c = rg_color(red, green);
    assert(c & 0xcc == 0) by (bit_vector)
        requires
            c == ((green % 4) * 16 + red % 4) as u8,
    ;
}

/// Two pairs of intensities in range that pack to the same byte are the same
/// pair.
pub proof fn lemma_rg_color_injective(red1: u8, green1: u8, red2: u8, green2: u8)
    requires
        red1 <= 3,
        green1 <= 3,
        red2 <= 3,
        green2 <= 3,
        rg_color(red1, green1) == rg_color(red2, green2),
    ensures
        red1 == red2,
        green1 == green2,
{
    lemma_rg_color_decodes(red1, green1);
    lemma_rg_color_decodes(red2, green2);
}

} // verus!
