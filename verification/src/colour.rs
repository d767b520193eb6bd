//! The packed colour value consumed by the video modes.
//!
//! A colour is an opaque 16-bit word holding three 5-bit channels: red in
//! bits 0 to 4, green in bits 5 to 9, blue in bits 10 to 14; bit 15 is
//! unused. Channel inputs wider than 5 bits are masked before packing, so an
//! out-of-range channel silently truncates; that is documented behaviour,
//! not an error.

use vstd::prelude::*;

verus! {

/// Largest value a single 5-bit colour channel can carry.
pub const MAX: u8 = 0x1F;

/// A 16-bit colour, 5 bits per channel.
#[derive(Clone, Copy, Debug, PartialEq, Eq, Structural)]
pub struct Colour(u16);

/// The packed word that `rgb` builds from three channel values: each channel
/// is masked to its low 5 bits, then red sits at bit 0, green at bit 5 and
/// blue at bit 10.
pub open spec fn packed(red: u8, green: u8, blue: u8) -> u16 {
    (((red & 0x1F) as u16) | (((green & 0x1F) as u16) << 5) | (((blue & 0x1F) as u16) << 10))
        as u16
}

impl View for Colour {
    type V = u16;

    /// A colour is, mathematically, its packed 16-bit word.
    closed spec fn view(&self) -> u16 {
        self.0
    }
}

impl Colour {
    /// Wrap a raw packed word directly as a colour.
    pub fn new(v: u16) -> (c: Colour)
        ensures
            c@ == v,
    {
        Colour(v)
    }

    /// Pack three channel values into a colour, masking each channel to 5
    /// bits first.
    pub fn rgb(red: u8, green: u8, blue: u8) -> (c: Colour)
        ensures
            c@ == packed(red, green, blue),
    {
        Colour(
            ((red & 0x1F) as u16) | (((green & 0x1F) as u16) << 5) | (((blue & 0x1F) as u16)
                << 10),
        )
    }

    /// The packed 16-bit word of this colour.
    pub fn u16(&self) -> (v: u16)
        ensures
            v == self@,
    {
        self.0
    }
}

/// Red at full strength.
pub fn red() -> (c: Colour)
    ensures
        c@ == packed(MAX, 0, 0),
{
    Colour::rgb(MAX, 0, 0)
}

/// Orange: full red, half green.
pub fn orange() -> (c: Colour)
    ensures
        c@ == packed(MAX, MAX / 2, 0),
{
    Colour::rgb(MAX, MAX / 2, 0)
}

/// Yellow: full red and green.
pub fn yellow() -> (c: Colour)
    ensures
        c@ == packed(MAX, MAX, 0),
{
    Colour::rgb(MAX, MAX, 0)
}

/// Green at full strength.
pub fn green() -> (c: Colour)
    ensures
        c@ == packed(0, MAX, 0),
{
    Colour::rgb(0, MAX, 0)
}

/// Blue at full strength.
pub fn blue() -> (c: Colour)
    ensures
        c@ == packed(0, 0, MAX),
{
    Colour::rgb(0, 0, MAX)
}

/// Violet: half red, full blue.
pub fn violet() -> (c: Colour)
    ensures
        c@ == packed(MAX / 2, 0, MAX),
{
    Colour::rgb(MAX / 2, 0, MAX)
}

/// White: every channel at full strength.
pub fn white() -> (c: Colour)
    ensures
        c@ == packed(MAX, MAX, MAX),
{
    Colour::rgb(MAX, MAX, MAX)
}

/// Black: every channel at zero.
pub fn black() -> (c: Colour)
    ensures
        c@ == packed(0, 0, 0),
{
    Colour::rgb(0, 0, 0)
}

} // verus!
