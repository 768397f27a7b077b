//! Colors of a black/white panel.
use vstd::prelude::*;

verus! {

/// A pixel color of a black/white e-paper panel.
#[derive(Clone, Copy, Debug, PartialEq, Eq, Structural)]
pub enum Color {
    /// Black pixel.
    Black,
    /// White pixel.
    White,
}

impl Color {
    /// The byte that fills eight pixels of this color.
    pub open spec fn byte_value(self) -> u8 {
        match self {
            Color::White => 0xff,
            Color::Black => 0x00,
        }
    }

    /// The value of a single pixel of this color.
    pub open spec fn bit_value(self) -> u8 {
        match self {
            Color::White => 1,
            Color::Black => 0,
        }
    }

    /// Returns the byte that fills eight pixels of this color.
    pub fn get_byte_value(self) -> (b: u8)
        ensures
            b == self.byte_value(),
    {
        match self {
            Color::White => 0xff,
            Color::Black => 0x00,
        }
    }

    /// Returns the bit value of a single pixel of this color.
    pub fn get_bit_value(self) -> (b: u8)
        ensures
            b == self.bit_value(),
    {
        match self {
            Color::White => 1,
            Color::Black => 0,
        }
    }
}

} // verus!
