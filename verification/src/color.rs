//! The suit of a card and its three-bit code.
//!
//! `Unknown` is all zeroes. A real suit has bit 2 set ("known"); bit 0 tells
//! red from black and bit 1 tells the two suits of one colour apart.

use vstd::prelude::*;
use vstd::string::*;

verus! {

/// The suit of a card, or `Unknown` where the suit is not disclosed.
#[derive(Copy, Clone, Debug, PartialEq, Eq, PartialOrd, Ord, Structural)]
pub enum Color {
    Unknown,
    Spades,
    Hearts,
    Clubs,
    Diamonds,
}

impl Color {
    /// The three-bit code of a suit.
    pub open spec fn bits(self) -> u8 {
        match self {
            Color::Unknown => 0u8,
            Color::Spades => 0b100u8,
            Color::Hearts => 0b101u8,
            Color::Clubs => 0b110u8,
            Color::Diamonds => 0b111u8,
        }
    }

    /// The suit that a byte stands for: every byte that is no suit's code
    /// stands for `Unknown`.
    pub open spec fn decode(value: u8) -> Color {
        if value == 0b100u8 {
            Color::Spades
        } else if value == 0b101u8 {
            Color::Hearts
        } else if value == 0b110u8 {
            Color::Clubs
        } else if value == 0b111u8 {
            Color::Diamonds
        } else {
            Color::Unknown
        }
    }

    /// The printed symbol of a suit.
    pub open spec fn symbol(self) -> Seq<char> {
        match self {
            Color::Unknown => "?"@,
            Color::Spades => "♠"@,
            Color::Hearts => "♥"@,
            Color::Clubs => "♣"@,
            Color::Diamonds => "♦"@,
        }
    }

    /// Whether the suit is one of the four real ones.
    pub open spec fn known(self) -> bool {
        self != Color::Unknown
    }

    /// The three-bit code of the suit.
    pub fn into_bits(self) -> (bits: u8)
        ensures
            bits == self.bits(),
            bits < 8,
    {
        match self {
            Color::Unknown => 0,
            Color::Spades => 0b100,
            Color::Hearts => 0b101,
            Color::Clubs => 0b110,
            Color::Diamonds => 0b111,
        }
    }

    /// The suit that a byte stands for; `Unknown` for a byte that is no
    /// suit's code.
    pub fn from_bits(value: u8) -> (color: Color)
        ensures
            color == Color::decode(value),
    {
        match value {
            0b100 => Color::Spades,
            0b101 => Color::Hearts,
            0b110 => Color::Clubs,
            0b111 => Color::Diamonds,
            _ => Color::Unknown,
        }
    }

    /// Reads the "known" bit of the code.
    pub fn is_known(&self) -> (known: bool)
        ensures
            known == self.known(),
    {
        let bits: u8 = self.into_bits();
        assert((((bits >> 2) & 1) == 1) == (bits != 0)) by (bit_vector)
            requires
                bits == 0 || bits == 4 || bits == 5 || bits == 6 || bits == 7,
        ;
        ((bits >> 2) & 1) == 1
    }

    /// Reads the "red" bit of the code; an unknown suit has no colour.
    pub fn is_red(&self) -> (red: Option<bool>)
        ensures
            red.is_none() <==> *self == Color::Unknown,
            red == Some(true) <==> (*self == Color::Hearts || *self == Color::Diamonds),
            red == Some(false) <==> (*self == Color::Spades || *self == Color::Clubs),
    {
        let bits: u8 = self.into_bits();
        if bits == 0 {
            None
        } else {
            assert(((bits & 1) == 1) == (bits == 5 || bits == 7)) by (bit_vector)
                requires
                    bits == 4 || bits == 5 || bits == 6 || bits == 7,
            ;
            Some((bits & 1) == 1)
        }
    }

    /// The printed symbol: `?` for an unknown suit.
    pub fn to_string(&self) -> (text: String)
        ensures
            text@ == self.symbol(),
    {
        match self {
            Color::Unknown => String::from_str("?"),
            Color::Spades => String::from_str("♠"),
            Color::Hearts => String::from_str("♥"),
            Color::Clubs => String::from_str("♣"),
            Color::Diamonds => String::from_str("♦"),
        }
    }
}

/// Decoding the code of a suit gives the suit back.
pub proof fn lemma_color_round_trip(color: Color)
    ensures
        Color::decode(color.bits()) == color,
{
}

/// A byte that is the code of no suit decodes to `Unknown`.
pub proof fn lemma_color_decode_undefined(value: u8)
    requires
        forall|color: Color| color.bits() != value,
    ensures
        Color::decode(value) == Color::Unknown,
{
    assert(Color::Spades.bits() != value);
    assert(Color::Hearts.bits() != value);
    assert(Color::Clubs.bits() != value);
    assert(Color::Diamonds.bits() != value);
}

/// No two suits share a code.
pub proof fn lemma_color_bits_injective(a: Color, b: Color)
    requires
        a.bits() == b.bits(),
    ensures
        a == b,
{
}

} // verus!
