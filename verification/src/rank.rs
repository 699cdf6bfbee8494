//! The rank of a card and its five-bit code.
//!
//! `Unknown` is all zeroes. The thirteen real ranks take the codes sixteen to
//! twenty-eight, in the order ace, two to ten, jack, queen, king.

use vstd::prelude::*;
use vstd::string::*;

verus! {

/// The rank of a card, or `Unknown` where the rank is not disclosed.
#[derive(Copy, Clone, Debug, PartialEq, Eq, PartialOrd, Ord, Structural)]
pub enum Rank {
    Unknown,
    A,
    Two,
    Three,
    Four,
    Five,
    Six,
    Seven,
    Eight,
    Nine,
    Ten,
    J,
    Q,
    K,
}

impl Rank {
    /// The five-bit code of a rank.
    pub open spec fn bits(self) -> u8 {
        match self {
            Rank::Unknown => 0u8,
            Rank::A => 0b10000u8,
            Rank::Two => 0b10001u8,
            Rank::Three => 0b10010u8,
            Rank::Four => 0b10011u8,
            Rank::Five => 0b10100u8,
            Rank::Six => 0b10101u8,
            Rank::Seven => 0b10110u8,
            Rank::Eight => 0b10111u8,
            Rank::Nine => 0b11000u8,
            Rank::Ten => 0b11001u8,
            Rank::J => 0b11010u8,
            Rank::Q => 0b11011u8,
            Rank::K => 0b11100u8,
        }
    }

    /// The rank that a byte stands for: every byte that is no rank's code
    /// stands for `Unknown`.
    pub open spec fn decode(value: u8) -> Rank {
        if value == 0b10000u8 {
            Rank::A
        } else if value == 0b10001u8 {
            Rank::Two
        } else if value == 0b10010u8 {
            Rank::Three
        } else if value == 0b10011u8 {
            Rank::Four
        } else if value == 0b10100u8 {
            Rank::Five
        } else if value == 0b10101u8 {
            Rank::Six
        } else if value == 0b10110u8 {
            Rank::Seven
        } else if value == 0b10111u8 {
            Rank::Eight
        } else if value == 0b11000u8 {
            Rank::Nine
        } else if value == 0b11001u8 {
            Rank::Ten
        } else if value == 0b11010u8 {
            Rank::J
        } else if value == 0b11011u8 {
            Rank::Q
        } else if value == 0b11100u8 {
            Rank::K
        } else {
            Rank::Unknown
        }
    }

    /// The printed symbol of a rank.
    pub open spec fn symbol(self) -> Seq<char> {
        match self {
            Rank::Unknown => "?"@,
            Rank::A => "A"@,
            Rank::Two => "2"@,
            Rank::Three => "3"@,
            Rank::Four => "4"@,
            Rank::Five => "5"@,
            Rank::Six => "6"@,
            Rank::Seven => "7"@,
            Rank::Eight => "8"@,
            Rank::Nine => "9"@,
            Rank::Ten => "10"@,
            Rank::J => "J"@,
            Rank::Q => "Q"@,
            Rank::K => "K"@,
        }
    }

    /// Whether the rank is one of the thirteen real ones.
    pub open spec fn known(self) -> bool {
        self != Rank::Unknown
    }

    /// The five-bit code of the rank.
    pub fn into_bits(self) -> (bits: u8)
        ensures
            bits == self.bits(),
            bits < 32,
    {
        match self {
            Rank::Unknown => 0,
            Rank::A => 0b10000,
            Rank::Two => 0b10001,
            Rank::Three => 0b10010,
            Rank::Four => 0b10011,
            Rank::Five => 0b10100,
            Rank::Six => 0b10101,
            Rank::Seven => 0b10110,
            Rank::Eight => 0b10111,
            Rank::Nine => 0b11000,
            Rank::Ten => 0b11001,
            Rank::J => 0b11010,
            Rank::Q => 0b11011,
            Rank::K => 0b11100,
        }
    }

    /// The rank that a byte stands for; `Unknown` for a byte that is no
    /// rank's code.
    pub fn from_bits(value: u8) -> (rank: Rank)
        ensures
            rank == Rank::decode(value),
    {
        match value {
            0b10000 => Rank::A,
            0b10001 => Rank::Two,
            0b10010 => Rank::Three,
            0b10011 => Rank::Four,
            0b10100 => Rank::Five,
            0b10101 => Rank::Six,
            0b10110 => Rank::Seven,
            0b10111 => Rank::Eight,
            0b11000 => Rank::Nine,
            0b11001 => Rank::Ten,
            0b11010 => Rank::J,
            0b11011 => Rank::Q,
            0b11100 => Rank::K,
            _ => Rank::Unknown,
        }
    }

    /// Reads the "known" bit of the code.
    pub fn is_known(&self) -> (known: bool)
        ensures
            known == self.known(),
    {
        let bits: u8 = self.into_bits();
        assert((((bits >> 4) & 1) == 1) == (bits != 0)) by (bit_vector)
            requires
                bits == 0 || 16 <= bits <= 28,
        ;
        ((bits >> 4) & 1) == 1
    }

    /// The printed symbol: `?` for an unknown rank.
    pub fn to_string(&self) -> (text: String)
        ensures
            text@ == self.symbol(),
    {
        match self {
            Rank::Unknown => String::from_str("?"),
            Rank::A => String::from_str("A"),
            Rank::Two => String::from_str("2"),
            Rank::Three => String::from_str("3"),
            Rank::Four => String::from_str("4"),
            Rank::Five => String::from_str("5"),
            Rank::Six => String::from_str("6"),
            Rank::Seven => String::from_str("7"),
            Rank::Eight => String::from_str("8"),
            Rank::Nine => String::from_str("9"),
            Rank::Ten => String::from_str("10"),
            Rank::J => String::from_str("J"),
            Rank::Q => String::from_str("Q"),
            Rank::K => String::from_str("K"),
        }
    }
}

/// Decoding the code of a rank gives the rank back.
pub proof fn lemma_rank_round_trip(rank: Rank)
    ensures
        Rank::decode(rank.bits()) == rank,
{
}

/// A byte that is the code of no rank decodes to `Unknown`.
pub proof fn lemma_rank_decode_undefined(value: u8)
    requires
        forall|rank: Rank| rank.bits() != value,
    ensures
        Rank::decode(value) == Rank::Unknown,
{
    assert(Rank::A.bits() != value);
    assert(Rank::Two.bits() != value);
    assert(Rank::Three.bits() != value);
    assert(Rank::Four.bits() != value);
    assert(Rank::Five.bits() != value);
    assert(Rank::Six.bits() != value);
    assert(Rank::Seven.bits() != value);
    assert(Rank::Eight.bits() != value);
    assert(Rank::Nine.bits() != value);
    assert(Rank::Ten.bits() != value);
    assert(Rank::J.bits() != value);
    assert(Rank::Q.bits() != value);
    assert(Rank::K.bits() != value);
}

/// No two ranks share a code.
pub proof fn lemma_rank_bits_injective(a: Rank, b: Rank)
    requires
        a.bits() == b.bits(),
    ensures
        a == b,
{
}

} // verus!
