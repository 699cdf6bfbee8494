//! The identifier of a card: the place it took in the deck after the shuffle.

use vstd::prelude::*;
use crate::text::{decimal, decimal_string};

verus! {

/// The identifier of a card within its deck, or the mark of an identifier
/// that could not be decoded.
#[derive(Copy, Clone, Debug, PartialEq, Eq, PartialOrd, Ord, Structural)]
pub struct CardId {
    value: u8,
}

impl CardId {
    /// The byte that the identifier is kept as.
    pub closed spec fn bits(self) -> u8 {
        self.value
    }

    /// Every identifier is a place in the deck or the invalid mark, which
    /// is the byte with all bits set.
    #[verifier::type_invariant]
    pub open spec fn well_formed(self) -> bool {
        self.bits() < 52 || self.bits() == 0xFF
    }

    /// The identifier that a byte stands for: a byte that is no place in the
    /// deck stands for the invalid mark.
    pub open spec fn decode(value: u8) -> u8 {
        if value >= 52 {
            0xFFu8
        } else {
            value
        }
    }

    /// The identifier that a byte decodes to.
    pub closed spec fn of(value: u8) -> CardId {
        CardId { value: CardId::decode(value) }
    }

    /// Whether the identifier is a place in the deck.
    pub open spec fn valid(self) -> bool {
        self.bits() < 52
    }

    /// The byte that the identifier is kept as.
    pub fn into_bits(self) -> (bits: u8)
        ensures
            bits == self.bits(),
            bits < 52 || bits == 0xFF,
            CardId::of(bits) == self,
    {
        proof {
            use_type_invariant(self);
        }
        self.value
    }

    /// The identifier that a byte stands for. A byte that is no place in
    /// the deck gives the invalid mark.
    pub fn from_bits(value: u8) -> (id: CardId)
        ensures
            id == CardId::of(value),
            id.bits() == CardId::decode(value),
            id.valid() <==> value < 52,
            id.well_formed(),
    {
        if value >= 52 {
            CardId { value: 0xFF }
        } else {
            CardId { value }
        }
    }

    /// An identifier is valid unless it is the invalid mark.
    pub fn is_valid(&self) -> (valid: bool)
        ensures
            valid == self.valid(),
            valid == (self.bits() != 0xFF),
    {
        proof {
            use_type_invariant(self);
        }
        self.value != 0xFF
    }

    /// The identifier as a number.
    pub fn to_string(&self) -> (text: String)
        ensures
            text@ == decimal(self.bits() as nat),
    {
        decimal_string(self.value)
    }
}

impl From<u8> for CardId {
    /// Decodes a byte, as [`CardId::from_bits`] does.
    fn from(value: u8) -> (id: CardId)
        ensures
            id == CardId::of(value),
            id.bits() == CardId::decode(value),
    {
        CardId::from_bits(value)
    }
}

impl vstd::std_specs::convert::FromSpecImpl<u8> for CardId {
    open spec fn obeys_from_spec() -> bool {
        true
    }

    open spec fn from_spec(value: u8) -> CardId {
        CardId::of(value)
    }
}

impl From<CardId> for u8 {
    /// The byte of an identifier, as [`CardId::into_bits`] gives it.
    fn from(id: CardId) -> (bits: u8)
        ensures
            bits == id.bits(),
    {
        id.into_bits()
    }
}

impl vstd::std_specs::convert::FromSpecImpl<CardId> for u8 {
    open spec fn obeys_from_spec() -> bool {
        true
    }

    open spec fn from_spec(id: CardId) -> u8 {
        id.bits()
    }
}

/// Two identifiers kept as the same byte are the same identifier.
pub proof fn lemma_card_id_by_bits(a: CardId, b: CardId)
    requires
        a.bits() == b.bits(),
    ensures
        a == b,
{
}

/// The identifier that a byte decodes to is kept as the decoded byte, and
/// is well formed.
pub proof fn lemma_card_id_of(value: u8)
    ensures
        CardId::of(value).bits() == CardId::decode(value),
        CardId::of(value).well_formed(),
{
}

/// Decoding the byte of an identifier gives the identifier back.
pub proof fn lemma_card_id_round_trip(id: CardId)
    requires
        id.well_formed(),
    ensures
        CardId::of(id.bits()) == id,
{
}

/// A byte that is a place in the deck decodes to a valid identifier that is
/// kept as that byte.
pub proof fn lemma_card_id_in_range(value: u8)
    requires
        value < 52,
    ensures
        CardId::of(value).valid(),
        CardId::of(value).bits() == value,
{
}

/// A byte that is no place in the deck decodes to the invalid mark, which
/// is no valid identifier.
pub proof fn lemma_card_id_out_of_range(value: u8)
    requires
        value >= 52,
    ensures
        CardId::of(value).bits() == 0xFF,
        !CardId::of(value).valid(),
{
}

} // verus!
