//! The five fields of a card, apart from the word that they are packed in.

use vstd::prelude::*;
use crate::card_id::CardId;
use crate::color::Color;
use crate::layout::{color_field, rank_field, revealed_flag, facing_up_flag, id_field};
use crate::rank::Rank;

verus! {

/// What a card says: the model that the contracts of cards speak of.
pub struct CardFields {
    /// The suit, or `Unknown`.
    pub color: Color,
    /// The rank, or `Unknown`.
    pub rank: Rank,
    /// The byte of the identifier: a place in the deck, or the invalid
    /// mark.
    pub id: u8,
    /// Whether the card has ever been shown to a player.
    pub ever_revealed: bool,
    /// Whether the card faces up now.
    pub currently_facing_up: bool,
}

/// The fields that a word holds. Codes that stand for no suit, rank or
/// place in the deck read as `Unknown` and as the invalid mark.
pub open spec fn fields_of(word: u16) -> CardFields {
    CardFields {
        color: Color::decode(color_field(word)),
        rank: Rank::decode(rank_field(word)),
        id: CardId::decode(id_field(word)),
        ever_revealed: revealed_flag(word),
        currently_facing_up: facing_up_flag(word),
    }
}

/// What a viewer may know of a card. Once the card was revealed that is
/// all of it. Before, it is the identifier alone: suit and rank are unknown
/// and the card counts as facing down.
pub open spec fn redacted_fields(fields: CardFields) -> CardFields {
    if fields.ever_revealed {
        fields
    } else {
        CardFields {
            color: Color::Unknown,
            rank: Rank::Unknown,
            id: fields.id,
            ever_revealed: false,
            currently_facing_up: false,
        }
    }
}

} // verus!
