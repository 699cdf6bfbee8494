//! Playing cards for a Klondike engine: the packed encoding of a card, the
//! redacted form that is sent to a viewer, the shuffled deck and the bounded
//! piles of the table.

pub mod bounded;
pub mod card;
pub mod card_id;
pub mod color;
pub mod deck;
pub mod fields;
pub mod foundation;
pub mod layout;
pub mod rank;
pub mod stack_full;
pub mod stock;
pub mod table;
pub mod tableau;
pub mod text;
pub mod waste_pile;
pub mod wire;
pub mod wire_deck;
