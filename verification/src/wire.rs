//! A card as it is sent to a viewer, and the rule that blanks what the viewer
//! may not know yet.

use vstd::prelude::*;
use crate::card_id::CardId;
use crate::color::Color;
use crate::fields::{CardFields, fields_of};
use crate::layout::{
    color_field, rank_field, revealed_flag, facing_up_flag, id_field, pack, lemma_pack_fields,
    lemma_fields_of_pack, lemma_zero_word, get_color, get_rank, get_revealed, get_facing_up, get_id,
};
use crate::rank::Rank;
use crate::text::{face_text, full_text, joined, face_string, full_string};
use vstd::string::*;
use crate::card::Card;
use crate::fields::redacted_fields;

verus! {

/// A card as it is sent to a viewer. It has the fields of [`Card`], kept in
/// the same word; suit and rank are blanked for as long as the card was never
/// revealed.
#[derive(Copy, Clone, Debug, PartialEq, Eq, Structural)]
pub struct WireCardServerOrigin {
    bits: u16,
}

impl View for WireCardServerOrigin {
    type V = CardFields;

    /// The five fields of the card.
    open spec fn view(&self) -> CardFields {
        fields_of(self.word())
    }
}

impl WireCardServerOrigin {
    /// The sixteen-bit word that the card is kept as.
    pub closed spec fn word(self) -> u16 {
        self.bits
    }

    /// The card that a word is kept as: every word is a card.
    pub closed spec fn of_word(word: u16) -> WireCardServerOrigin {
        WireCardServerOrigin { bits: word }
    }

    /// The suit of the card.
    pub open spec fn spec_color(self) -> Color {
        self@.color
    }

    /// The rank of the card.
    pub open spec fn spec_rank(self) -> Rank {
        self@.rank
    }

    /// Whether the card has ever been shown to a player.
    pub open spec fn spec_ever_revealed(self) -> bool {
        self@.ever_revealed
    }

    /// Whether the card faces up now.
    pub open spec fn spec_currently_facing_up(self) -> bool {
        self@.currently_facing_up
    }

    /// The byte of the card's identifier.
    pub open spec fn spec_id(self) -> u8 {
        self@.id
    }

    /// The six bits that an identifier is kept in: a place in the deck as
    /// it is, the invalid mark as six set bits.
    pub open spec fn id_bits(id: u8) -> u8 {
        if id < 52 {
            id
        } else {
            63u8
        }
    }

    /// Whether the card keeps the rule of the table that only a card that
    /// was revealed may face up. The word itself does not enforce the rule.
    pub open spec fn consistent(self) -> bool {
        self.spec_currently_facing_up() ==> self.spec_ever_revealed()
    }

    /// What a player sees of the card.
    pub open spec fn text(self) -> Seq<char> {
        face_text(
            self.spec_color(),
            self.spec_rank(),
            self.spec_ever_revealed(),
            self.spec_currently_facing_up(),
        )
    }

    /// Every field of the card, whatever a player may see.
    pub open spec fn debug_text(self) -> Seq<char> {
        full_text(
            self.spec_color(),
            self.spec_rank(),
            self.spec_id(),
            self.spec_ever_revealed(),
            self.spec_currently_facing_up(),
        )
    }

    /// The card of the zero word: suit and rank unknown, never revealed,
    /// facing down, identifier zero.
    pub fn new() -> (card: WireCardServerOrigin)
        ensures
            card.word() == 0,
            card.word() == pack(0, 0, false, false, 0),
            card@ == (CardFields {
                color: Color::Unknown,
                rank: Rank::Unknown,
                id: 0,
                ever_revealed: false,
                currently_facing_up: false,
            }),
    {
        proof {
            lemma_zero_word();
        }
        WireCardServerOrigin { bits: 0 }
    }

    /// The card that is kept as a word. Every word is a card.
    pub fn from_bits(bits: u16) -> (card: WireCardServerOrigin)
        ensures
            card.word() == bits,
            card == WireCardServerOrigin::of_word(bits),
    {
        WireCardServerOrigin { bits }
    }

    /// The word that the card is kept as.
    pub fn into_bits(self) -> (bits: u16)
        ensures
            bits == self.word(),
    {
        self.bits
    }

    /// The suit of the card.
    pub fn color(&self) -> (color: Color)
        ensures
            color == self.spec_color(),
    {
        Color::from_bits(get_color(self.bits))
    }

    /// The rank of the card.
    pub fn rank(&self) -> (rank: Rank)
        ensures
            rank == self.spec_rank(),
    {
        Rank::from_bits(get_rank(self.bits))
    }

    /// Whether the card has ever been shown to a player.
    pub fn ever_revealed(&self) -> (revealed: bool)
        ensures
            revealed == self.spec_ever_revealed(),
    {
        get_revealed(self.bits)
    }

    /// Whether the card faces up now.
    pub fn currently_facing_up(&self) -> (facing_up: bool)
        ensures
            facing_up == self.spec_currently_facing_up(),
    {
        get_facing_up(self.bits)
    }

    /// The identifier of the card. Six bits that are no place in the deck
    /// give the invalid mark.
    pub fn id(&self) -> (id: CardId)
        ensures
            id.bits() == self.spec_id(),
            id.valid() <==> id_field(self.word()) < 52,
    {
        CardId::from_bits(get_id(self.bits))
    }

    /// Tells whether the card keeps the rule that only a card that was
    /// revealed may face up.
    pub fn is_consistent(&self) -> (consistent: bool)
        ensures
            consistent == self.consistent(),
    {
        !self.currently_facing_up() || self.ever_revealed()
    }

    /// The byte of the card's identifier.
    pub fn id_byte(&self) -> (byte: u8)
        ensures
            byte == self.spec_id(),
    {
        self.id().into_bits()
    }

    /// The same card with another suit.
    pub fn with_color(self, color: Color) -> (card: WireCardServerOrigin)
        ensures
            card.word() == pack(
                color.bits(),
                rank_field(self.word()),
                revealed_flag(self.word()),
                facing_up_flag(self.word()),
                id_field(self.word()),
            ),
            card@ == (CardFields {
                color: color,
                rank: self@.rank,
                id: self@.id,
                ever_revealed: self@.ever_revealed,
                currently_facing_up: self@.currently_facing_up,
            }),
    {
        let bits: u16 = crate::layout::set_color(self.bits, color.into_bits());
        proof {
            lemma_pack_fields(self.bits);
            lemma_fields_of_pack(
                color.bits(),
                rank_field(self.bits),
                revealed_flag(self.bits),
                facing_up_flag(self.bits),
                id_field(self.bits),
            );
        }
        WireCardServerOrigin { bits }
    }

    /// The same card with another rank.
    pub fn with_rank(self, rank: Rank) -> (card: WireCardServerOrigin)
        ensures
            card.word() == pack(
                color_field(self.word()),
                rank.bits(),
                revealed_flag(self.word()),
                facing_up_flag(self.word()),
                id_field(self.word()),
            ),
            card@ == (CardFields {
                color: self@.color,
                rank: rank,
                id: self@.id,
                ever_revealed: self@.ever_revealed,
                currently_facing_up: self@.currently_facing_up,
            }),
    {
        let bits: u16 = crate::layout::set_rank(self.bits, rank.into_bits());
        proof {
            lemma_pack_fields(self.bits);
            lemma_fields_of_pack(
                color_field(self.bits),
                rank.bits(),
                revealed_flag(self.bits),
                facing_up_flag(self.bits),
                id_field(self.bits),
            );
        }
        WireCardServerOrigin { bits }
    }

    /// The same card with the "ever revealed" flag as given.
    pub fn with_ever_revealed(self, revealed: bool) -> (card: WireCardServerOrigin)
        ensures
            card.word() == pack(
                color_field(self.word()),
                rank_field(self.word()),
                revealed,
                facing_up_flag(self.word()),
                id_field(self.word()),
            ),
            card@ == (CardFields {
                color: self@.color,
                rank: self@.rank,
                id: self@.id,
                ever_revealed: revealed,
                currently_facing_up: self@.currently_facing_up,
            }),
    {
        let bits: u16 = crate::layout::set_revealed(self.bits, revealed);
        proof {
            lemma_pack_fields(self.bits);
            lemma_fields_of_pack(
                color_field(self.bits),
                rank_field(self.bits),
                revealed,
                facing_up_flag(self.bits),
                id_field(self.bits),
            );
        }
        WireCardServerOrigin { bits }
    }

    /// The same card with the "currently facing up" flag as given. Nothing
    /// here stops a card from facing up that was never revealed: callers
    /// keep to that rule.
    pub fn with_currently_facing_up(self, facing_up: bool) -> (card: WireCardServerOrigin)
        ensures
            card.word() == pack(
                color_field(self.word()),
                rank_field(self.word()),
                revealed_flag(self.word()),
                facing_up,
                id_field(self.word()),
            ),
            card@ == (CardFields {
                color: self@.color,
                rank: self@.rank,
                id: self@.id,
                ever_revealed: self@.ever_revealed,
                currently_facing_up: facing_up,
            }),
    {
        let bits: u16 = crate::layout::set_facing_up(self.bits, facing_up);
        proof {
            lemma_pack_fields(self.bits);
            lemma_fields_of_pack(
                color_field(self.bits),
                rank_field(self.bits),
                revealed_flag(self.bits),
                facing_up,
                id_field(self.bits),
            );
        }
        WireCardServerOrigin { bits }
    }

    /// The same card with another identifier.
    pub fn with_id(self, id: CardId) -> (card: WireCardServerOrigin)
        ensures
            card.word() == pack(
                color_field(self.word()),
                rank_field(self.word()),
                revealed_flag(self.word()),
                facing_up_flag(self.word()),
                WireCardServerOrigin::id_bits(id.bits()),
            ),
            card@ == (CardFields {
                color: self@.color,
                rank: self@.rank,
                id: id.bits(),
                ever_revealed: self@.ever_revealed,
                currently_facing_up: self@.currently_facing_up,
            }),
    {
        let raw: u8 = id.into_bits();
        let six: u8 = if raw < 52 {
            raw
        } else {
            63
        };
        let bits: u16 = crate::layout::set_id(self.bits, six);
        proof {
            lemma_pack_fields(self.bits);
            lemma_fields_of_pack(
                color_field(self.bits),
                rank_field(self.bits),
                revealed_flag(self.bits),
                facing_up_flag(self.bits),
                six,
            );
        }
        WireCardServerOrigin { bits }
    }

    /// Gives the card another suit.
    pub fn set_color(&mut self, color: Color)
        ensures
            final(self).word() == pack(
                color.bits(),
                rank_field(old(self).word()),
                revealed_flag(old(self).word()),
                facing_up_flag(old(self).word()),
                id_field(old(self).word()),
            ),
            final(self)@ == (CardFields {
                color: color,
                rank: old(self)@.rank,
                id: old(self)@.id,
                ever_revealed: old(self)@.ever_revealed,
                currently_facing_up: old(self)@.currently_facing_up,
            }),
    {
        let card = self.with_color(color);
        *self = card;
    }

    /// Gives the card another rank.
    pub fn set_rank(&mut self, rank: Rank)
        ensures
            final(self).word() == pack(
                color_field(old(self).word()),
                rank.bits(),
                revealed_flag(old(self).word()),
                facing_up_flag(old(self).word()),
                id_field(old(self).word()),
            ),
            final(self)@ == (CardFields {
                color: old(self)@.color,
                rank: rank,
                id: old(self)@.id,
                ever_revealed: old(self)@.ever_revealed,
                currently_facing_up: old(self)@.currently_facing_up,
            }),
    {
        let card = self.with_rank(rank);
        *self = card;
    }

    /// Sets or clears the "ever revealed" flag.
    pub fn set_ever_revealed(&mut self, revealed: bool)
        ensures
            final(self).word() == pack(
                color_field(old(self).word()),
                rank_field(old(self).word()),
                revealed,
                facing_up_flag(old(self).word()),
                id_field(old(self).word()),
            ),
            final(self)@ == (CardFields {
                color: old(self)@.color,
                rank: old(self)@.rank,
                id: old(self)@.id,
                ever_revealed: revealed,
                currently_facing_up: old(self)@.currently_facing_up,
            }),
    {
        let card = self.with_ever_revealed(revealed);
        *self = card;
    }

    /// Sets or clears the "currently facing up" flag.
    pub fn set_currently_facing_up(&mut self, facing_up: bool)
        ensures
            final(self).word() == pack(
                color_field(old(self).word()),
                rank_field(old(self).word()),
                revealed_flag(old(self).word()),
                facing_up,
                id_field(old(self).word()),
            ),
            final(self)@ == (CardFields {
                color: old(self)@.color,
                rank: old(self)@.rank,
                id: old(self)@.id,
                ever_revealed: old(self)@.ever_revealed,
                currently_facing_up: facing_up,
            }),
    {
        let card = self.with_currently_facing_up(facing_up);
        *self = card;
    }

    /// Gives the card another identifier.
    pub fn set_id(&mut self, id: CardId)
        ensures
            final(self).word() == pack(
                color_field(old(self).word()),
                rank_field(old(self).word()),
                revealed_flag(old(self).word()),
                facing_up_flag(old(self).word()),
                WireCardServerOrigin::id_bits(id.bits()),
            ),
            final(self)@ == (CardFields {
                color: old(self)@.color,
                rank: old(self)@.rank,
                id: id.bits(),
                ever_revealed: old(self)@.ever_revealed,
                currently_facing_up: old(self)@.currently_facing_up,
            }),
    {
        let card = self.with_id(id);
        *self = card;
    }

    /// What a player sees of the card: suit and rank where it faces up, the
    /// pair in brackets where it was seen before and now faces down, and a
    /// lone star where it was never revealed.
    pub fn to_string(&self) -> (text: String)
        ensures
            text@ == self.text(),
    {
        face_string(self.color(), self.rank(), self.ever_revealed(), self.currently_facing_up())
    }

    /// Every field of the card, whatever a player may see: suit, rank, and
    /// in brackets the identifier and the two flags.
    pub fn to_debug_string(&self) -> (text: String)
        ensures
            text@ == self.debug_text(),
    {
        full_string(
            self.color(),
            self.rank(),
            self.id().into_bits(),
            self.ever_revealed(),
            self.currently_facing_up(),
        )
    }
}

impl Default for WireCardServerOrigin {
    /// The card of the zero word.
    fn default() -> (card: WireCardServerOrigin)
        ensures
            card.word() == 0,
    {
        WireCardServerOrigin::new()
    }
}

impl From<u16> for WireCardServerOrigin {
    /// The card that a word is kept as.
    fn from(bits: u16) -> (card: WireCardServerOrigin)
        ensures
            card.word() == bits,
    {
        WireCardServerOrigin::from_bits(bits)
    }
}

impl vstd::std_specs::convert::FromSpecImpl<u16> for WireCardServerOrigin {
    open spec fn obeys_from_spec() -> bool {
        true
    }

    open spec fn from_spec(bits: u16) -> WireCardServerOrigin {
        WireCardServerOrigin::of_word(bits)
    }
}

impl From<WireCardServerOrigin> for u16 {
    /// The word that a card is kept as.
    fn from(card: WireCardServerOrigin) -> (bits: u16)
        ensures
            bits == card.word(),
    {
        card.into_bits()
    }
}

impl vstd::std_specs::convert::FromSpecImpl<WireCardServerOrigin> for u16 {
    open spec fn obeys_from_spec() -> bool {
        true
    }

    open spec fn from_spec(card: WireCardServerOrigin) -> u16 {
        card.word()
    }
}

/// Two cards kept as the same word are the same card.
pub proof fn lemma_wire_card_by_word(a: WireCardServerOrigin, b: WireCardServerOrigin)
    requires
        a.word() == b.word(),
    ensures
        a == b,
{
}

/// The card of a word is kept as that word.
pub proof fn lemma_wire_card_of_word(word: u16)
    ensures
        WireCardServerOrigin::of_word(word).word() == word,
{
}

/// What a player sees of each card of a row.
pub open spec fn texts(cards: Seq<WireCardServerOrigin>) -> Seq<Seq<char>> {
    Seq::new(cards.len(), |i: int| cards[i].text())
}

/// Every field of each card of a row.
pub open spec fn debug_texts(cards: Seq<WireCardServerOrigin>) -> Seq<Seq<char>> {
    Seq::new(cards.len(), |i: int| cards[i].debug_text())
}

/// Writes what a player sees of a row of cards, first to last, with one
/// space between neighbours. An empty row gives an empty text.
pub fn row_string(cards: &[WireCardServerOrigin]) -> (text: String)
    ensures
        text@ == joined(texts(cards@)),
{
    let mut text = String::new();
    let mut i: usize = 0;
    while i < cards.len()
        invariant
            i <= cards@.len(),
            text@ == joined(texts(cards@).take(i as int)),
        decreases cards@.len() - i,
    {
        if i > 0 {
            text.append(" ");
        }
        text.append(cards[i].to_string().as_str());
        proof {
            let all = texts(cards@);
            assert(all.take(i + 1).drop_last() =~= all.take(i as int));
            assert(all.take(i + 1).last() == cards@[i as int].text());
        }
        i += 1;
    }
    proof {
        assert(texts(cards@).take(i as int) =~= texts(cards@));
    }
    text
}

/// Writes every field of each card of a row, first to last, with one space
/// between neighbours. An empty row gives an empty text.
pub fn row_debug_string(cards: &[WireCardServerOrigin]) -> (text: String)
    ensures
        text@ == joined(debug_texts(cards@)),
{
    let mut text = String::new();
    let mut i: usize = 0;
    while i < cards.len()
        invariant
            i <= cards@.len(),
            text@ == joined(debug_texts(cards@).take(i as int)),
        decreases cards@.len() - i,
    {
        if i > 0 {
            text.append(" ");
        }
        text.append(cards[i].to_debug_string().as_str());
        proof {
            let all = debug_texts(cards@);
            assert(all.take(i + 1).drop_last() =~= all.take(i as int));
            assert(all.take(i + 1).last() == cards@[i as int].debug_text());
        }
        i += 1;
    }
    proof {
        assert(debug_texts(cards@).take(i as int) =~= debug_texts(cards@));
    }
    text
}

/// The word that may be sent for a card kept as `word`: the word itself once
/// the card was revealed; before that a word that holds the identifier and
/// nothing else.
pub open spec fn redacted(word: u16) -> u16 {
    if revealed_flag(word) {
        word
    } else {
        pack(0, 0, false, false, Card::id_bits(CardId::decode(id_field(word))))
    }
}

impl From<Card> for WireCardServerOrigin {
    /// Makes the form of a card that may be sent to a viewer. Whether
    /// anything is blanked depends on the card's own "ever revealed" flag
    /// and on nothing else.
    fn from(card: Card) -> (wire: WireCardServerOrigin)
        ensures
            wire.word() == redacted(card.word()),
            wire@ == redacted_fields(card@),
    {
        proof {
            lemma_redaction(card);
        }
        if card.ever_revealed() {
            WireCardServerOrigin::from_bits(card.into_bits())
        } else {
            let blank = WireCardServerOrigin::new().with_color(Color::Unknown).with_rank(
                Rank::Unknown,
            ).with_ever_revealed(false).with_currently_facing_up(false);
            proof {
                lemma_zero_word();
                assert(blank.word() == 0);
            }
            blank.with_id(card.id())
        }
    }
}

impl vstd::std_specs::convert::FromSpecImpl<Card> for WireCardServerOrigin {
    open spec fn obeys_from_spec() -> bool {
        true
    }

    open spec fn from_spec(card: Card) -> WireCardServerOrigin {
        WireCardServerOrigin::redaction(card)
    }
}

impl WireCardServerOrigin {
    /// What is sent for a card.
    pub open spec fn redaction(card: Card) -> WireCardServerOrigin {
        WireCardServerOrigin::of_word(redacted(card.word()))
    }
}

/// What is sent for a card says what a viewer may know of the card, and
/// nothing else.
pub proof fn lemma_redaction(card: Card)
    ensures
        WireCardServerOrigin::redaction(card)@ == redacted_fields(card@),
{
    if card.spec_ever_revealed() {
        lemma_redaction_keeps(card);
    } else {
        lemma_redaction_hides(card);
    }
}

/// A card that was never revealed is sent without its suit and rank, as
/// facing down and never revealed, under its own identifier, and prints as a
/// lone star.
pub proof fn lemma_redaction_hides(card: Card)
    requires
        !card.spec_ever_revealed(),
    ensures
        WireCardServerOrigin::redaction(card).spec_color() == Color::Unknown,
        WireCardServerOrigin::redaction(card).spec_rank() == Rank::Unknown,
        !WireCardServerOrigin::redaction(card).spec_ever_revealed(),
        !WireCardServerOrigin::redaction(card).spec_currently_facing_up(),
        WireCardServerOrigin::redaction(card).spec_id() == card.spec_id(),
        WireCardServerOrigin::redaction(card).text() == "*"@,
{
    lemma_pack_fields(card.word());
    lemma_fields_of_pack(0, 0, false, false, Card::id_bits(card.spec_id()));
}

/// A card that was revealed is sent as it is kept: word for word, and so
/// with the same suit, rank, flags, identifier and printed form.
pub proof fn lemma_redaction_keeps(card: Card)
    requires
        card.spec_ever_revealed(),
    ensures
        WireCardServerOrigin::redaction(card).word() == card.word(),
        WireCardServerOrigin::redaction(card).spec_color() == card.spec_color(),
        WireCardServerOrigin::redaction(card).spec_rank() == card.spec_rank(),
        WireCardServerOrigin::redaction(card).spec_ever_revealed(),
        WireCardServerOrigin::redaction(card).spec_currently_facing_up()
            == card.spec_currently_facing_up(),
        WireCardServerOrigin::redaction(card).spec_id() == card.spec_id(),
        WireCardServerOrigin::redaction(card).text() == card.text(),
{
}

/// What is sent keeps the rule that only a revealed card may face up
/// wherever the card itself keeps it, and always where the card was never
/// revealed.
pub proof fn lemma_redaction_consistent(card: Card)
    requires
        card.consistent() || !card.spec_ever_revealed(),
    ensures
        WireCardServerOrigin::redaction(card).consistent(),
{
    if card.spec_ever_revealed() {
        lemma_redaction_keeps(card);
    } else {
        lemma_redaction_hides(card);
    }
}

/// Whatever the card, its identifier is sent unchanged.
pub proof fn lemma_redaction_keeps_id(card: Card)
    ensures
        WireCardServerOrigin::redaction(card).spec_id() == card.spec_id(),
{
    if card.spec_ever_revealed() {
        lemma_redaction_keeps(card);
    } else {
        lemma_redaction_hides(card);
    }
}

} // verus!
