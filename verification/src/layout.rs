//! The sixteen-bit word that a card is kept and sent as.
//!
//! | bits     | field                 |
//! |----------|-----------------------|
//! | 0 to 2   | suit code             |
//! | 3 to 7   | rank code             |
//! | 8        | ever revealed         |
//! | 9        | currently facing up   |
//! | 10 to 15 | identifier            |

use vstd::prelude::*;

verus! {

/// The suit code held in a word.
pub open spec fn color_field(word: u16) -> u8 {
    (word & 0x7) as u8
}

/// The rank code held in a word.
pub open spec fn rank_field(word: u16) -> u8 {
    ((word >> 3) & 0x1f) as u8
}

/// The "ever revealed" flag held in a word.
pub open spec fn revealed_flag(word: u16) -> bool {
    (word >> 8) & 1 == 1
}

/// The "currently facing up" flag held in a word.
pub open spec fn facing_up_flag(word: u16) -> bool {
    (word >> 9) & 1 == 1
}

/// The six identifier bits held in a word.
pub open spec fn id_field(word: u16) -> u8 {
    (word >> 10) as u8
}

/// One flag as a bit of a word.
pub open spec fn flag_bit(flag: bool) -> u16 {
    if flag {
        1u16
    } else {
        0u16
    }
}

/// The word made of five fields.
pub open spec fn pack(color: u8, rank: u8, revealed: bool, facing_up: bool, id: u8) -> u16 {
    (color as u16) | ((rank as u16) << 3) | (flag_bit(revealed) << 8) | (flag_bit(facing_up) << 9)
        | ((id as u16) << 10)
}

/// A word is the packing of its own five fields.
pub proof fn lemma_pack_fields(word: u16)
    ensures
        pack(
            color_field(word),
            rank_field(word),
            revealed_flag(word),
            facing_up_flag(word),
            id_field(word),
        ) == word,
        color_field(word) < 8,
        rank_field(word) < 32,
        id_field(word) < 64,
{
    lemma_flag_bits(word);
    assert((((word & 0x7) as u8) as u16) | ((((word >> 3) & 0x1f) as u8) as u16) << 3 | (((word
        >> 8) & 1) << 8) | (((word >> 9) & 1) << 9) | ((((word >> 10) as u8) as u16) << 10)
        == word && ((word & 0x7) as u8) < 8 && (((word >> 3) & 0x1f) as u8) < 32 && ((word
        >> 10) as u8) < 64) by (bit_vector);
}

/// Each field of a packed word is the field it was packed from.
pub proof fn lemma_fields_of_pack(color: u8, rank: u8, revealed: bool, facing_up: bool, id: u8)
    requires
        color < 8,
        rank < 32,
        id < 64,
    ensures
        color_field(pack(color, rank, revealed, facing_up, id)) == color,
        rank_field(pack(color, rank, revealed, facing_up, id)) == rank,
        revealed_flag(pack(color, rank, revealed, facing_up, id)) == revealed,
        facing_up_flag(pack(color, rank, revealed, facing_up, id)) == facing_up,
        id_field(pack(color, rank, revealed, facing_up, id)) == id,
{
    let r: u16 = flag_bit(revealed);
    let f: u16 = flag_bit(facing_up);
    let word: u16 = (color as u16) | ((rank as u16) << 3) | (r << 8) | (f << 9) | ((id as u16)
        << 10);
    assert(((word & 0x7) as u8) == color && (((word >> 3) & 0x1f) as u8) == rank && (word >> 8)
        & 1 == r && (word >> 9) & 1 == f && ((word >> 10) as u8) == id) by (bit_vector)
        requires
            color < 8,
            rank < 32,
            id < 64,
            r < 2,
            f < 2,
            word == (color as u16) | ((rank as u16) << 3) | (r << 8) | (f << 9) | ((id as u16)
                << 10),
    ;
}

/// The zero word packs five empty fields.
pub proof fn lemma_zero_word()
    ensures
        pack(0, 0, false, false, 0) == 0,
        color_field(0) == 0,
        rank_field(0) == 0,
        !revealed_flag(0),
        !facing_up_flag(0),
        id_field(0) == 0,
{
    assert(0u16 | (0u16 << 3) | (0u16 << 8) | (0u16 << 9) | (0u16 << 10) == 0) by (bit_vector);
    lemma_fields_of_pack(0, 0, false, false, 0);
}

/// Reads the suit code of a word.
pub(crate) fn get_color(word: u16) -> (bits: u8)
    ensures
        bits == color_field(word),
        bits < 8,
{
    proof {
        lemma_pack_fields(word);
    }
    (word & 0x7) as u8
}

/// Reads the rank code of a word.
pub(crate) fn get_rank(word: u16) -> (bits: u8)
    ensures
        bits == rank_field(word),
        bits < 32,
{
    proof {
        lemma_pack_fields(word);
    }
    ((word >> 3) & 0x1f) as u8
}

/// Reads the "ever revealed" flag of a word.
pub(crate) fn get_revealed(word: u16) -> (flag: bool)
    ensures
        flag == revealed_flag(word),
{
    (word >> 8) & 1 == 1
}

/// Reads the "currently facing up" flag of a word.
pub(crate) fn get_facing_up(word: u16) -> (flag: bool)
    ensures
        flag == facing_up_flag(word),
{
    (word >> 9) & 1 == 1
}

/// Reads the six identifier bits of a word.
pub(crate) fn get_id(word: u16) -> (bits: u8)
    ensures
        bits == id_field(word),
        bits < 64,
{
    proof {
        lemma_pack_fields(word);
    }
    (word >> 10) as u8
}

/// The two flags of a word, each as the bit it is kept in.
proof fn lemma_flag_bits(word: u16)
    ensures
        flag_bit(revealed_flag(word)) == (word >> 8) & 1,
        flag_bit(facing_up_flag(word)) == (word >> 9) & 1,
{
    let r: u16 = flag_bit(revealed_flag(word));
    let f: u16 = flag_bit(facing_up_flag(word));
    assert(r == (word >> 8) & 1 && f == (word >> 9) & 1) by (bit_vector)
        requires
            r == (if (word >> 8) & 1 == 1 { 1u16 } else { 0u16 }),
            f == (if (word >> 9) & 1 == 1 { 1u16 } else { 0u16 }),
    ;
}

/// Writes a suit code into a word and leaves the other fields as they are.
pub(crate) fn set_color(word: u16, color: u8) -> (out: u16)
    requires
        color < 8,
    ensures
        out == pack(
            color,
            rank_field(word),
            revealed_flag(word),
            facing_up_flag(word),
            id_field(word),
        ),
{
    proof {
        lemma_flag_bits(word);
        assert((word & 0xfff8) | (color as u16) == (color as u16) | ((((word >> 3) & 0x1f) as u8)
            as u16) << 3 | (((word >> 8) & 1) << 8) | (((word >> 9) & 1) << 9) | ((((word >> 10)
            as u8) as u16) << 10)) by (bit_vector)
            requires
                color < 8,
        ;
    }
    (word & 0xfff8) | (color as u16)
}

/// Writes a rank code into a word and leaves the other fields as they are.
pub(crate) fn set_rank(word: u16, rank: u8) -> (out: u16)
    requires
        rank < 32,
    ensures
        out == pack(
            color_field(word),
            rank,
            revealed_flag(word),
            facing_up_flag(word),
            id_field(word),
        ),
{
    proof {
        lemma_flag_bits(word);
        assert((word & 0xff07) | ((rank as u16) << 3) == (((word & 0x7) as u8) as u16) | ((rank
            as u16) << 3) | (((word >> 8) & 1) << 8) | (((word >> 9) & 1) << 9) | ((((word >> 10)
            as u8) as u16) << 10)) by (bit_vector)
            requires
                rank < 32,
        ;
    }
    (word & 0xff07) | ((rank as u16) << 3)
}

/// Writes the "ever revealed" flag into a word and leaves the other fields
/// as they are.
pub(crate) fn set_revealed(word: u16, revealed: bool) -> (out: u16)
    ensures
        out == pack(
            color_field(word),
            rank_field(word),
            revealed,
            facing_up_flag(word),
            id_field(word),
        ),
{
    let bit: u16 = if revealed {
        1
    } else {
        0
    };
    proof {
        lemma_flag_bits(word);
        assert((word & 0xfeff) | (bit << 8) == (((word & 0x7) as u8) as u16) | ((((word >> 3)
            & 0x1f) as u8) as u16) << 3 | (bit << 8) | (((word >> 9) & 1) << 9) | ((((word
            >> 10) as u8) as u16) << 10)) by (bit_vector)
            requires
                bit < 2,
        ;
    }
    (word & 0xfeff) | (bit << 8)
}

/// Writes the "currently facing up" flag into a word and leaves the other
/// fields as they are.
pub(crate) fn set_facing_up(word: u16, facing_up: bool) -> (out: u16)
    ensures
        out == pack(
            color_field(word),
            rank_field(word),
            revealed_flag(word),
            facing_up,
            id_field(word),
        ),
{
    let bit: u16 = if facing_up {
        1
    } else {
        0
    };
    proof {
        lemma_flag_bits(word);
        assert((word & 0xfdff) | (bit << 9) == (((word & 0x7) as u8) as u16) | ((((word >> 3)
            & 0x1f) as u8) as u16) << 3 | (((word >> 8) & 1) << 8) | (bit << 9) | ((((word
            >> 10) as u8) as u16) << 10)) by (bit_vector)
            requires
                bit < 2,
        ;
    }
    (word & 0xfdff) | (bit << 9)
}

/// Writes six identifier bits into a word and leaves the other fields as
/// they are.
pub(crate) fn set_id(word: u16, id: u8) -> (out: u16)
    requires
        id < 64,
    ensures
        out == pack(
            color_field(word),
            rank_field(word),
            revealed_flag(word),
            facing_up_flag(word),
            id,
        ),
{
    proof {
        lemma_flag_bits(word);
        assert((word & 0x03ff) | ((id as u16) << 10) == (((word & 0x7) as u8) as u16) | ((((word
            >> 3) & 0x1f) as u8) as u16) << 3 | (((word >> 8) & 1) << 8) | (((word >> 9) & 1)
            << 9) | ((id as u16) << 10)) by (bit_vector)
            requires
                id < 64,
        ;
    }
    (word & 0x03ff) | ((id as u16) << 10)
}

} // verus!
