//! The printed forms of cards and of rows of cards.

use vstd::prelude::*;
use vstd::string::*;
use crate::color::Color;
use crate::rank::Rank;

verus! {

/// The character of one decimal digit.
pub open spec fn digit(d: nat) -> char {
    if d == 0 {
        '0'
    } else if d == 1 {
        '1'
    } else if d == 2 {
        '2'
    } else if d == 3 {
        '3'
    } else if d == 4 {
        '4'
    } else if d == 5 {
        '5'
    } else if d == 6 {
        '6'
    } else if d == 7 {
        '7'
    } else if d == 8 {
        '8'
    } else {
        '9'
    }
}

/// A number in decimal, without leading zeroes.
pub open spec fn decimal(n: nat) -> Seq<char>
    decreases n,
{
    if n < 10 {
        seq![digit(n)]
    } else {
        decimal(n / 10).push(digit(n % 10))
    }
}

/// A flag as the word `true` or `false`.
pub open spec fn flag_text(flag: bool) -> Seq<char> {
    if flag {
        "true"@
    } else {
        "false"@
    }
}

/// What a player sees of a card: suit and rank where it faces up, the pair
/// in brackets where it was seen before and now faces down, and a lone star
/// where it was never revealed.
pub open spec fn face_text(color: Color, rank: Rank, revealed: bool, facing_up: bool) -> Seq<char> {
    if facing_up {
        color.symbol() + rank.symbol()
    } else if revealed {
        "("@ + color.symbol() + rank.symbol() + ")"@
    } else {
        "*"@
    }
}

/// Every field of a card: suit, rank, and in brackets the identifier and
/// the two flags.
pub open spec fn full_text(
    color: Color,
    rank: Rank,
    id: u8,
    revealed: bool,
    facing_up: bool,
) -> Seq<char> {
    color.symbol() + rank.symbol() + "("@ + decimal(id as nat) + ","@ + flag_text(revealed) + ","@
        + flag_text(facing_up) + ")"@
}

/// The texts of a row, with one space between neighbours.
pub open spec fn joined(texts: Seq<Seq<char>>) -> Seq<char>
    decreases texts.len(),
{
    if texts.len() == 0 {
        Seq::<char>::empty()
    } else if texts.len() == 1 {
        texts[0]
    } else {
        joined(texts.drop_last()) + " "@ + texts.last()
    }
}

fn digit_str(d: u8) -> (text: &'static str)
    requires
        d < 10,
    ensures
        text@ == seq![digit(d as nat)],
{
    proof {
        reveal_strlit("0");
        reveal_strlit("1");
        reveal_strlit("2");
        reveal_strlit("3");
        reveal_strlit("4");
        reveal_strlit("5");
        reveal_strlit("6");
        reveal_strlit("7");
        reveal_strlit("8");
        reveal_strlit("9");
    }
    let text = match d {
        0 => "0",
        1 => "1",
        2 => "2",
        3 => "3",
        4 => "4",
        5 => "5",
        6 => "6",
        7 => "7",
        8 => "8",
        _ => "9",
    };
    assert(text@ =~= seq![digit(d as nat)]);
    text
}

/// Writes a byte in decimal.
pub fn decimal_string(n: u8) -> (text: String)
    ensures
        text@ == decimal(n as nat),
{
    let mut text = String::new();
    if n >= 100 {
        text.append(digit_str(n / 100));
    }
    if n >= 10 {
        text.append(digit_str((n / 10) % 10));
    }
    text.append(digit_str(n % 10));
    proof {
        reveal_with_fuel(decimal, 3);
        assert(text@ =~= decimal(n as nat));
    }
    text
}

/// Writes a flag as `true` or `false`.
pub fn flag_string(flag: bool) -> (text: String)
    ensures
        text@ == flag_text(flag),
{
    if flag {
        String::from_str("true")
    } else {
        String::from_str("false")
    }
}

/// Writes what a player sees of a card.
pub fn face_string(color: Color, rank: Rank, revealed: bool, facing_up: bool) -> (text: String)
    ensures
        text@ == face_text(color, rank, revealed, facing_up),
{
    if facing_up {
        let mut text = color.to_string();
        text.append(rank.to_string().as_str());
        text
    } else if revealed {
        let mut text = String::from_str("(");
        text.append(color.to_string().as_str());
        text.append(rank.to_string().as_str());
        text.append(")");
        text
    } else {
        String::from_str("*")
    }
}

/// Writes every field of a card.
pub fn full_string(
    color: Color,
    rank: Rank,
    id: u8,
    revealed: bool,
    facing_up: bool,
) -> (text: String)
    ensures
        text@ == full_text(color, rank, id, revealed, facing_up),
{
    let mut text = color.to_string();
    text.append(rank.to_string().as_str());
    text.append("(");
    text.append(decimal_string(id).as_str());
    text.append(",");
    text.append(flag_string(revealed).as_str());
    text.append(",");
    text.append(flag_string(facing_up).as_str());
    text.append(")");
    text
}

} // verus!
