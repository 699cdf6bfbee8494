//! The shuffled deck: fifty-two cards, each at the place that its identifier
//! names.

use vstd::prelude::*;
use arrayvec::ArrayVec;
use crate::bounded::{
    deck_cards, deck_store_new, deck_store_push, deck_store_slice, deck_store_sort, shuffle_bytes,
};
use crate::card::{Card, texts, debug_texts, row_string, row_debug_string};
use crate::card_id::CardId;
use crate::color::Color;
use crate::fields::CardFields;
use crate::layout::{pack, lemma_fields_of_pack, lemma_zero_word};
use crate::rank::Rank;
use crate::text::joined;

verus! {

/// The suits in the order in which they are dealt.
pub open spec fn suit(index: int) -> Color {
    if index == 0 {
        Color::Spades
    } else if index == 1 {
        Color::Hearts
    } else if index == 2 {
        Color::Clubs
    } else {
        Color::Diamonds
    }
}

/// The ranks in the order in which they are dealt.
pub open spec fn face(index: int) -> Rank {
    if index == 0 {
        Rank::A
    } else if index == 1 {
        Rank::Two
    } else if index == 2 {
        Rank::Three
    } else if index == 3 {
        Rank::Four
    } else if index == 4 {
        Rank::Five
    } else if index == 5 {
        Rank::Six
    } else if index == 6 {
        Rank::Seven
    } else if index == 7 {
        Rank::Eight
    } else if index == 8 {
        Rank::Nine
    } else if index == 9 {
        Rank::Ten
    } else if index == 10 {
        Rank::J
    } else if index == 11 {
        Rank::Q
    } else {
        Rank::K
    }
}

/// The index at which a suit is dealt.
pub open spec fn suit_index(color: Color) -> int {
    match color {
        Color::Spades => 0,
        Color::Hearts => 1,
        Color::Clubs => 2,
        _ => 3,
    }
}

/// The index at which a rank is dealt.
pub open spec fn face_index(rank: Rank) -> int {
    match rank {
        Rank::A => 0,
        Rank::Two => 1,
        Rank::Three => 2,
        Rank::Four => 3,
        Rank::Five => 4,
        Rank::Six => 5,
        Rank::Seven => 6,
        Rank::Eight => 7,
        Rank::Nine => 8,
        Rank::Ten => 9,
        Rank::J => 10,
        Rank::Q => 11,
        _ => 12,
    }
}

/// A card that was never revealed and faces down.
pub open spec fn hidden_card(color: Color, rank: Rank, id: u8) -> Card {
    Card::of_word(pack(color.bits(), rank.bits(), false, false, Card::id_bits(id)))
}

/// The card that is dealt at a turn: the suits follow one another, each
/// with its thirteen ranks, and the card takes the identifier that the deal
/// order holds for the turn.
pub open spec fn dealt_card(ids: Seq<u8>, turn: int) -> Card {
    hidden_card(suit(turn / 13), face(turn % 13), ids[turn])
}

/// A deal order gives each of the fifty-two turns an identifier of its own:
/// every entry is a place in the deck, no two entries are equal, and every
/// place occurs.
pub open spec fn deal_order(ids: Seq<u8>) -> bool {
    &&& ids.len() == 52
    &&& forall|k: int| 0 <= k < 52 ==> #[trigger] ids[k] < 52
    &&& forall|j: int, k: int| 0 <= j < 52 && 0 <= k < 52 && ids[j] == ids[k] ==> j == k
    &&& forall|v: u8| v < 52 ==> #[trigger] ids.contains(v)
}

/// The deck of a deal order: the card dealt at a turn lies at the place
/// that its identifier names.
pub open spec fn deals(deck: Seq<Card>, ids: Seq<u8>) -> bool {
    &&& deck.len() == 52
    &&& forall|k: int| 0 <= k < 52 ==> deck[#[trigger] ids[k] as int] == dealt_card(ids, k)
}

/// The suit dealt at an index.
fn suit_at(index: usize) -> (color: Color)
    requires
        index < 4,
    ensures
        color == suit(index as int),
{
    match index {
        0 => Color::Spades,
        1 => Color::Hearts,
        2 => Color::Clubs,
        _ => Color::Diamonds,
    }
}

/// The rank dealt at an index.
fn face_at(index: usize) -> (rank: Rank)
    requires
        index < 13,
    ensures
        rank == face(index as int),
{
    match index {
        0 => Rank::A,
        1 => Rank::Two,
        2 => Rank::Three,
        3 => Rank::Four,
        4 => Rank::Five,
        5 => Rank::Six,
        6 => Rank::Seven,
        7 => Rank::Eight,
        8 => Rank::Nine,
        9 => Rank::Ten,
        10 => Rank::J,
        11 => Rank::Q,
        _ => Rank::K,
    }
}

/// Makes a card that was never revealed and faces down.
fn make_hidden(color: Color, rank: Rank, id: CardId) -> (card: Card)
    ensures
        card == hidden_card(color, rank, id.bits()),
{
    let blank = Card::new();
    proof {
        lemma_zero_word();
    }
    let suited = blank.with_color(color);
    proof {
        lemma_fields_of_pack(color.bits(), 0, false, false, 0);
    }
    let ranked = suited.with_rank(rank);
    proof {
        lemma_fields_of_pack(color.bits(), rank.bits(), false, false, 0);
    }
    let card = ranked.with_ever_revealed(false).with_currently_facing_up(false).with_id(id);
    proof {
        crate::card::lemma_card_of_word(
            pack(color.bits(), rank.bits(), false, false, Card::id_bits(id.bits())),
        );
        crate::card::lemma_card_by_word(card, hidden_card(color, rank, id.bits()));
    }
    card
}

/// In a rising row of numbers, no entry is below its own index.
proof fn lemma_rising_from_below(keys: Seq<int>, i: int)
    requires
        0 <= i < keys.len(),
        forall|k: int| 0 <= k < keys.len() ==> 0 <= #[trigger] keys[k],
        forall|j: int, k: int| 0 <= j < k < keys.len() ==> keys[j] < keys[k],
    ensures
        keys[i] >= i,
    decreases i,
{
    if i > 0 {
        lemma_rising_from_below(keys, i - 1);
    }
}

/// In a rising row of numbers below its length, no entry is above its own
/// index.
proof fn lemma_rising_from_above(keys: Seq<int>, i: int)
    requires
        0 <= i < keys.len(),
        forall|k: int| 0 <= k < keys.len() ==> #[trigger] keys[k] < keys.len(),
        forall|j: int, k: int| 0 <= j < k < keys.len() ==> keys[j] < keys[k],
    ensures
        keys[i] <= i,
    decreases keys.len() - i,
{
    if i + 1 < keys.len() {
        lemma_rising_from_above(keys, i + 1);
    }
}

/// The card dealt at a turn shows the suit and the rank of the turn,
/// carries the identifier that the deal order holds for the turn, was never
/// revealed and faces down.
pub proof fn lemma_dealt_card(ids: Seq<u8>, turn: int)
    requires
        deal_order(ids),
        0 <= turn < 52,
    ensures
        dealt_card(ids, turn)@ == (CardFields {
            color: suit(turn / 13),
            rank: face(turn % 13),
            id: ids[turn],
            ever_revealed: false,
            currently_facing_up: false,
        }),
{
    let color = suit(turn / 13);
    let rank = face(turn % 13);
    assert(ids[turn] < 52);
    crate::card::lemma_card_of_word(
        pack(color.bits(), rank.bits(), false, false, Card::id_bits(ids[turn])),
    );
    lemma_fields_of_pack(color.bits(), rank.bits(), false, false, ids[turn]);
}

/// Sorting the cards of a deal by identifier puts each at the place that
/// its identifier names.
proof fn lemma_sorted_deal(ids: Seq<u8>, before: Seq<Card>, after: Seq<Card>)
    requires
        deal_order(ids),
        before.len() == 52,
        forall|k: int| 0 <= k < 52 ==> #[trigger] before[k] == dealt_card(ids, k),
        after.to_multiset() == before.to_multiset(),
        forall|i: int, j: int|
            0 <= i <= j < after.len() ==> after[i].spec_id() <= after[j].spec_id(),
    ensures
        deals(after, ids),
{
    before.to_multiset_ensures();
    after.to_multiset_ensures();
    assert forall|k: int| 0 <= k < 52 implies (#[trigger] before[k]).spec_id() == ids[k] by {
        lemma_dealt_card(ids, k);
    }
    assert(before.no_duplicates()) by {
        assert forall|j: int, k: int|
            0 <= j < before.len() && 0 <= k < before.len() && j != k implies before[j]
            != before[k] by {
            assert(before[j].spec_id() == ids[j]);
            assert(before[k].spec_id() == ids[k]);
        }
    }
    before.lemma_multiset_has_no_duplicates();
    after.lemma_multiset_has_no_duplicates_conv();
    // Every card after the sort is one of the cards dealt.
    assert(after.len() == 52);
    assert forall|i: int| 0 <= i < 52 implies before.contains(#[trigger] after[i]) by {
        assert(after.contains(after[i]));
        assert(after.to_multiset().count(after[i]) > 0);
        assert(before.to_multiset().count(after[i]) > 0);
    }
    let keys = Seq::new(52, |i: int| after[i].spec_id() as int);
    assert forall|k: int| 0 <= k < keys.len() implies 0 <= #[trigger] keys[k] < keys.len() by {
        assert(before.contains(after[k]));
        let t = choose|t: int| 0 <= t < before.len() && before[t] == after[k];
        assert(before[t].spec_id() == ids[t]);
    }
    assert forall|i: int, j: int| 0 <= i < j < keys.len() implies keys[i] < keys[j] by {
        assert(before.contains(after[i]));
        assert(before.contains(after[j]));
        let s = choose|s: int| 0 <= s < before.len() && before[s] == after[i];
        let t = choose|t: int| 0 <= t < before.len() && before[t] == after[j];
        assert(before[s].spec_id() == ids[s]);
        assert(before[t].spec_id() == ids[t]);
        assert(after[i].spec_id() <= after[j].spec_id());
        if keys[i] == keys[j] {
            assert(s == t);
            assert(after[i] == after[j]);
        }
    }
    assert forall|i: int| 0 <= i < 52 implies (#[trigger] after[i]).spec_id() == i by {
        lemma_rising_from_below(keys, i);
        lemma_rising_from_above(keys, i);
        assert(keys[i] == after[i].spec_id() as int);
    }
    assert forall|k: int| 0 <= k < 52 implies after[#[trigger] ids[k] as int] == dealt_card(
        ids,
        k,
    ) by {
        assert(before.contains(before[k]));
        assert(before.to_multiset().count(before[k]) > 0);
        assert(after.to_multiset().count(before[k]) > 0);
        assert(after.contains(before[k]));
        let i = choose|i: int| 0 <= i < after.len() && after[i] == before[k];
        assert(after[i].spec_id() == i);
        assert(before[k].spec_id() == ids[k]);
    }
}

/// A row that holds the bytes nought to fifty-one, each once and in any
/// order, is a deal order.
proof fn lemma_shuffled_row(row: Seq<u8>, ids: Seq<u8>)
    requires
        row.len() == 52,
        forall|i: int| 0 <= i < 52 ==> #[trigger] row[i] == i,
        ids.to_multiset() == row.to_multiset(),
    ensures
        deal_order(ids),
{
    row.to_multiset_ensures();
    ids.to_multiset_ensures();
    row.lemma_multiset_has_no_duplicates();
    ids.lemma_multiset_has_no_duplicates_conv();
    assert forall|k: int| 0 <= k < 52 implies #[trigger] ids[k] < 52 by {
        assert(ids.contains(ids[k]));
        assert(ids.to_multiset().count(ids[k]) > 0);
        assert(row.to_multiset().count(ids[k]) > 0);
        assert(row.contains(ids[k]));
    }
    assert forall|v: u8| v < 52 implies #[trigger] ids.contains(v) by {
        assert(row[v as int] == v);
        assert(row.contains(v));
        assert(row.to_multiset().count(v) > 0);
        assert(ids.to_multiset().count(v) > 0);
    }
}

/// A deck is shuffled where some deal order gives it.
pub open spec fn is_shuffled(deck: Seq<Card>) -> bool {
    exists|ids: Seq<u8>| deal_order(ids) && deals(deck, ids)
}

/// Whether a card shows a suit and a rank.
pub open spec fn shows(card: Card, color: Color, rank: Rank) -> bool {
    card.spec_color() == color && card.spec_rank() == rank
}

/// What holds of every deck at the start of a game: it has fifty-two cards;
/// the card at each place carries that place as its identifier; no card was
/// revealed or faces up; every real suit is found with every real rank at
/// some place, and at no second place.
pub open spec fn full_in_id_order(deck: Seq<Card>) -> bool {
    &&& deck.len() == 52
    &&& forall|i: int| 0 <= i < 52 ==> (#[trigger] deck[i]).spec_id() == i
    &&& forall|i: int|
        0 <= i < 52 ==> !(#[trigger] deck[i]).spec_ever_revealed()
            && !deck[i].spec_currently_facing_up()
    &&& forall|color: Color, rank: Rank|
        color.known() && rank.known() ==> exists|i: int|
            0 <= i < 52 && shows(#[trigger] deck[i], color, rank)
    &&& forall|i: int, j: int|
        0 <= i < 52 && 0 <= j < 52 && deck[i].spec_color() == deck[j].spec_color()
            && deck[i].spec_rank() == deck[j].spec_rank() ==> i == j
}

/// The fifty-two cards of a game, each at the place that its identifier
/// names. A deck is made once and never changed.
pub struct ShuffledDeck {
    cards: ArrayVec<Card, 52>,
}

impl View for ShuffledDeck {
    type V = Seq<Card>;

    closed spec fn view(&self) -> Seq<Card> {
        deck_cards(self.cards)
    }
}

/// Tells whether a row of bytes is a deal order.
pub fn is_deal_order(ids: &Vec<u8>) -> (ok: bool)
    ensures
        ok == deal_order(ids@),
{
    if ids.len() != 52 {
        return false;
    }
    let mut turn_of: Vec<u8> = Vec::new();
    let mut filled: usize = 0;
    while filled < 52
        invariant
            filled <= 52,
            turn_of@.len() == filled,
            forall|v: int| 0 <= v < filled ==> turn_of@[v] == 0xFF,
        decreases 52 - filled,
    {
        turn_of.push(0xFF);
        filled += 1;
    }
    let mut turn: usize = 0;
    while turn < 52
        invariant
            turn <= 52,
            ids@.len() == 52,
            turn_of@.len() == 52,
            forall|j: int|
                0 <= j < turn ==> #[trigger] ids@[j] < 52 && turn_of@[ids@[j] as int] == j,
            forall|v: int|
                0 <= v < 52 ==> #[trigger] turn_of@[v] == 0xFF || (turn_of@[v] < turn
                    && ids@[turn_of@[v] as int] == v),
        decreases 52 - turn,
    {
        let id: u8 = ids[turn];
        if id >= 52 {
            return false;
        }
        if turn_of[id as usize] != 0xFF {
            proof {
                let earlier = turn_of@[id as int] as int;
                assert(ids@[earlier] == ids@[turn as int] && earlier != turn);
            }
            return false;
        }
        turn_of.set(id as usize, turn as u8);
        turn += 1;
    }
    let mut place: usize = 0;
    while place < 52
        invariant
            place <= 52,
            ids@.len() == 52,
            turn_of@.len() == 52,
            forall|j: int|
                0 <= j < 52 ==> #[trigger] ids@[j] < 52 && turn_of@[ids@[j] as int] == j,
            forall|v: int|
                0 <= v < 52 ==> #[trigger] turn_of@[v] == 0xFF || (turn_of@[v] < 52
                    && ids@[turn_of@[v] as int] == v),
            forall|v: int| 0 <= v < place ==> #[trigger] turn_of@[v] != 0xFF,
        decreases 52 - place,
    {
        if turn_of[place] == 0xFF {
            proof {
                let missing = place as u8;
                if ids@.contains(missing) {
                    let k = choose|k: int| 0 <= k < ids@.len() && ids@[k] == missing;
                    assert(turn_of@[ids@[k] as int] == k);
                }
            }
            return false;
        }
        place += 1;
    }
    proof {
        assert forall|v: u8| v < 52 implies #[trigger] ids@.contains(v) by {
            assert(turn_of@[v as int] != 0xFF);
            assert(ids@[turn_of@[v as int] as int] == v);
        }
        assert forall|j: int, k: int|
            0 <= j < 52 && 0 <= k < 52 && ids@[j] == ids@[k] implies j == k by {
            assert(turn_of@[ids@[j] as int] == j);
            assert(turn_of@[ids@[k] as int] == k);
        }
    }
    true
}

impl ShuffledDeck {
    /// Every deck is the deck of some deal order.
    #[verifier::type_invariant]
    spec fn well_formed(self) -> bool {
        is_shuffled(deck_cards(self.cards))
    }

    /// Deals the cards in the order given and sorts them by identifier.
    fn deal(ids: &Vec<u8>) -> (deck: ShuffledDeck)
        requires
            deal_order(ids@),
        ensures
            deals(deck@, ids@),
    {
        let mut store = deck_store_new();
        let mut suit_index: usize = 0;
        while suit_index < 4
            invariant
                suit_index <= 4,
                deal_order(ids@),
                deck_cards(store).len() == 13 * suit_index,
                forall|k: int|
                    0 <= k < 13 * suit_index ==> #[trigger] deck_cards(store)[k] == dealt_card(
                        ids@,
                        k,
                    ),
            decreases 4 - suit_index,
        {
            let color = suit_at(suit_index);
            let mut face_index: usize = 0;
            while face_index < 13
                invariant
                    suit_index < 4,
                    face_index <= 13,
                    color == suit(suit_index as int),
                    deal_order(ids@),
                    deck_cards(store).len() == 13 * suit_index + face_index,
                    forall|k: int|
                        0 <= k < 13 * suit_index + face_index ==> #[trigger] deck_cards(store)[k]
                            == dealt_card(ids@, k),
                decreases 13 - face_index,
            {
                let turn: usize = 13 * suit_index + face_index;
                let id = CardId::from_bits(ids[turn]);
                let card = make_hidden(color, face_at(face_index), id);
                proof {
                    assert(ids@[turn as int] < 52);
                    assert(turn as int / 13 == suit_index && turn as int % 13 == face_index);
                }
                deck_store_push(&mut store, card);
                face_index += 1;
            }
            suit_index += 1;
        }
        let ghost before = deck_cards(store);
        deck_store_sort(&mut store);
        proof {
            lemma_sorted_deal(ids@, before, deck_cards(store));
        }
        ShuffledDeck { cards: store }
    }

    /// Builds the deck of a deal order: the cards are dealt suit by suit,
    /// each suit from ace to king, the card of each turn takes the
    /// identifier that `ids` holds for the turn, and the cards are then put
    /// in the order of their identifiers. A row that is no deal order gives
    /// no deck.
    pub fn from_deal_order(ids: &Vec<u8>) -> (deck: Option<ShuffledDeck>)
        ensures
            deck.is_some() <==> deal_order(ids@),
            deck.is_some() ==> deals(deck.unwrap()@, ids@) && full_in_id_order(deck.unwrap()@),
    {
        if is_deal_order(ids) {
            let deck = ShuffledDeck::deal(ids);
            proof {
                lemma_shuffled_deck(deck@);
            }
            Some(deck)
        } else {
            None
        }
    }

    /// Builds a deck from a fresh random deal order. Whatever the order,
    /// the card at each place carries that place as its identifier, no card
    /// was revealed or faces up, and each suit and rank is found together
    /// at exactly one place.
    pub fn new() -> (deck: ShuffledDeck)
        ensures
            is_shuffled(deck@),
            full_in_id_order(deck@),
    {
        let ids = shuffled_ids();
        let deck = ShuffledDeck::deal(&ids);
        proof {
            lemma_shuffled_deck(deck@);
        }
        deck
    }

    /// How many cards the deck holds: always fifty-two.
    pub fn len(&self) -> (count: usize)
        ensures
            count == 52,
            count == self@.len(),
    {
        proof {
            use_type_invariant(self);
        }
        deck_store_slice(&self.cards).len()
    }

    /// The card at a place of the deck, if the deck has that place.
    pub fn get(&self, index: usize) -> (card: Option<Card>)
        ensures
            card.is_some() <==> index < 52,
            card.is_some() ==> card.unwrap() == self@[index as int] && card.unwrap().spec_id()
                == index,
    {
        proof {
            use_type_invariant(self);
            lemma_shuffled_deck(self@);
        }
        let cards = deck_store_slice(&self.cards);
        if index < cards.len() {
            Some(cards[index])
        } else {
            None
        }
    }

    /// The cards of the deck, first to last.
    pub fn as_slice(&self) -> (cards: &[Card])
        ensures
            cards@ == self@,
            is_shuffled(cards@),
            full_in_id_order(cards@),
    {
        proof {
            use_type_invariant(self);
            lemma_shuffled_deck(self@);
        }
        deck_store_slice(&self.cards)
    }

    /// The cards of the deck, first to last.
    pub fn to_vec(&self) -> (cards: Vec<Card>)
        ensures
            cards@ == self@,
    {
        vstd::slice::slice_to_vec(deck_store_slice(&self.cards))
    }

    /// What a player sees of the deck: the cards in the order of their
    /// identifiers, with one space between neighbours.
    pub fn to_string(&self) -> (text: String)
        ensures
            text@ == joined(texts(self@)),
    {
        row_string(deck_store_slice(&self.cards))
    }

    /// Every field of every card of the deck, in the order of the
    /// identifiers, with one space between neighbours. This is for the
    /// keeper of the table and must not be sent to a viewer.
    pub fn to_debug_string(&self) -> (text: String)
        ensures
            text@ == joined(debug_texts(self@)),
    {
        row_debug_string(deck_store_slice(&self.cards))
    }

    /// The card with an identifier, if the identifier is valid.
    pub fn card(&self, id: CardId) -> (card: Option<Card>)
        ensures
            card.is_some() <==> id.valid(),
            card.is_some() ==> card.unwrap() == self@[id.bits() as int] && card.unwrap().spec_id()
                == id.bits(),
    {
        if id.is_valid() {
            self.get(id.into_bits() as usize)
        } else {
            None
        }
    }
}

impl Clone for ShuffledDeck {
    /// A deck of the same cards at the same places.
    fn clone(&self) -> (copy: ShuffledDeck)
        ensures
            copy@ == self@,
    {
        proof {
            use_type_invariant(self);
        }
        let cards = deck_store_slice(&self.cards);
        let mut store = deck_store_new();
        let mut i: usize = 0;
        while i < 52
            invariant
                i <= 52,
                cards@.len() == 52,
                deck_cards(store) == cards@.take(i as int),
            decreases 52 - i,
        {
            deck_store_push(&mut store, cards[i]);
            proof {
                assert(cards@.take(i as int).push(cards@[i as int]) =~= cards@.take(i + 1));
            }
            i += 1;
        }
        proof {
            assert(cards@.take(52) =~= cards@);
        }
        ShuffledDeck { cards: store }
    }
}

impl Default for ShuffledDeck {
    /// A deck from a fresh random deal order.
    fn default() -> (deck: ShuffledDeck)
        ensures
            is_shuffled(deck@),
            full_in_id_order(deck@),
    {
        ShuffledDeck::new()
    }
}

/// Puts the cards of a deal order at the places that their identifiers
/// name, without sorting.
fn place_by_id(ids: &Vec<u8>) -> (cards: Vec<Card>)
    requires
        deal_order(ids@),
    ensures
        deals(cards@, ids@),
{
    let mut cards: Vec<Card> = Vec::new();
    let mut filled: usize = 0;
    while filled < 52
        invariant
            filled <= 52,
            cards@.len() == filled,
        decreases 52 - filled,
    {
        cards.push(Card::new());
        filled += 1;
    }
    let mut turn: usize = 0;
    while turn < 52
        invariant
            turn <= 52,
            deal_order(ids@),
            cards@.len() == 52,
            forall|k: int|
                0 <= k < turn ==> cards@[#[trigger] ids@[k] as int] == dealt_card(ids@, k),
        decreases 52 - turn,
    {
        let id: u8 = ids[turn];
        proof {
            assert(ids@[turn as int] < 52);
        }
        let card = make_hidden(suit_at(turn / 13), face_at(turn % 13), CardId::from_bits(id));
        cards.set(id as usize, card);
        turn += 1;
    }
    cards
}

/// Builds the cards of a deck from a fresh random deal order, each put
/// straight at the place that its identifier names. What holds of
/// [`ShuffledDeck::new`] holds of the row that comes back.
pub fn cards_by_id_shuffled_deck() -> (cards: Vec<Card>)
    ensures
        is_shuffled(cards@),
        full_in_id_order(cards@),
{
    let ids = shuffled_ids();
    let cards = place_by_id(&ids);
    proof {
        lemma_shuffled_deck(cards@);
    }
    cards
}

/// Draws a fresh random deal order.
pub fn shuffled_ids() -> (ids: Vec<u8>)
    ensures
        deal_order(ids@),
{
    let mut ids: Vec<u8> = Vec::new();
    let mut next: u8 = 0;
    while next < 52
        invariant
            next <= 52,
            ids@.len() == next,
            forall|i: int| 0 <= i < next ==> #[trigger] ids@[i] == i,
        decreases 52 - next,
    {
        ids.push(next);
        next += 1;
    }
    let ghost row = ids@;
    shuffle_bytes(&mut ids);
    proof {
        lemma_shuffled_row(row, ids@);
    }
    ids
}

/// A deal order has one deck: whichever way the cards were put in place,
/// by sorting or one by one, the same card lies at each place.
pub proof fn lemma_deal_unique(first: Seq<Card>, second: Seq<Card>, ids: Seq<u8>)
    requires
        deal_order(ids),
        deals(first, ids),
        deals(second, ids),
    ensures
        first == second,
{
    assert forall|i: int| 0 <= i < 52 implies first[i] == second[i] by {
        let v = i as u8;
        assert(ids.contains(v));
        let k = choose|k: int| 0 <= k < ids.len() && ids[k] == v;
        assert(first[ids[k] as int] == dealt_card(ids, k));
        assert(second[ids[k] as int] == dealt_card(ids, k));
    }
    assert(first =~= second);
}

/// A shuffled deck is full and in the order of its identifiers: the card at
/// each place carries that place as its identifier, no card was revealed or
/// faces up, and each suit and rank is found together at exactly one place.
pub proof fn lemma_shuffled_deck(deck: Seq<Card>)
    requires
        is_shuffled(deck),
    ensures
        full_in_id_order(deck),
{
    let ids = choose|ids: Seq<u8>| deal_order(ids) && deals(deck, ids);
    // The turn at which the card of each place was dealt.
    assert forall|i: int| 0 <= i < 52 implies exists|k: int|
        0 <= k < 52 && ids[k] == i && #[trigger] deck[i] == dealt_card(ids, k) by {
        let v = i as u8;
        assert(ids.contains(v));
        let k = choose|k: int| 0 <= k < ids.len() && ids[k] == v;
        assert(deck[ids[k] as int] == dealt_card(ids, k));
    }
    assert forall|i: int| 0 <= i < 52 implies (#[trigger] deck[i]).spec_id() == i
        && !deck[i].spec_ever_revealed() && !deck[i].spec_currently_facing_up() by {
        let k = choose|k: int| 0 <= k < 52 && ids[k] == i && deck[i] == dealt_card(ids, k);
        lemma_dealt_card(ids, k);
    }
    assert forall|color: Color, rank: Rank| color.known() && rank.known() implies exists|i: int|
        0 <= i < 52 && shows(#[trigger] deck[i], color, rank) by {
        let c = suit_index(color);
        let r = face_index(rank);
        let k = 13 * c + r;
        assert(k / 13 == c && k % 13 == r);
        lemma_dealt_card(ids, k);
        assert(ids[k] < 52);
        assert(deck[ids[k] as int] == dealt_card(ids, k));
        assert(shows(deck[ids[k] as int], color, rank));
    }
    assert forall|i: int, j: int|
        0 <= i < 52 && 0 <= j < 52 && deck[i].spec_color() == deck[j].spec_color()
            && deck[i].spec_rank() == deck[j].spec_rank() implies i == j by {
        let s = choose|k: int| 0 <= k < 52 && ids[k] == i && deck[i] == dealt_card(ids, k);
        let t = choose|k: int| 0 <= k < 52 && ids[k] == j && deck[j] == dealt_card(ids, k);
        lemma_dealt_card(ids, s);
        lemma_dealt_card(ids, t);
        assert(suit(s / 13) == suit(t / 13));
        assert(face(s % 13) == face(t % 13));
        assert(s / 13 == t / 13);
        assert(s % 13 == t % 13);
        assert(s == t);
    }
}

} // verus!
