//! The deck as it is sent to a viewer.

use vstd::prelude::*;
use arrayvec::ArrayVec;
use crate::bounded::{
    wire_deck_cards, wire_deck_store_new, wire_deck_store_push, wire_deck_store_slice,
};
use crate::card::Card;
use crate::deck::{ShuffledDeck, is_shuffled, lemma_shuffled_deck};
use crate::text::joined;
use crate::wire::{
    WireCardServerOrigin, texts, debug_texts, row_string, row_debug_string, lemma_redaction_hides,
};

verus! {

/// What is sent for a row of cards: for each card what is sent for it.
pub open spec fn redacted_row(cards: Seq<Card>) -> Seq<WireCardServerOrigin> {
    Seq::new(cards.len(), |i: int| WireCardServerOrigin::redaction(cards[i]))
}

/// The fifty-two cards of a deck in the form that may be sent to a viewer.
pub struct WireShuffledDeckServerOrigin {
    cards: ArrayVec<WireCardServerOrigin, 52>,
}

impl View for WireShuffledDeckServerOrigin {
    type V = Seq<WireCardServerOrigin>;

    closed spec fn view(&self) -> Seq<WireCardServerOrigin> {
        wire_deck_cards(self.cards)
    }
}

impl WireShuffledDeckServerOrigin {
    /// A deck to be sent holds fifty-two cards.
    #[verifier::type_invariant]
    spec fn well_formed(self) -> bool {
        wire_deck_cards(self.cards).len() == 52
    }

    /// How many cards the deck holds: always fifty-two.
    pub fn len(&self) -> (count: usize)
        ensures
            count == 52,
            count == self@.len(),
    {
        proof {
            use_type_invariant(self);
        }
        wire_deck_store_slice(&self.cards).len()
    }

    /// The card at a place of the deck, if the deck has that place.
    pub fn get(&self, index: usize) -> (card: Option<WireCardServerOrigin>)
        ensures
            card.is_some() <==> index < 52,
            card.is_some() ==> card.unwrap() == self@[index as int],
    {
        proof {
            use_type_invariant(self);
        }
        let cards = wire_deck_store_slice(&self.cards);
        if index < cards.len() {
            Some(cards[index])
        } else {
            None
        }
    }

    /// The cards of the deck, first to last.
    pub fn as_slice(&self) -> (cards: &[WireCardServerOrigin])
        ensures
            cards@ == self@,
            cards@.len() == 52,
    {
        proof {
            use_type_invariant(self);
        }
        wire_deck_store_slice(&self.cards)
    }

    /// The cards of the deck, first to last.
    pub fn to_vec(&self) -> (cards: Vec<WireCardServerOrigin>)
        ensures
            cards@ == self@,
    {
        vstd::slice::slice_to_vec(wire_deck_store_slice(&self.cards))
    }

    /// What a viewer sees of the deck: the cards first to last, with one
    /// space between neighbours.
    pub fn to_string(&self) -> (text: String)
        ensures
            text@ == joined(texts(self@)),
    {
        row_string(wire_deck_store_slice(&self.cards))
    }

    /// Every field of every card of the deck as it is sent, first to last,
    /// with one space between neighbours.
    pub fn to_debug_string(&self) -> (text: String)
        ensures
            text@ == joined(debug_texts(self@)),
    {
        row_debug_string(wire_deck_store_slice(&self.cards))
    }
}

impl From<ShuffledDeck> for WireShuffledDeckServerOrigin {
    /// Makes the form of a deck that may be sent to a viewer: card by
    /// card, in the same order.
    fn from(deck: ShuffledDeck) -> (wire: WireShuffledDeckServerOrigin)
        ensures
            wire@ == redacted_row(deck@),
            wire@.len() == 52,
    {
        let cards = deck.as_slice();
        proof {
            lemma_shuffled_deck(cards@);
        }
        let mut store = wire_deck_store_new();
        let mut i: usize = 0;
        while i < 52
            invariant
                i <= 52,
                cards@.len() == 52,
                wire_deck_cards(store) == redacted_row(cards@).take(i as int),
            decreases 52 - i,
        {
            let sent = WireCardServerOrigin::from(cards[i]);
            wire_deck_store_push(&mut store, sent);
            proof {
                assert(redacted_row(cards@).take(i as int).push(sent) =~= redacted_row(cards@).take(
                    i + 1,
                ));
            }
            i += 1;
        }
        proof {
            assert(redacted_row(cards@).take(52) =~= redacted_row(cards@));
        }
        WireShuffledDeckServerOrigin { cards: store }
    }
}

impl vstd::std_specs::convert::FromSpecImpl<ShuffledDeck> for WireShuffledDeckServerOrigin {
    /// What `from` returns is stated by its own `ensures`, over the cards
    /// of the result.
    open spec fn obeys_from_spec() -> bool {
        false
    }

    open spec fn from_spec(deck: ShuffledDeck) -> WireShuffledDeckServerOrigin {
        arbitrary()
    }
}

impl Clone for WireShuffledDeckServerOrigin {
    /// A deck of the same cards at the same places.
    fn clone(&self) -> (copy: WireShuffledDeckServerOrigin)
        ensures
            copy@ == self@,
    {
        proof {
            use_type_invariant(self);
        }
        let cards = wire_deck_store_slice(&self.cards);
        let mut store = wire_deck_store_new();
        let mut i: usize = 0;
        while i < 52
            invariant
                i <= 52,
                cards@.len() == 52,
                wire_deck_cards(store) == cards@.take(i as int),
            decreases 52 - i,
        {
            wire_deck_store_push(&mut store, cards[i]);
            proof {
                assert(cards@.take(i as int).push(cards@[i as int]) =~= cards@.take(i + 1));
            }
            i += 1;
        }
        proof {
            assert(cards@.take(52) =~= cards@);
        }
        WireShuffledDeckServerOrigin { cards: store }
    }
}

/// Of a freshly shuffled deck a viewer learns the identifiers and nothing
/// else: every card is sent under its own identifier, without suit and
/// rank, and prints as a lone star.
pub proof fn lemma_fresh_deck_is_hidden(deck: Seq<Card>)
    requires
        is_shuffled(deck),
    ensures
        redacted_row(deck).len() == 52,
        forall|i: int|
            0 <= i < 52 ==> (
                (#[trigger] redacted_row(deck)[i]).spec_id() == i
                && !redacted_row(deck)[i].spec_color().known()
                && !redacted_row(deck)[i].spec_rank().known()
                && redacted_row(deck)[i].text() == "*"@
            ),
{
    lemma_shuffled_deck(deck);
    assert forall|i: int| 0 <= i < 52 implies {
        &&& (#[trigger] redacted_row(deck)[i]).spec_id() == i
        &&& !redacted_row(deck)[i].spec_color().known()
        &&& !redacted_row(deck)[i].spec_rank().known()
        &&& redacted_row(deck)[i].text() == "*"@
    } by {
        assert(deck[i].spec_id() == i);
        lemma_redaction_hides(deck[i]);
    }
}

} // verus!
