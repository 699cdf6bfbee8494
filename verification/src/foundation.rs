//! A foundation pile: the cards of one suit, built up from the ace.

use vstd::prelude::*;
use arrayvec::ArrayVec;
use crate::bounded::{
    foundation_cards, foundation_store_new, foundation_store_try_push, foundation_store_slice,
};
use crate::card::{Card, texts, debug_texts, row_string, row_debug_string};
use crate::stack_full::StackFull;
use crate::text::joined;

verus! {

/// How many cards a foundation pile holds at most.
pub const FOUNDATION_CAPACITY: usize = 13;

/// A foundation pile: the cards of one suit, built up from the ace.
pub struct FoundationSlot {
    cards: ArrayVec<Card, 13>,
}

impl View for FoundationSlot {
    type V = Seq<Card>;

    closed spec fn view(&self) -> Seq<Card> {
        foundation_cards(self.cards)
    }
}

impl FoundationSlot {
    /// The pile never holds more cards than its capacity.
    #[verifier::type_invariant]
    spec fn well_formed(self) -> bool {
        foundation_cards(self.cards).len() <= FOUNDATION_CAPACITY
    }

    /// An empty pile.
    pub fn new() -> (pile: FoundationSlot)
        ensures
            pile@ == Seq::<Card>::empty(),
    {
        FoundationSlot { cards: foundation_store_new() }
    }

    /// A pile of the cards given, pushed first to last. Up to as many cards as the pile can hold
    /// make a pile that holds them in their order; of a longer row the
    /// first card that found no room comes back in the error.
    pub fn from_slice(cards: &[Card]) -> (made: Result<FoundationSlot, StackFull>)
        ensures
            cards@.len() <= FOUNDATION_CAPACITY ==> made.is_ok() && made.unwrap()@ == cards@,
            cards@.len() > FOUNDATION_CAPACITY ==> made == Err::<FoundationSlot, StackFull>(
                (StackFull { card: cards@[FOUNDATION_CAPACITY as int] }),
            ),
    {
        let mut pile = FoundationSlot::new();
        let mut i: usize = 0;
        while i < cards.len()
            invariant
                i <= cards@.len(),
                i <= FOUNDATION_CAPACITY,
                pile@ == cards@.take(i as int),
            decreases cards@.len() - i,
        {
            match pile.push(cards[i]) {
                Ok(()) => {},
                Err(full) => {
                    return Err(full);
                },
            }
            proof {
                assert(cards@.take(i as int).push(cards@[i as int]) =~= cards@.take(i + 1));
            }
            i += 1;
        }
        proof {
            assert(cards@.take(i as int) =~= cards@);
        }
        Ok(pile)
    }

    /// Puts a card on the back of the pile. A pile that is full takes no
    /// card: it stays as it is and the card comes back in the error.
    pub fn push(&mut self, card: Card) -> (pushed: Result<(), StackFull>)
        ensures
            old(self)@.len() < FOUNDATION_CAPACITY ==> (
                pushed.is_ok()
                && final(self)@ == old(self)@.push(card)
            ),
            old(self)@.len() >= FOUNDATION_CAPACITY ==> (
                pushed == Err::<(), StackFull>((StackFull { card }))
                && final(self)@ == old(self)@
            ),
            final(self)@.len() <= FOUNDATION_CAPACITY,
    {
        proof {
            use_type_invariant(&*self);
        }
        match foundation_store_try_push(&mut self.cards, card) {
            Ok(()) => Ok(()),
            Err(_) => Err(StackFull { card }),
        }
    }

    /// How many cards the pile holds.
    pub fn len(&self) -> (count: usize)
        ensures
            count == self@.len(),
            count <= FOUNDATION_CAPACITY,
    {
        proof {
            use_type_invariant(self);
        }
        foundation_store_slice(&self.cards).len()
    }

    /// Whether the pile holds no card.
    pub fn is_empty(&self) -> (empty: bool)
        ensures
            empty == (self@.len() == 0),
    {
        self.len() == 0
    }

    /// Whether the pile can take no further card.
    pub fn is_full(&self) -> (full: bool)
        ensures
            full == (self@.len() == FOUNDATION_CAPACITY),
    {
        self.len() == FOUNDATION_CAPACITY
    }

    /// The card at a place of the pile, counted from the card that was
    /// pushed first, if the pile has that place.
    pub fn get(&self, index: usize) -> (card: Option<Card>)
        ensures
            card.is_some() <==> index < self@.len(),
            card.is_some() ==> card.unwrap() == self@[index as int],
    {
        let cards = foundation_store_slice(&self.cards);
        if index < cards.len() {
            Some(cards[index])
        } else {
            None
        }
    }

    /// The cards of the pile in the order in which they were pushed.
    pub fn as_slice(&self) -> (cards: &[Card])
        ensures
            cards@ == self@,
            cards@.len() <= FOUNDATION_CAPACITY,
    {
        proof {
            use_type_invariant(self);
        }
        foundation_store_slice(&self.cards)
    }

    /// The cards of the pile in the order in which they were pushed.
    pub fn to_vec(&self) -> (cards: Vec<Card>)
        ensures
            cards@ == self@,
    {
        vstd::slice::slice_to_vec(foundation_store_slice(&self.cards))
    }

    /// What a player sees of the pile: the cards in the order in which they
    /// were pushed, with one space between neighbours.
    pub fn to_string(&self) -> (text: String)
        ensures
            text@ == joined(texts(self@)),
    {
        row_string(foundation_store_slice(&self.cards))
    }

    /// Every field of every card of the pile, in the order in which the
    /// cards were pushed, with one space between neighbours.
    pub fn to_debug_string(&self) -> (text: String)
        ensures
            text@ == joined(debug_texts(self@)),
    {
        row_debug_string(foundation_store_slice(&self.cards))
    }
}

impl Clone for FoundationSlot {
    /// A pile of the same cards in the same order.
    fn clone(&self) -> (copy: FoundationSlot)
        ensures
            copy@ == self@,
    {
        proof {
            use_type_invariant(self);
        }
        let cards = foundation_store_slice(&self.cards);
        let mut store = foundation_store_new();
        let mut i: usize = 0;
        while i < cards.len()
            invariant
                i <= cards@.len(),
                cards@.len() <= FOUNDATION_CAPACITY,
                foundation_cards(store) == cards@.take(i as int),
            decreases cards@.len() - i,
        {
            let pushed = foundation_store_try_push(&mut store, cards[i]);
            proof {
                assert(cards@.take(i as int).push(cards@[i as int]) =~= cards@.take(i + 1));
            }
            i += 1;
        }
        proof {
            assert(cards@.take(i as int) =~= cards@);
        }
        FoundationSlot { cards: store }
    }
}

impl Default for FoundationSlot {
    fn default() -> (pile: FoundationSlot)
        ensures
            pile@ == Seq::<Card>::empty(),
    {
        FoundationSlot::new()
    }
}

} // verus!
