//! The table of a game of Klondike.

use vstd::prelude::*;
use crate::card::Card;
use crate::deck::{ShuffledDeck, is_shuffled};
use crate::foundation::FoundationSlot;
use crate::stock::StockSlot;
use crate::tableau::TableauSlot;
use crate::waste_pile::WastePileSlot;

verus! {

/// The table: the deck of the game and the piles that its cards lie in.
pub struct Table {
    /// The deck is made when a game starts and is never changed after. It
    /// tells which card an identifier stands for.
    deck: ShuffledDeck,
    /// The cards that were not dealt to the tableau.
    pub stock: StockSlot,
    /// The cards that were turned over from the stock.
    pub waste_pile: WastePileSlot,
    /// One pile for each suit.
    pub foundations: [FoundationSlot; 4],
    /// The seven columns.
    pub tableau: [TableauSlot; 7],
}

impl Table {
    /// The deck of the table.
    pub closed spec fn spec_deck(&self) -> ShuffledDeck {
        self.deck
    }

    /// The cards of the stock.
    pub closed spec fn stock_cards(&self) -> Seq<Card> {
        self.stock@
    }

    /// The cards of the waste pile.
    pub closed spec fn waste_pile_cards(&self) -> Seq<Card> {
        self.waste_pile@
    }

    /// The cards of one of the four foundation piles.
    pub closed spec fn foundation_cards(&self, pile: int) -> Seq<Card> {
        self.foundations[pile]@
    }

    /// The cards of one of the seven tableau columns.
    pub closed spec fn tableau_cards(&self, column: int) -> Seq<Card> {
        self.tableau[column]@
    }

    /// A table with the deck given and nothing dealt yet: every pile is
    /// empty.
    pub fn new(deck: ShuffledDeck) -> (table: Table)
        ensures
            table.spec_deck() == deck,
            table.stock_cards() == Seq::<Card>::empty(),
            table.waste_pile_cards() == Seq::<Card>::empty(),
            forall|i: int|
                0 <= i < 4 ==> #[trigger] table.foundation_cards(i) == Seq::<Card>::empty(),
            forall|i: int|
                0 <= i < 7 ==> #[trigger] table.tableau_cards(i) == Seq::<Card>::empty(),
    {
        Table {
            deck,
            stock: StockSlot::new(),
            waste_pile: WastePileSlot::new(),
            foundations: [
                FoundationSlot::new(),
                FoundationSlot::new(),
                FoundationSlot::new(),
                FoundationSlot::new(),
            ],
            tableau: [
                TableauSlot::new(),
                TableauSlot::new(),
                TableauSlot::new(),
                TableauSlot::new(),
                TableauSlot::new(),
                TableauSlot::new(),
                TableauSlot::new(),
            ],
        }
    }

    /// The deck of the table.
    pub fn deck(&self) -> (deck: &ShuffledDeck)
        ensures
            *deck == self.spec_deck(),
            is_shuffled(deck@),
    {
        let _ = self.deck.as_slice();
        &self.deck
    }
}

} // verus!
