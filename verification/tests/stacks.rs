use klondike_cards::card::Card;
use klondike_cards::card_id::CardId;
use klondike_cards::color::Color;
use klondike_cards::deck::ShuffledDeck;
use klondike_cards::foundation::{FoundationSlot, FOUNDATION_CAPACITY};
use klondike_cards::rank::Rank;
use klondike_cards::stack_full::StackFull;
use klondike_cards::stock::{StockSlot, STOCK_CAPACITY};
use klondike_cards::table::Table;
use klondike_cards::tableau::{TableauSlot, TABLEAU_CAPACITY};
use klondike_cards::waste_pile::{WastePileSlot, WASTE_PILE_CAPACITY};

fn numbered(id: u8) -> Card {
    Card::new()
        .with_color(Color::Hearts)
        .with_rank(Rank::Five)
        .with_id(CardId::from_bits(id))
}

#[test]
fn capacities() {
    assert_eq!(STOCK_CAPACITY, 21);
    assert_eq!(WASTE_PILE_CAPACITY, 21);
    assert_eq!(FOUNDATION_CAPACITY, 13);
    assert_eq!(TABLEAU_CAPACITY, 19);
}

#[test]
fn stock_takes_its_capacity_and_no_more() {
    let mut pile = StockSlot::new();
    assert!(pile.is_empty());
    for id in 0..21u8 {
        assert!(!pile.is_full());
        assert_eq!(pile.push(numbered(id)), Ok(()));
        assert_eq!(pile.len(), id as usize + 1);
    }
    assert!(pile.is_full());
    assert_eq!(pile.push(numbered(21)), Err(StackFull { card: numbered(21) }));
    assert_eq!(pile.len(), 21);
    let expected: Vec<Card> = (0..21u8).map(numbered).collect();
    assert_eq!(pile.to_vec(), expected);
    assert_eq!(pile.as_slice(), expected.as_slice());
    assert_eq!(pile.get(20), Some(numbered(20)));
    assert_eq!(pile.get(21), None);
}

#[test]
fn waste_pile_takes_its_capacity_and_no_more() {
    let mut pile = WastePileSlot::new();
    for id in 0..21u8 {
        assert_eq!(pile.push(numbered(id)), Ok(()));
    }
    assert_eq!(pile.push(numbered(21)), Err(StackFull { card: numbered(21) }));
    let expected: Vec<Card> = (0..21u8).map(numbered).collect();
    assert_eq!(pile.to_vec(), expected);
    assert_eq!(pile.len(), 21);
    assert!(pile.is_full());
}

#[test]
fn foundation_takes_its_capacity_and_no_more() {
    let mut pile = FoundationSlot::new();
    for id in 0..13u8 {
        assert_eq!(pile.push(numbered(id)), Ok(()));
    }
    assert_eq!(pile.push(numbered(13)), Err(StackFull { card: numbered(13) }));
    let expected: Vec<Card> = (0..13u8).map(numbered).collect();
    assert_eq!(pile.to_vec(), expected);
    assert_eq!(pile.len(), 13);
    assert!(pile.is_full());
}

#[test]
fn tableau_takes_its_capacity_and_no_more() {
    let mut pile = TableauSlot::new();
    for id in 0..19u8 {
        assert_eq!(pile.push(numbered(id)), Ok(()));
    }
    assert_eq!(pile.push(numbered(19)), Err(StackFull { card: numbered(19) }));
    let expected: Vec<Card> = (0..19u8).map(numbered).collect();
    assert_eq!(pile.to_vec(), expected);
    assert_eq!(pile.len(), 19);
    assert!(pile.is_full());
}

#[test]
fn empty_pile_prints_as_nothing() {
    assert_eq!(StockSlot::new().to_string(), "");
    assert_eq!(StockSlot::new().to_debug_string(), "");
    assert_eq!(WastePileSlot::default().to_string(), "");
    assert_eq!(FoundationSlot::default().to_string(), "");
    assert_eq!(TableauSlot::default().to_debug_string(), "");
    assert_eq!(StockSlot::default().len(), 0);
    assert_eq!(TableauSlot::new().get(0), None);
}

#[test]
fn pile_prints_its_cards_in_push_order() {
    let mut pile = TableauSlot::new();
    pile.push(numbered(3)).unwrap();
    assert_eq!(pile.to_string(), "*");
    pile.push(numbered(4).with_ever_revealed(true)).unwrap();
    pile.push(
        Card::new()
            .with_color(Color::Spades)
            .with_rank(Rank::K)
            .with_ever_revealed(true)
            .with_currently_facing_up(true)
            .with_id(CardId::from_bits(9)),
    )
    .unwrap();
    assert_eq!(pile.to_string(), "* (♥5) ♠K");
    assert_eq!(
        pile.to_debug_string(),
        "♥5(3,false,false) ♥5(4,true,false) ♠K(9,true,true)"
    );
}

#[test]
fn pile_clone_holds_the_same_cards() {
    let mut pile = FoundationSlot::new();
    for id in 0..5u8 {
        pile.push(numbered(id)).unwrap();
    }
    let copy = pile.clone();
    assert_eq!(copy.to_vec(), pile.to_vec());
    pile.push(numbered(5)).unwrap();
    assert_eq!(copy.len(), 5);
    assert_eq!(pile.len(), 6);
    let mut stock = StockSlot::new();
    stock.push(numbered(1)).unwrap();
    assert_eq!(stock.clone().to_vec(), vec![numbered(1)]);
    let mut waste = WastePileSlot::new();
    waste.push(numbered(2)).unwrap();
    assert_eq!(waste.clone().to_vec(), vec![numbered(2)]);
    let mut column = TableauSlot::new();
    column.push(numbered(3)).unwrap();
    assert_eq!(column.clone().to_vec(), vec![numbered(3)]);
}

#[test]
fn new_table_has_empty_piles_and_keeps_its_deck() {
    let deck = ShuffledDeck::new();
    let cards = deck.to_vec();
    let mut table = Table::new(deck);
    assert_eq!(table.deck().to_vec(), cards);
    assert!(table.stock.is_empty());
    assert!(table.waste_pile.is_empty());
    assert_eq!(table.foundations.len(), 4);
    assert_eq!(table.tableau.len(), 7);
    assert!(table.foundations.iter().all(|pile| pile.is_empty()));
    assert!(table.tableau.iter().all(|pile| pile.is_empty()));
    let first = table.deck().get(0).unwrap();
    table.tableau[6].push(first).unwrap();
    assert_eq!(table.tableau[6].to_vec(), vec![first]);
}

#[test]
fn pile_from_slice_takes_up_to_its_capacity() {
    let cards: Vec<Card> = (0..30u8).map(numbered).collect();
    let pile = StockSlot::from_slice(&cards[..21]).unwrap();
    assert_eq!(pile.as_slice(), &cards[..21]);
    assert_eq!(
        StockSlot::from_slice(&cards[..22]).err(),
        Some(StackFull { card: numbered(21) })
    );
    assert_eq!(WastePileSlot::from_slice(&cards[..21]).unwrap().as_slice(), &cards[..21]);
    assert_eq!(
        WastePileSlot::from_slice(&cards).err(),
        Some(StackFull { card: numbered(21) })
    );
    assert_eq!(FoundationSlot::from_slice(&cards[..13]).unwrap().as_slice(), &cards[..13]);
    assert_eq!(
        FoundationSlot::from_slice(&cards[..14]).err(),
        Some(StackFull { card: numbered(13) })
    );
    assert_eq!(TableauSlot::from_slice(&cards[..19]).unwrap().as_slice(), &cards[..19]);
    assert_eq!(
        TableauSlot::from_slice(&cards[..20]).err(),
        Some(StackFull { card: numbered(19) })
    );
    assert!(TableauSlot::from_slice(&[]).unwrap().is_empty());
}
