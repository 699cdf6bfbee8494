use klondike_cards::card::Card;
use klondike_cards::card_id::CardId;
use klondike_cards::color::Color;
use klondike_cards::deck::{cards_by_id_shuffled_deck, is_deal_order, shuffled_ids, ShuffledDeck};
use klondike_cards::rank::Rank;
use klondike_cards::wire::WireCardServerOrigin;
use klondike_cards::wire_deck::WireShuffledDeckServerOrigin;

const SUITS: [Color; 4] = [Color::Spades, Color::Hearts, Color::Clubs, Color::Diamonds];

const FACES: [Rank; 13] = [
    Rank::A,
    Rank::Two,
    Rank::Three,
    Rank::Four,
    Rank::Five,
    Rank::Six,
    Rank::Seven,
    Rank::Eight,
    Rank::Nine,
    Rank::Ten,
    Rank::J,
    Rank::Q,
    Rank::K,
];

fn check_complete(cards: &[Card]) {
    assert_eq!(cards.len(), 52);
    for (place, card) in cards.iter().enumerate() {
        assert_eq!(card.id().into_bits() as usize, place);
        assert!(card.id().is_valid());
        assert!(!card.ever_revealed());
        assert!(!card.currently_facing_up());
    }
    for suit in SUITS {
        for face in FACES {
            let count = cards
                .iter()
                .filter(|c| c.color() == suit && c.rank() == face)
                .count();
            assert_eq!(count, 1);
        }
    }
}

#[test]
fn fresh_deck_is_complete_and_in_id_order() {
    for _ in 0..20 {
        let deck = ShuffledDeck::new();
        assert_eq!(deck.len(), 52);
        check_complete(deck.as_slice());
        assert_eq!(deck.to_vec().as_slice(), deck.as_slice());
    }
}

#[test]
fn default_deck_is_complete() {
    let deck = ShuffledDeck::default();
    check_complete(deck.as_slice());
}

#[test]
fn legacy_deck_is_complete_and_in_id_order() {
    for _ in 0..20 {
        let cards = cards_by_id_shuffled_deck();
        check_complete(&cards);
    }
}

#[test]
fn shuffled_ids_are_a_deal_order() {
    let mut moved = false;
    for _ in 0..20 {
        let ids = shuffled_ids();
        assert!(is_deal_order(&ids));
        let mut sorted = ids.clone();
        sorted.sort();
        assert_eq!(sorted, (0..52u8).collect::<Vec<u8>>());
        moved = moved || ids != sorted;
    }
    assert!(moved);
}

#[test]
fn fresh_decks_differ() {
    let first = ShuffledDeck::new();
    let mut differs = false;
    for _ in 0..20 {
        let other = ShuffledDeck::new();
        differs = differs || other.as_slice() != first.as_slice();
    }
    assert!(differs);
}

#[test]
fn identity_deal_order_deals_suit_by_suit() {
    let ids: Vec<u8> = (0..52).collect();
    let deck = ShuffledDeck::from_deal_order(&ids).unwrap();
    check_complete(deck.as_slice());
    for place in 0..52usize {
        let card = deck.get(place).unwrap();
        assert_eq!(card.color(), SUITS[place / 13]);
        assert_eq!(card.rank(), FACES[place % 13]);
    }
    assert_eq!(deck.get(0).unwrap().into_bits(), 0b000000_0_0_10000_100);
    assert_eq!(deck.get(51).unwrap().into_bits(), 0b110011_0_0_11100_111);
    assert_eq!(deck.get(52), None);
}

#[test]
fn reversed_deal_order_is_sorted_back() {
    let ids: Vec<u8> = (0..52).rev().collect();
    let deck = ShuffledDeck::from_deal_order(&ids).unwrap();
    check_complete(deck.as_slice());
    for turn in 0..52usize {
        let card = deck.get(51 - turn).unwrap();
        assert_eq!(card.color(), SUITS[turn / 13]);
        assert_eq!(card.rank(), FACES[turn % 13]);
        assert_eq!(card.id().into_bits() as usize, 51 - turn);
    }
    assert_eq!(deck.get(51).unwrap().color(), Color::Spades);
    assert_eq!(deck.get(51).unwrap().rank(), Rank::A);
    assert_eq!(deck.get(0).unwrap().color(), Color::Diamonds);
    assert_eq!(deck.get(0).unwrap().rank(), Rank::K);
}

#[test]
fn scattered_deal_order_puts_each_card_at_its_id() {
    let ids: Vec<u8> = (0..52u32).map(|k| ((k * 7 + 3) % 52) as u8).collect();
    assert!(is_deal_order(&ids));
    let deck = ShuffledDeck::from_deal_order(&ids).unwrap();
    check_complete(deck.as_slice());
    for turn in 0..52usize {
        let card = deck.card(CardId::from_bits(ids[turn])).unwrap();
        assert_eq!(card.color(), SUITS[turn / 13]);
        assert_eq!(card.rank(), FACES[turn % 13]);
    }
}

#[test]
fn rows_that_are_no_deal_order_give_no_deck() {
    let short: Vec<u8> = (0..51).collect();
    assert!(!is_deal_order(&short));
    assert!(ShuffledDeck::from_deal_order(&short).is_none());
    let long: Vec<u8> = (0..53).collect();
    assert!(!is_deal_order(&long));
    assert!(ShuffledDeck::from_deal_order(&long).is_none());
    let mut twice: Vec<u8> = (0..52).collect();
    twice[10] = 11;
    assert!(!is_deal_order(&twice));
    assert!(ShuffledDeck::from_deal_order(&twice).is_none());
    let mut out_of_range: Vec<u8> = (0..52).collect();
    out_of_range[51] = 52;
    assert!(!is_deal_order(&out_of_range));
    assert!(ShuffledDeck::from_deal_order(&out_of_range).is_none());
    assert!(ShuffledDeck::from_deal_order(&Vec::new()).is_none());
}

#[test]
fn deck_card_by_id() {
    let deck = ShuffledDeck::new();
    for value in 0..52u8 {
        let card = deck.card(CardId::from_bits(value)).unwrap();
        assert_eq!(card.id().into_bits(), value);
        assert_eq!(Some(card), deck.get(value as usize));
    }
    assert_eq!(deck.card(CardId::from_bits(52)), None);
    assert_eq!(deck.card(CardId::from_bits(255)), None);
}

#[test]
fn deck_clone_holds_the_same_cards() {
    let deck = ShuffledDeck::new();
    let copy = deck.clone();
    assert_eq!(copy.as_slice(), deck.as_slice());
}

#[test]
fn fresh_deck_prints_as_stars() {
    let deck = ShuffledDeck::new();
    let stars = vec!["*"; 52].join(" ");
    assert_eq!(deck.to_string(), stars);
}

#[test]
fn deck_debug_rendering_joins_the_cards() {
    let ids: Vec<u8> = (0..52).collect();
    let deck = ShuffledDeck::from_deal_order(&ids).unwrap();
    let text = deck.to_debug_string();
    assert!(text.starts_with("♠A(0,false,false) ♠2(1,false,false) ♠3(2,false,false)"));
    assert!(text.ends_with("♦Q(50,false,false) ♦K(51,false,false)"));
    let expected: Vec<String> = deck.as_slice().iter().map(|c| c.to_debug_string()).collect();
    assert_eq!(text, expected.join(" "));
}

#[test]
fn wire_deck_of_a_fresh_deck_hides_every_card() {
    let deck = ShuffledDeck::new();
    let wire: WireShuffledDeckServerOrigin = deck.clone().into();
    assert_eq!(wire.len(), 52);
    for place in 0..52usize {
        let sent = wire.get(place).unwrap();
        assert_eq!(sent, WireCardServerOrigin::from(deck.get(place).unwrap()));
        assert_eq!(sent.color(), Color::Unknown);
        assert_eq!(sent.rank(), Rank::Unknown);
        assert_eq!(sent.id().into_bits() as usize, place);
        assert_eq!(sent.into_bits(), (place as u16) << 10);
    }
    assert_eq!(wire.get(52), None);
    assert_eq!(wire.to_string(), vec!["*"; 52].join(" "));
    assert!(wire.to_debug_string().starts_with("??(0,false,false) ??(1,false,false)"));
    assert_eq!(wire.to_vec().as_slice(), wire.as_slice());
    assert_eq!(wire.clone().as_slice(), wire.as_slice());
}

#[test]
fn end_to_end_reveal_of_card_five() {
    let deck = ShuffledDeck::new();
    let mut card = deck.card(CardId::from_bits(5)).unwrap();
    assert!(!card.ever_revealed());
    let wire = WireCardServerOrigin::from(card);
    assert_eq!(wire.to_string(), "*");
    card.set_ever_revealed(true);
    card.set_currently_facing_up(true);
    let wire = WireCardServerOrigin::from(card);
    assert_eq!(wire.to_string(), card.to_string());
    assert_eq!(
        wire.to_string(),
        format!("{}{}", card.color().to_string(), card.rank().to_string())
    );
    assert!(card.color().is_known());
    assert!(card.rank().is_known());
}

#[test]
fn end_to_end_reveal_of_the_ace_of_spades() {
    let mut ids: Vec<u8> = (0..52).collect();
    ids.swap(0, 5);
    let deck = ShuffledDeck::from_deal_order(&ids).unwrap();
    let mut card = deck.card(CardId::from_bits(5)).unwrap();
    assert_eq!(WireCardServerOrigin::from(card).to_string(), "*");
    card.set_ever_revealed(true);
    card.set_currently_facing_up(true);
    assert_eq!(card.to_string(), "♠A");
    assert_eq!(WireCardServerOrigin::from(card).to_string(), "♠A");
}
