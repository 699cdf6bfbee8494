use klondike_cards::card::Card;
use klondike_cards::card_id::CardId;
use klondike_cards::color::Color;
use klondike_cards::rank::Rank;
use klondike_cards::text::decimal_string;
use klondike_cards::wire::WireCardServerOrigin;

fn sample(color: Color, rank: Rank, id: u8, revealed: bool, up: bool) -> Card {
    Card::new()
        .with_color(color)
        .with_rank(rank)
        .with_ever_revealed(revealed)
        .with_currently_facing_up(up)
        .with_id(CardId::from_bits(id))
}

#[test]
fn new_card_is_the_zero_word() {
    let card = Card::new();
    assert_eq!(card.into_bits(), 0);
    assert_eq!(card.color(), Color::Unknown);
    assert_eq!(card.rank(), Rank::Unknown);
    assert!(!card.ever_revealed());
    assert!(!card.currently_facing_up());
    assert_eq!(card.id(), CardId::from_bits(0));
}

#[test]
fn card_fields_sit_at_their_bits() {
    assert_eq!(Card::new().with_color(Color::Diamonds).into_bits(), 0b111);
    assert_eq!(Card::new().with_rank(Rank::K).into_bits(), 0b11100 << 3);
    assert_eq!(Card::new().with_ever_revealed(true).into_bits(), 1 << 8);
    assert_eq!(Card::new().with_currently_facing_up(true).into_bits(), 1 << 9);
    assert_eq!(Card::new().with_id(CardId::from_bits(51)).into_bits(), 51 << 10);
    let card = sample(Color::Hearts, Rank::Ten, 5, true, false);
    assert_eq!(card.into_bits(), 0b000101_0_1_11001_101);
}

#[test]
fn card_accessors_read_what_was_written() {
    let card = sample(Color::Clubs, Rank::Seven, 42, true, true);
    assert_eq!(card.color(), Color::Clubs);
    assert_eq!(card.rank(), Rank::Seven);
    assert_eq!(card.id().into_bits(), 42);
    assert_eq!(card.id_byte(), 42);
    assert!(card.ever_revealed());
    assert!(card.currently_facing_up());
    assert_eq!(Card::from_bits(card.into_bits()), card);
}

#[test]
fn card_with_keeps_the_other_fields() {
    let card = sample(Color::Clubs, Rank::Seven, 42, true, true);
    let changed = card.with_rank(Rank::A);
    assert_eq!(changed, sample(Color::Clubs, Rank::A, 42, true, true));
    let changed = card.with_color(Color::Spades);
    assert_eq!(changed, sample(Color::Spades, Rank::Seven, 42, true, true));
    let changed = card.with_currently_facing_up(false);
    assert_eq!(changed, sample(Color::Clubs, Rank::Seven, 42, true, false));
    let changed = card.with_ever_revealed(false);
    assert_eq!(changed, sample(Color::Clubs, Rank::Seven, 42, false, true));
    let changed = card.with_id(CardId::from_bits(0));
    assert_eq!(changed, sample(Color::Clubs, Rank::Seven, 0, true, true));
}

#[test]
fn card_setters_change_in_place() {
    let mut card = Card::new();
    card.set_color(Color::Hearts);
    card.set_rank(Rank::Q);
    card.set_id(CardId::from_bits(17));
    card.set_ever_revealed(true);
    card.set_currently_facing_up(true);
    assert_eq!(card, sample(Color::Hearts, Rank::Q, 17, true, true));
}

#[test]
fn card_with_out_of_range_id_bits_has_invalid_id() {
    for raw in 52..64u16 {
        let card = Card::from_bits(raw << 10);
        assert!(!card.id().is_valid());
        assert_eq!(card.id_byte(), 255);
    }
    let card = Card::new().with_id(CardId::from_bits(99));
    assert!(!card.id().is_valid());
    assert_eq!(card.into_bits(), 63 << 10);
}

#[test]
fn card_with_undefined_codes_reads_unknown() {
    let card = Card::from_bits(0b00001_011);
    assert_eq!(card.color(), Color::Unknown);
    assert_eq!(card.rank(), Rank::Unknown);
}

#[test]
fn card_rendering_respects_visibility() {
    assert_eq!(sample(Color::Spades, Rank::A, 5, true, true).to_string(), "♠A");
    assert_eq!(sample(Color::Hearts, Rank::Ten, 5, true, false).to_string(), "(♥10)");
    assert_eq!(sample(Color::Hearts, Rank::Ten, 5, false, false).to_string(), "*");
    assert_eq!(sample(Color::Diamonds, Rank::Two, 5, false, true).to_string(), "♦2");
}

#[test]
fn card_debug_rendering_shows_every_field() {
    assert_eq!(
        sample(Color::Spades, Rank::A, 5, true, false).to_debug_string(),
        "♠A(5,true,false)"
    );
    assert_eq!(
        sample(Color::Clubs, Rank::Ten, 51, false, false).to_debug_string(),
        "♣10(51,false,false)"
    );
    assert_eq!(Card::new().to_debug_string(), "??(0,false,false)");
    assert_eq!(Card::from_bits(0xffff).to_debug_string(), "♦?(255,true,true)");
}

#[test]
fn decimal_strings() {
    for n in 0..=255u8 {
        assert_eq!(decimal_string(n), format!("{}", n));
    }
    assert_eq!(decimal_string(0), "0");
    assert_eq!(decimal_string(10), "10");
    assert_eq!(decimal_string(105), "105");
}

#[test]
fn redaction_hides_a_card_that_was_never_revealed() {
    let card = sample(Color::Spades, Rank::A, 5, false, false);
    let wire = WireCardServerOrigin::from(card);
    assert_eq!(wire.color(), Color::Unknown);
    assert_eq!(wire.rank(), Rank::Unknown);
    assert!(!wire.ever_revealed());
    assert!(!wire.currently_facing_up());
    assert_eq!(wire.id(), card.id());
    assert_eq!(wire.into_bits(), 5 << 10);
    assert_eq!(wire.to_string(), "*");
}

#[test]
fn redaction_forces_face_down_on_a_card_that_was_never_revealed() {
    let card = sample(Color::Diamonds, Rank::K, 51, false, true);
    let wire = WireCardServerOrigin::from(card);
    assert_eq!(wire.into_bits(), 51 << 10);
    assert!(!wire.currently_facing_up());
    assert_eq!(wire.to_string(), "*");
}

#[test]
fn redaction_keeps_a_revealed_card_word_for_word() {
    for up in [false, true] {
        let card = sample(Color::Hearts, Rank::Nine, 23, true, up);
        let wire = WireCardServerOrigin::from(card);
        assert_eq!(wire.into_bits(), card.into_bits());
        assert_eq!(wire.color(), Color::Hearts);
        assert_eq!(wire.rank(), Rank::Nine);
        assert_eq!(wire.currently_facing_up(), up);
        assert_eq!(wire.id(), card.id());
        assert_eq!(wire.to_string(), card.to_string());
        assert_eq!(wire.to_debug_string(), card.to_debug_string());
    }
}

#[test]
fn redaction_over_every_word() {
    for bits in 0..=u16::MAX {
        let card = Card::from_bits(bits);
        let wire = WireCardServerOrigin::from(card);
        assert_eq!(wire.id(), card.id());
        if card.ever_revealed() {
            assert_eq!(wire.into_bits(), bits);
        } else {
            assert_eq!(wire.color(), Color::Unknown);
            assert_eq!(wire.rank(), Rank::Unknown);
            assert!(!wire.ever_revealed());
            assert!(!wire.currently_facing_up());
        }
    }
}

#[test]
fn wire_card_has_the_layout_of_a_card() {
    let wire = WireCardServerOrigin::new()
        .with_color(Color::Hearts)
        .with_rank(Rank::Ten)
        .with_ever_revealed(true)
        .with_currently_facing_up(false)
        .with_id(CardId::from_bits(5));
    assert_eq!(wire.into_bits(), 0b000101_0_1_11001_101);
    assert_eq!(wire.to_string(), "(♥10)");
    assert_eq!(wire.to_debug_string(), "♥10(5,true,false)");
    assert_eq!(WireCardServerOrigin::from_bits(wire.into_bits()), wire);
}

#[test]
fn card_converts_to_and_from_its_word() {
    let card = sample(Color::Clubs, Rank::J, 30, true, false);
    let word: u16 = card.into();
    assert_eq!(word, card.into_bits());
    assert_eq!(Card::from(word), card);
    assert_eq!(Card::default(), Card::new());
    let wire = WireCardServerOrigin::from(card);
    let sent: u16 = wire.into();
    assert_eq!(sent, word);
    assert_eq!(WireCardServerOrigin::from(sent), wire);
    assert_eq!(WireCardServerOrigin::default().into_bits(), 0);
}

#[test]
fn card_consistency_rule() {
    assert!(sample(Color::Clubs, Rank::J, 30, false, false).is_consistent());
    assert!(sample(Color::Clubs, Rank::J, 30, true, false).is_consistent());
    assert!(sample(Color::Clubs, Rank::J, 30, true, true).is_consistent());
    assert!(!sample(Color::Clubs, Rank::J, 30, false, true).is_consistent());
    for bits in 0..=u16::MAX {
        let card = Card::from_bits(bits);
        if card.is_consistent() || !card.ever_revealed() {
            assert!(WireCardServerOrigin::from(card).is_consistent());
        }
    }
}
