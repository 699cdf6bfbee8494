use klondike_cards::card_id::CardId;
use klondike_cards::color::Color;
use klondike_cards::rank::Rank;

const COLORS: [Color; 5] = [
    Color::Unknown,
    Color::Spades,
    Color::Hearts,
    Color::Clubs,
    Color::Diamonds,
];

const RANKS: [Rank; 14] = [
    Rank::Unknown,
    Rank::A,
    Rank::Two,
    Rank::Three,
    Rank::Four,
    Rank::Five,
    Rank::Six,
    Rank::Seven,
    Rank::Eight,
    Rank::Nine,
    Rank::Ten,
    Rank::J,
    Rank::Q,
    Rank::K,
];

#[test]
fn cards_unknown_card() {
    let color = Color::Unknown;
    assert!(!color.is_known());
    assert_eq!(color.is_red(), None);
}

#[test]
fn color_unknown_card() {
    let color = Color::Unknown;
    assert!(!color.is_known());
    assert_eq!(color.is_red(), None);
}

#[test]
fn colors_unknown_card() {
    let color = Color::Unknown;
    assert!(!color.is_known());
    assert_eq!(color.is_red(), None);
}

#[test]
fn red_card_hearts() {
    assert!(Color::Hearts.is_known());
    assert_eq!(Color::Hearts.is_red(), Some(true));
}

#[test]
fn red_card_diamonds() {
    assert!(Color::Diamonds.is_known());
    assert_eq!(Color::Diamonds.is_red(), Some(true));
}

#[test]
fn black_card_spades() {
    assert!(Color::Spades.is_known());
    assert_eq!(Color::Spades.is_red(), Some(false));
}

#[test]
fn black_card_clubs() {
    assert!(Color::Clubs.is_known());
    assert_eq!(Color::Clubs.is_red(), Some(false));
}

#[test]
fn color_round_trip_bits() {
    for color in COLORS {
        assert_eq!(Color::from_bits(color.into_bits()), color);
    }
}

#[test]
fn color_bits_are_the_documented_codes() {
    assert_eq!(Color::Unknown.into_bits(), 0);
    assert_eq!(Color::Spades.into_bits(), 0b100);
    assert_eq!(Color::Hearts.into_bits(), 0b101);
    assert_eq!(Color::Clubs.into_bits(), 0b110);
    assert_eq!(Color::Diamonds.into_bits(), 0b111);
}

#[test]
fn color_undefined_bits_decode_to_unknown() {
    for value in 0..=255u8 {
        let defined = COLORS.iter().any(|c| c.into_bits() == value);
        if !defined {
            assert_eq!(Color::from_bits(value), Color::Unknown);
        }
    }
    assert_eq!(Color::from_bits(1), Color::Unknown);
    assert_eq!(Color::from_bits(3), Color::Unknown);
    assert_eq!(Color::from_bits(8), Color::Unknown);
    assert_eq!(Color::from_bits(255), Color::Unknown);
}

#[test]
fn color_is_red_is_none_only_for_unknown() {
    for color in COLORS {
        assert_eq!(color.is_red().is_none(), color == Color::Unknown);
        assert_eq!(color.is_known(), color != Color::Unknown);
    }
}

#[test]
fn color_symbols() {
    assert_eq!(Color::Unknown.to_string(), "?");
    assert_eq!(Color::Spades.to_string(), "♠");
    assert_eq!(Color::Hearts.to_string(), "♥");
    assert_eq!(Color::Clubs.to_string(), "♣");
    assert_eq!(Color::Diamonds.to_string(), "♦");
}

#[test]
fn rank_round_trip_bits() {
    for rank in RANKS {
        assert_eq!(Rank::from_bits(rank.into_bits()), rank);
    }
}

#[test]
fn rank_bits_are_the_documented_codes() {
    assert_eq!(Rank::Unknown.into_bits(), 0);
    assert_eq!(Rank::A.into_bits(), 0b10000);
    assert_eq!(Rank::Two.into_bits(), 0b10001);
    assert_eq!(Rank::Ten.into_bits(), 0b11001);
    assert_eq!(Rank::J.into_bits(), 0b11010);
    assert_eq!(Rank::Q.into_bits(), 0b11011);
    assert_eq!(Rank::K.into_bits(), 0b11100);
    for (offset, rank) in RANKS.iter().skip(1).enumerate() {
        assert_eq!(rank.into_bits(), 16 + offset as u8);
    }
}

#[test]
fn rank_undefined_bits_decode_to_unknown() {
    for value in 0..=255u8 {
        let defined = RANKS.iter().any(|r| r.into_bits() == value);
        if !defined {
            assert_eq!(Rank::from_bits(value), Rank::Unknown);
        }
    }
    assert_eq!(Rank::from_bits(1), Rank::Unknown);
    assert_eq!(Rank::from_bits(15), Rank::Unknown);
    assert_eq!(Rank::from_bits(29), Rank::Unknown);
    assert_eq!(Rank::from_bits(31), Rank::Unknown);
}

#[test]
fn rank_is_known_for_real_ranks_only() {
    for rank in RANKS {
        assert_eq!(rank.is_known(), rank != Rank::Unknown);
    }
}

#[test]
fn rank_symbols() {
    let expected = [
        "?", "A", "2", "3", "4", "5", "6", "7", "8", "9", "10", "J", "Q", "K",
    ];
    for (rank, text) in RANKS.iter().zip(expected) {
        assert_eq!(rank.to_string(), text);
    }
}

#[test]
fn card_id_round_trip() {
    for value in 0..52u8 {
        let id = CardId::from_bits(value);
        assert!(id.is_valid());
        assert_eq!(id.into_bits(), value);
        assert_eq!(CardId::from_bits(id.into_bits()), id);
    }
}

#[test]
fn card_id_out_of_range_is_invalid() {
    for value in 52..=255u8 {
        let id = CardId::from_bits(value);
        assert!(!id.is_valid());
        assert_eq!(id.into_bits(), 0b1111_1111);
    }
}

#[test]
fn card_id_sentinel_differs_from_every_real_id() {
    let invalid = CardId::from_bits(200);
    for value in 0..52u8 {
        assert_ne!(CardId::from_bits(value), invalid);
    }
}

#[test]
fn card_id_converts_to_and_from_its_byte() {
    assert_eq!(CardId::from(7u8), CardId::from_bits(7));
    assert_eq!(CardId::from(52u8), CardId::from_bits(255));
    assert!(!CardId::from(99u8).is_valid());
    let byte: u8 = CardId::from_bits(51).into();
    assert_eq!(byte, 51);
    let byte: u8 = CardId::from_bits(52).into();
    assert_eq!(byte, 255);
}

#[test]
fn card_id_prints_as_a_number() {
    assert_eq!(CardId::from_bits(0).to_string(), "0");
    assert_eq!(CardId::from_bits(9).to_string(), "9");
    assert_eq!(CardId::from_bits(51).to_string(), "51");
    assert_eq!(CardId::from_bits(52).to_string(), "255");
}

#[test]
fn codes_are_ordered_as_declared() {
    assert!(Color::Unknown < Color::Spades);
    assert!(Color::Spades < Color::Hearts);
    assert!(Color::Hearts < Color::Clubs);
    assert!(Color::Clubs < Color::Diamonds);
    assert!(Rank::Unknown < Rank::A);
    assert!(Rank::A < Rank::Two);
    assert!(Rank::Ten < Rank::J);
    assert!(Rank::Q < Rank::K);
    assert!(CardId::from_bits(3) < CardId::from_bits(4));
}
