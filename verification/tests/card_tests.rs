use shoe::{CardInt, Rank, Suit};

#[test]
fn bit_pattern_example() {
    assert_eq!(CardInt::from_u32(0b00001000_00000000_01001101_00100101), Some(CardInt::CardKd));
    assert_eq!(CardInt::from_u32(0b00000000_00001000_00010101_00000111), Some(CardInt::Card5s));
    assert_eq!(CardInt::from_u32(0b00000010_00000000_10001011_00011101), Some(CardInt::CardJc));
    assert_eq!(CardInt::from_u32(0b00000100_00000000_10001100_00011111), Some(CardInt::CardQc));
    assert_eq!(CardInt::from_u32(0b00000000_00000000_00000000_00000000), Some(CardInt::CardXx));
}

fn all_cases() -> Vec<(Rank, Suit, CardInt)> {
    vec![
        (Rank::Cut, Suit::Cut, CardInt::CardXx),
        (Rank::Ace, Suit::Spade, CardInt::CardAs),
        (Rank::King, Suit::Spade, CardInt::CardKs),
        (Rank::Queen, Suit::Spade, CardInt::CardQs),
        (Rank::Jack, Suit::Spade, CardInt::CardJs),
        (Rank::Ten, Suit::Spade, CardInt::CardTs),
        (Rank::Nine, Suit::Spade, CardInt::Card9s),
        (Rank::Eight, Suit::Spade, CardInt::Card8s),
        (Rank::Seven, Suit::Spade, CardInt::Card7s),
        (Rank::Six, Suit::Spade, CardInt::Card6s),
        (Rank::Five, Suit::Spade, CardInt::Card5s),
        (Rank::Four, Suit::Spade, CardInt::Card4s),
        (Rank::Trey, Suit::Spade, CardInt::Card3s),
        (Rank::Deuce, Suit::Spade, CardInt::Card2s),
        (Rank::Ace, Suit::Heart, CardInt::CardAh),
        (Rank::King, Suit::Heart, CardInt::CardKh),
        (Rank::Queen, Suit::Heart, CardInt::CardQh),
        (Rank::Jack, Suit::Heart, CardInt::CardJh),
        (Rank::Ten, Suit::Heart, CardInt::CardTh),
        (Rank::Nine, Suit::Heart, CardInt::Card9h),
        (Rank::Eight, Suit::Heart, CardInt::Card8h),
        (Rank::Seven, Suit::Heart, CardInt::Card7h),
        (Rank::Six, Suit::Heart, CardInt::Card6h),
        (Rank::Five, Suit::Heart, CardInt::Card5h),
        (Rank::Four, Suit::Heart, CardInt::Card4h),
        (Rank::Trey, Suit::Heart, CardInt::Card3h),
        (Rank::Deuce, Suit::Heart, CardInt::Card2h),
        (Rank::Ace, Suit::Diamond, CardInt::CardAd),
        (Rank::King, Suit::Diamond, CardInt::CardKd),
        (Rank::Queen, Suit::Diamond, CardInt::CardQd),
        (Rank::Jack, Suit::Diamond, CardInt::CardJd),
        (Rank::Ten, Suit::Diamond, CardInt::CardTd),
        (Rank::Nine, Suit::Diamond, CardInt::Card9d),
        (Rank::Eight, Suit::Diamond, CardInt::Card8d),
        (Rank::Seven, Suit::Diamond, CardInt::Card7d),
        (Rank::Six, Suit::Diamond, CardInt::Card6d),
        (Rank::Five, Suit::Diamond, CardInt::Card5d),
        (Rank::Four, Suit::Diamond, CardInt::Card4d),
        (Rank::Trey, Suit::Diamond, CardInt::Card3d),
        (Rank::Deuce, Suit::Diamond, CardInt::Card2d),
        (Rank::Ace, Suit::Club, CardInt::CardAc),
        (Rank::King, Suit::Club, CardInt::CardKc),
        (Rank::Queen, Suit::Club, CardInt::CardQc),
        (Rank::Jack, Suit::Club, CardInt::CardJc),
        (Rank::Ten, Suit::Club, CardInt::CardTc),
        (Rank::Nine, Suit::Club, CardInt::Card9c),
        (Rank::Eight, Suit::Club, CardInt::Card8c),
        (Rank::Seven, Suit::Club, CardInt::Card7c),
        (Rank::Six, Suit::Club, CardInt::Card6c),
        (Rank::Five, Suit::Club, CardInt::Card5c),
        (Rank::Four, Suit::Club, CardInt::Card4c),
        (Rank::Trey, Suit::Club, CardInt::Card3c),
        (Rank::Deuce, Suit::Club, CardInt::Card2c),
    ]
}

#[test]
fn binary_literal_integrity() {
    for (rank, suit, card) in all_cases() {
        let actual: CardInt = CardInt::_new(rank, suit);
        assert_eq!(actual, card);
    }
}

#[test]
fn rank_extract() {
    for (rank, _suit, card) in all_cases() {
        assert_eq!(card.rank(), rank);
    }
}

#[test]
fn suit_extract() {
    for (_rank, suit, card) in all_cases() {
        assert_eq!(card.suit(), suit);
    }
}

#[test]
fn new() {
    assert_eq!(CardInt::new("Xx"), Some(CardInt::CardXx));
    assert_eq!(CardInt::new("As"), Some(CardInt::CardAs));
    assert_eq!(CardInt::new("Ks"), Some(CardInt::CardKs));
    assert_eq!(CardInt::new("Qs"), Some(CardInt::CardQs));
    assert_eq!(CardInt::new("Js"), Some(CardInt::CardJs));
    assert_eq!(CardInt::new("Ts"), Some(CardInt::CardTs));
    assert_eq!(CardInt::new("9s"), Some(CardInt::Card9s));
    assert_eq!(CardInt::new("8s"), Some(CardInt::Card8s));
    assert_eq!(CardInt::new("7s"), Some(CardInt::Card7s));
    assert_eq!(CardInt::new("6s"), Some(CardInt::Card6s));
    assert_eq!(CardInt::new("5s"), Some(CardInt::Card5s));
    assert_eq!(CardInt::new("4s"), Some(CardInt::Card4s));
    assert_eq!(CardInt::new("3s"), Some(CardInt::Card3s));
    assert_eq!(CardInt::new("2s"), Some(CardInt::Card2s));
    assert_eq!(CardInt::new("Ah"), Some(CardInt::CardAh));
    assert_eq!(CardInt::new("Kh"), Some(CardInt::CardKh));
    assert_eq!(CardInt::new("Qh"), Some(CardInt::CardQh));
    assert_eq!(CardInt::new("Jh"), Some(CardInt::CardJh));
    assert_eq!(CardInt::new("Th"), Some(CardInt::CardTh));
    assert_eq!(CardInt::new("9h"), Some(CardInt::Card9h));
    assert_eq!(CardInt::new("8h"), Some(CardInt::Card8h));
    assert_eq!(CardInt::new("7h"), Some(CardInt::Card7h));
    assert_eq!(CardInt::new("6h"), Some(CardInt::Card6h));
    assert_eq!(CardInt::new("5h"), Some(CardInt::Card5h));
    assert_eq!(CardInt::new("4h"), Some(CardInt::Card4h));
    assert_eq!(CardInt::new("3h"), Some(CardInt::Card3h));
    assert_eq!(CardInt::new("2h"), Some(CardInt::Card2h));
    assert_eq!(CardInt::new("Ad"), Some(CardInt::CardAd));
    assert_eq!(CardInt::new("Kd"), Some(CardInt::CardKd));
    assert_eq!(CardInt::new("Qd"), Some(CardInt::CardQd));
    assert_eq!(CardInt::new("Jd"), Some(CardInt::CardJd));
    assert_eq!(CardInt::new("Td"), Some(CardInt::CardTd));
    assert_eq!(CardInt::new("9d"), Some(CardInt::Card9d));
    assert_eq!(CardInt::new("8d"), Some(CardInt::Card8d));
    assert_eq!(CardInt::new("7d"), Some(CardInt::Card7d));
    assert_eq!(CardInt::new("6d"), Some(CardInt::Card6d));
    assert_eq!(CardInt::new("5d"), Some(CardInt::Card5d));
    assert_eq!(CardInt::new("4d"), Some(CardInt::Card4d));
    assert_eq!(CardInt::new("3d"), Some(CardInt::Card3d));
    assert_eq!(CardInt::new("2d"), Some(CardInt::Card2d));
    assert_eq!(CardInt::new("Ac"), Some(CardInt::CardAc));
    assert_eq!(CardInt::new("Kc"), Some(CardInt::CardKc));
    assert_eq!(CardInt::new("Qc"), Some(CardInt::CardQc));
    assert_eq!(CardInt::new("Jc"), Some(CardInt::CardJc));
    assert_eq!(CardInt::new("Tc"), Some(CardInt::CardTc));
    assert_eq!(CardInt::new("9c"), Some(CardInt::Card9c));
    assert_eq!(CardInt::new("8c"), Some(CardInt::Card8c));
    assert_eq!(CardInt::new("7c"), Some(CardInt::Card7c));
    assert_eq!(CardInt::new("6c"), Some(CardInt::Card6c));
    assert_eq!(CardInt::new("5c"), Some(CardInt::Card5c));
    assert_eq!(CardInt::new("4c"), Some(CardInt::Card4c));
    assert_eq!(CardInt::new("3c"), Some(CardInt::Card3c));
    assert_eq!(CardInt::new("2c"), Some(CardInt::Card2c));
    assert_eq!(CardInt::new("AsKs"), None);
    assert_eq!(CardInt::new("K"), None);
    assert_eq!(CardInt::new(""), None);
}

#[test]
fn rank_from_char() {
    assert_eq!(Rank::from_char('X'), Some(Rank::Cut));
    assert_eq!(Rank::from_char('x'), Some(Rank::Cut));
    assert_eq!(Rank::from_char('A'), Some(Rank::Ace));
    assert_eq!(Rank::from_char('a'), Some(Rank::Ace));
    assert_eq!(Rank::from_char('K'), Some(Rank::King));
    assert_eq!(Rank::from_char('k'), Some(Rank::King));
    assert_eq!(Rank::from_char('Q'), Some(Rank::Queen));
    assert_eq!(Rank::from_char('q'), Some(Rank::Queen));
    assert_eq!(Rank::from_char('J'), Some(Rank::Jack));
    assert_eq!(Rank::from_char('j'), Some(Rank::Jack));
    assert_eq!(Rank::from_char('T'), Some(Rank::Ten));
    assert_eq!(Rank::from_char('t'), Some(Rank::Ten));
    assert_eq!(Rank::from_char('9'), Some(Rank::Nine));
    assert_eq!(Rank::from_char('8'), Some(Rank::Eight));
    assert_eq!(Rank::from_char('7'), Some(Rank::Seven));
    assert_eq!(Rank::from_char('6'), Some(Rank::Six));
    assert_eq!(Rank::from_char('5'), Some(Rank::Five));
    assert_eq!(Rank::from_char('4'), Some(Rank::Four));
    assert_eq!(Rank::from_char('3'), Some(Rank::Trey));
    assert_eq!(Rank::from_char('2'), Some(Rank::Deuce));
    assert_eq!(Rank::from_char('1'), None);
}

#[test]
fn suit_from_char() {
    assert_eq!(Suit::from_char('X'), Some(Suit::Cut));
    assert_eq!(Suit::from_char('x'), Some(Suit::Cut));
    assert_eq!(Suit::from_char('\u{2664}'), Some(Suit::Spade));
    assert_eq!(Suit::from_char('\u{2660}'), Some(Suit::Spade));
    assert_eq!(Suit::from_char('S'), Some(Suit::Spade));
    assert_eq!(Suit::from_char('s'), Some(Suit::Spade));
    assert_eq!(Suit::from_char('\u{2661}'), Some(Suit::Heart));
    assert_eq!(Suit::from_char('\u{2665}'), Some(Suit::Heart));
    assert_eq!(Suit::from_char('H'), Some(Suit::Heart));
    assert_eq!(Suit::from_char('h'), Some(Suit::Heart));
    assert_eq!(Suit::from_char('\u{2662}'), Some(Suit::Diamond));
    assert_eq!(Suit::from_char('\u{2666}'), Some(Suit::Diamond));
    assert_eq!(Suit::from_char('D'), Some(Suit::Diamond));
    assert_eq!(Suit::from_char('d'), Some(Suit::Diamond));
    assert_eq!(Suit::from_char('\u{2667}'), Some(Suit::Club));
    assert_eq!(Suit::from_char('\u{2663}'), Some(Suit::Club));
    assert_eq!(Suit::from_char('C'), Some(Suit::Club));
    assert_eq!(Suit::from_char('c'), Some(Suit::Club));
    assert_eq!(Suit::from_char('z'), None);
}

#[test]
fn card_bits_round_trip() {
    for (_rank, _suit, card) in all_cases() {
        assert_eq!(CardInt::from_u32(card.to_u32()), Some(card));
    }
    assert_eq!(CardInt::CardAs.to_u32(), 0x1000_1e29);
    assert_eq!(CardInt::Card2c.to_u32(), 0x0001_8202);
    assert_eq!(CardInt::CardXx.to_u32(), 0);
}

#[test]
fn from_u32_refuses_unlisted_patterns() {
    assert_eq!(CardInt::from_u32(1), None);
    assert_eq!(CardInt::from_u32(0x1000), None);
    assert_eq!(CardInt::from_u32(0xFFFF_FFFF), None);
    // A listed pattern with one bit flipped is no card.
    assert_eq!(CardInt::from_u32(0x1000_1e29 ^ 0x40), None);
}

#[test]
fn card_bits_are_distinct() {
    let cases = all_cases();
    for i in 0..cases.len() {
        for j in (i + 1)..cases.len() {
            assert_ne!(cases[i].2.to_u32(), cases[j].2.to_u32());
        }
    }
}

#[test]
fn rank_primes_and_flags() {
    assert_eq!(Rank::Cut.prime(), 0);
    assert_eq!(Rank::Deuce.prime(), 2);
    assert_eq!(Rank::Four.prime(), 5);
    assert_eq!(Rank::Ace.prime(), 41);
    assert_eq!(Rank::Cut.onehot(), 0);
    assert_eq!(Rank::Deuce.onehot(), 0x1);
    assert_eq!(Rank::Ten.onehot(), 0x100);
    assert_eq!(Rank::Ace.onehot(), 0x1000);
}

#[test]
fn rank_and_suit_codes_round_trip() {
    for (rank, suit, _card) in all_cases() {
        assert_eq!(Rank::from_u8(rank.to_u8()), Some(rank));
        assert_eq!(Suit::from_u8(suit.to_u8()), Some(suit));
    }
    assert_eq!(Rank::Ace.to_u8(), 14);
    assert_eq!(Suit::Club.to_u8(), 8);
    assert_eq!(Rank::from_u8(1), None);
    assert_eq!(Rank::from_u8(15), None);
    assert_eq!(Suit::from_u8(3), None);
}

#[test]
fn new_accepts_lower_case_and_symbols() {
    assert_eq!(CardInt::new("as"), Some(CardInt::CardAs));
    assert_eq!(CardInt::new("tH"), Some(CardInt::CardTh));
    assert_eq!(CardInt::new("Q\u{2663}"), Some(CardInt::CardQc));
    assert_eq!(CardInt::new("2\u{2662}"), Some(CardInt::Card2d));
    assert_eq!(CardInt::new("xX"), Some(CardInt::CardXx));
    assert_eq!(CardInt::new("1s"), None);
    assert_eq!(CardInt::new("Az"), None);
    assert_eq!(CardInt::new("Xs5"), None);
}
