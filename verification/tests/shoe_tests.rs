use arrayvec::ArrayVec;
use shoe::{deck, Card, CardInt, Shoe, ShoeError, MAX_SHOE_SIZE};

fn make_shoe(num_decks: usize, cut_card_idx: usize) -> Shoe {
    let mut cards: ArrayVec<Card, MAX_SHOE_SIZE> = ArrayVec::new();
    cards.push(Card::Cut);
    for _ in 0..num_decks {
        cards.try_extend_from_slice(&deck()).unwrap();
    }
    cards.swap(0, cut_card_idx);
    Shoe::from(cards.as_slice())
}

#[test]
fn correct_card_count() {
    for n in [1, 4, 6, 8] {
        let shoe = make_shoe(n, n * 26);
        assert_eq!(shoe.remaining(), n * 52);
    }
}

#[test]
fn has_reached_cut_card_after_dealing_past_cut() {
    // 8-deck shoe with cut card at index 14 (~96.5% penetration)
    let mut shoe = make_shoe(8, 14);
    for _ in 0..402 {
        assert!(shoe.deal().is_some());
    }
    assert!(shoe.has_reached_cut_card());
    assert_eq!(shoe.deal(), Some(Card::Cut));
    assert!(shoe.has_reached_cut_card());
    assert!(shoe.deal().is_some());
}

#[test]
fn deal_returns_card() {
    let mut shoe = make_shoe(1, 26);
    let _: Card = shoe.deal().expect("shoe should have cards");
    assert_eq!(shoe.remaining(), 51);
}

#[test]
fn exhausted_shoe_returns_none() {
    let mut shoe = make_shoe(1, 0);
    for _ in 0..52 {
        assert!(shoe.deal().is_some());
    }
    assert_eq!(shoe.remaining(), 0);
    assert!(shoe.deal().is_none());
}

#[test]
fn burn_reduces_remaining() {
    let mut shoe = make_shoe(1, 26);
    shoe.burn(5);
    assert_eq!(shoe.remaining(), 47);
}

#[test]
fn from_slice_initial_state() {
    // vec: [A, Cut, B]  ->  cursor = 2 (last index), cut_pos = 1
    let mut cards: ArrayVec<Card, MAX_SHOE_SIZE> = ArrayVec::new();
    cards.extend([
        Card::Play(CardInt::CardAs),
        Card::Cut,
        Card::Play(CardInt::CardKs),
    ]);
    let shoe = Shoe::from(cards.as_slice());
    assert_eq!(shoe.remaining(), 2); // cursor = n - 1 = 2
    assert!(!shoe.has_reached_cut_card()); // cursor(2) > cut_pos(1)
}

#[test]
fn from_slice_deals_in_reverse_order() {
    // cursor starts at last index and decrements; cards dealt top-down
    let mut cards: ArrayVec<Card, MAX_SHOE_SIZE> = ArrayVec::new();
    cards.extend([
        Card::Play(CardInt::CardAs),
        Card::Cut,
        Card::Play(CardInt::CardKs),
    ]);
    let mut shoe = Shoe::from(cards.as_slice());
    assert_eq!(shoe.deal(), Some(Card::Play(CardInt::CardKs))); // cards[2]
    assert_eq!(shoe.deal(), Some(Card::Cut)); // cards[1]
    assert_eq!(shoe.deal(), None); // cursor = 0
}

#[test]
fn from_slice_has_reached_cut_card_after_dealing_past_cut() {
    // [A, B, Cut, C, D]  ->  cursor = 4, cut_pos = 2
    let mut cards: ArrayVec<Card, MAX_SHOE_SIZE> = ArrayVec::new();
    cards.extend([
        Card::Play(CardInt::CardAs),
        Card::Play(CardInt::CardKs),
        Card::Cut,
        Card::Play(CardInt::CardQs),
        Card::Play(CardInt::CardJs),
    ]);
    let mut shoe = Shoe::from(cards.as_slice());
    assert!(!shoe.has_reached_cut_card()); // cursor = 4 > cut_pos = 2
    assert!(shoe.deal().is_some()); // cursor = 3
    assert!(!shoe.has_reached_cut_card()); // 3 > 2
    assert!(shoe.deal().is_some()); // cursor = 2
    assert!(shoe.has_reached_cut_card()); // 2 = 2
    assert!(shoe.deal().is_some()); // cursor = 1
    assert!(shoe.has_reached_cut_card()); // 1 < 2
}

#[test]
fn stub_size_from_slice() {
    // [A, Cut, B, C] -> cut_pos = 1, stub_size = 1
    let mut cards: ArrayVec<Card, MAX_SHOE_SIZE> = ArrayVec::new();
    cards.extend([
        Card::Play(CardInt::CardAs),
        Card::Cut,
        Card::Play(CardInt::CardKs),
        Card::Play(CardInt::CardQs),
    ]);
    let shoe = Shoe::from(cards.as_slice());
    assert_eq!(shoe.stub_size(), 1);
}

#[test]
fn try_from_slice_without_cut_is_refused() {
    let cards = [Card::Play(CardInt::CardAs), Card::Play(CardInt::CardKs)];
    assert_eq!(Shoe::try_from_slice(&cards).err(), Some(ShoeError::NoCutCard));
    let empty: [Card; 0] = [];
    assert_eq!(Shoe::try_from_slice(&empty).err(), Some(ShoeError::NoCutCard));
}

#[test]
fn try_from_slice_with_two_cuts_is_refused() {
    let cards = [Card::Cut, Card::Play(CardInt::CardAs), Card::Cut];
    assert_eq!(
        Shoe::try_from_slice(&cards).err(),
        Some(ShoeError::MultipleCutCards)
    );
}

#[test]
fn try_from_slice_too_many_cards_is_refused() {
    let mut cards: Vec<Card> = Vec::new();
    cards.push(Card::Cut);
    for _ in 0..8 {
        cards.extend_from_slice(&deck());
    }
    assert_eq!(cards.len(), MAX_SHOE_SIZE);
    assert!(Shoe::try_from_slice(&cards).is_ok());
    cards.push(Card::Play(CardInt::CardAs));
    assert_eq!(
        Shoe::try_from_slice(&cards).err(),
        Some(ShoeError::TooManyCards)
    );
    // The cut card checks come before the size check.
    cards.push(Card::Cut);
    assert_eq!(
        Shoe::try_from_slice(&cards).err(),
        Some(ShoeError::MultipleCutCards)
    );
}

#[test]
fn try_from_slice_accepts_single_cut_card() {
    let shoe = Shoe::try_from_slice(&[Card::Cut]).unwrap();
    assert_eq!(shoe.remaining(), 0);
    assert_eq!(shoe.stub_size(), 0);
    assert!(shoe.has_reached_cut_card());
}

#[test]
fn deal_hands_out_cut_card_only_at_cut_position() {
    let mut shoe = make_shoe(1, 20);
    assert_eq!(shoe.stub_size(), 20);
    let mut seen_cut_at: Option<usize> = None;
    while shoe.remaining() > 0 {
        let before = shoe.remaining();
        let reached_before = shoe.has_reached_cut_card();
        let card = shoe.deal().unwrap();
        assert_eq!(shoe.remaining(), before - 1);
        if card == Card::Cut {
            assert_eq!(seen_cut_at, None);
            seen_cut_at = Some(before);
        }
        if reached_before {
            assert!(shoe.has_reached_cut_card());
        }
    }
    assert_eq!(seen_cut_at, Some(20));
    assert_eq!(shoe.deal(), None);
    assert_eq!(shoe.remaining(), 0);
}

#[test]
fn burn_then_deal_continues_below_burned_cards() {
    let cards = [
        Card::Play(CardInt::CardAs),
        Card::Cut,
        Card::Play(CardInt::CardKs),
        Card::Play(CardInt::CardQs),
        Card::Play(CardInt::CardJs),
    ];
    let mut shoe = Shoe::from(&cards);
    shoe.burn(2);
    assert_eq!(shoe.remaining(), 2);
    assert_eq!(shoe.deal(), Some(Card::Play(CardInt::CardKs)));
    shoe.burn(0);
    assert_eq!(shoe.deal(), Some(Card::Cut));
    assert!(shoe.has_reached_cut_card());
}

#[test]
fn deck_is_in_suit_order() {
    let d = deck();
    assert_eq!(d.len(), 52);
    assert_eq!(d[0], Card::Play(CardInt::CardAs));
    assert_eq!(d[12], Card::Play(CardInt::Card2s));
    assert_eq!(d[13], Card::Play(CardInt::CardAh));
    assert_eq!(d[26], Card::Play(CardInt::CardAd));
    assert_eq!(d[39], Card::Play(CardInt::CardAc));
    assert_eq!(d[51], Card::Play(CardInt::Card2c));
    for i in 0..52 {
        assert_ne!(d[i], Card::Cut);
        for j in (i + 1)..52 {
            assert_ne!(d[i], d[j]);
        }
    }
}
