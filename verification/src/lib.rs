//! Playing card dealing shoe library.
//!
//! This crate provides a [`Shoe`]: a multi-deck card dealing shoe as used in
//! casino table games such as blackjack and baccarat.
//!
//! # Core types
//!
//! - [`Card`]: a playing card that is either a standard [`Card::Play`] card
//!   (wrapping a [`CardInt`]) or a [`Card::Cut`] card that marks the
//!   reshuffle point.
//! - [`Shoe`]: holds one or more 52-card decks plus a cut card, and exposes
//!   methods to deal and burn cards.
//!
//! Shuffling and cut card placement are the caller's responsibility.

pub mod card;
mod card_array;

pub use card::{CardInt, Rank, Suit};

use arrayvec::ArrayVec;
use vstd::prelude::*;

use crate::card_array::{
    card_array_contents, card_array_get, card_array_new, card_array_try_extend_from_slice,
};

verus! {

/// Maximum number of decks supported in a single shoe.
pub const MAX_DECKS: usize = 8;

/// Maximum number of cards in a shoe: `MAX_DECKS * 52 + 1` (includes the cut card).
pub const MAX_SHOE_SIZE: usize = MAX_DECKS * 52 + 1;

/// A card that can be held in a [`Shoe`].
#[derive(PartialEq, Eq, Structural, Debug, Clone, Copy)]
pub enum Card {
    /// A standard playing card.
    Play(CardInt),
    /// A cut card used to signal a reshuffle.
    Cut,
}

/// The rank at position `i` of a suit in [`deck`]: ace first, down to two.
pub open spec fn spec_deck_rank(i: int) -> Rank {
    if i == 0 {
        Rank::Ace
    } else if i == 1 {
        Rank::King
    } else if i == 2 {
        Rank::Queen
    } else if i == 3 {
        Rank::Jack
    } else if i == 4 {
        Rank::Ten
    } else if i == 5 {
        Rank::Nine
    } else if i == 6 {
        Rank::Eight
    } else if i == 7 {
        Rank::Seven
    } else if i == 8 {
        Rank::Six
    } else if i == 9 {
        Rank::Five
    } else if i == 10 {
        Rank::Four
    } else if i == 11 {
        Rank::Trey
    } else {
        Rank::Deuce
    }
}

/// The suit of the `i`-th group of thirteen cards in [`deck`]: spades,
/// hearts, diamonds, clubs.
pub open spec fn spec_deck_suit(i: int) -> Suit {
    if i == 0 {
        Suit::Spade
    } else if i == 1 {
        Suit::Heart
    } else if i == 2 {
        Suit::Diamond
    } else {
        Suit::Club
    }
}

/// The standard 52-card deck: thirteen cards of each suit in the order
/// spades, hearts, diamonds, clubs, each suit from ace down to two.
pub open spec fn spec_deck() -> Seq<Card> {
    Seq::new(
        52,
        |i: int| Card::Play(CardInt::spec_from_parts(spec_deck_rank(i % 13), spec_deck_suit(i / 13))),
    )
}

/// Returns a standard 52-card deck in suit order: spades, hearts, diamonds,
/// clubs, each from ace down to two.
pub fn deck() -> (d: Vec<Card>)
    ensures
        d@ == spec_deck(),
{
    let ranks: [Rank; 13] = [
        Rank::Ace,
        Rank::King,
        Rank::Queen,
        Rank::Jack,
        Rank::Ten,
        Rank::Nine,
        Rank::Eight,
        Rank::Seven,
        Rank::Six,
        Rank::Five,
        Rank::Four,
        Rank::Trey,
        Rank::Deuce,
    ];
    let suits: [Suit; 4] = [Suit::Spade, Suit::Heart, Suit::Diamond, Suit::Club];
    let mut d: Vec<Card> = Vec::new();
    let mut i: usize = 0;
    while i < 52
        invariant
            i <= 52,
            d@.len() == i,
            forall|k: int| 0 <= k < i ==> d@[k] == #[trigger] spec_deck()[k],
            forall|k: int| 0 <= k < 13 ==> ranks@[k] == spec_deck_rank(k),
            forall|k: int| 0 <= k < 4 ==> suits@[k] == spec_deck_suit(k),
        decreases 52 - i,
    {
        let rank: Rank = ranks[i % 13];
        let suit: Suit = suits[i / 13];
        assert(rank == spec_deck_rank((i % 13) as int));
        assert(suit == spec_deck_suit((i / 13) as int));
        let card: CardInt = CardInt::_new(rank, suit);
        proof {
            card::lemma_parts_determine_card(card);
        }
        d.push(Card::Play(card));
        i = i + 1;
    }
    assert(d@ =~= spec_deck());
    d
}

/// The deck runs spades, hearts, diamonds, clubs, thirteen cards each, and
/// within each suit the ranks go strictly down by one code from the ace
/// (code 14) to the two (code 2).
pub proof fn lemma_deck_order(i: int)
    requires
        0 <= i < 52,
    ensures
        spec_deck()[i] matches Card::Play(c) && {
            &&& c.spec_rank().spec_code() == 14 - i % 13
            &&& i < 13 ==> c.spec_suit() == Suit::Spade
            &&& 13 <= i < 26 ==> c.spec_suit() == Suit::Heart
            &&& 26 <= i < 39 ==> c.spec_suit() == Suit::Diamond
            &&& 39 <= i ==> c.spec_suit() == Suit::Club
        },
        i % 13 < 12 ==> (spec_deck()[i] matches Card::Play(c) && spec_deck()[i + 1] matches Card::Play(
            d,
        ) && d.spec_rank().spec_code() + 1 == c.spec_rank().spec_code() && d.spec_suit()
            == c.spec_suit()),
{
    let r = spec_deck_rank(i % 13);
    let su = spec_deck_suit(i / 13);
    card::lemma_from_parts_carries(r, su);
    if i % 13 < 12 {
        let r2 = spec_deck_rank((i + 1) % 13);
        let su2 = spec_deck_suit((i + 1) / 13);
        card::lemma_from_parts_carries(r2, su2);
        assert((i + 1) % 13 == i % 13 + 1);
        assert((i + 1) / 13 == i / 13);
    }
}

/// The deck holds no cut card and no card twice.
pub proof fn lemma_deck_cards_distinct(i: int, j: int)
    requires
        0 <= i < 52,
        0 <= j < 52,
        i != j,
    ensures
        spec_deck()[i] != Card::Cut,
        spec_deck()[i] != spec_deck()[j],
{
    let ri = spec_deck_rank(i % 13);
    let si = spec_deck_suit(i / 13);
    let rj = spec_deck_rank(j % 13);
    let sj = spec_deck_suit(j / 13);
    card::lemma_from_parts_carries(ri, si);
    card::lemma_from_parts_carries(rj, sj);
    if spec_deck()[i] == spec_deck()[j] {
        assert(ri == rj && si == sj);
        assert(i % 13 == j % 13);
        assert(i / 13 == j / 13);
        assert(i == 13 * (i / 13) + i % 13);
        assert(j == 13 * (j / 13) + j % 13);
    }
}

/// The only cut card of `cards` sits at position `i`.
pub open spec fn spec_sole_cut_at(cards: Seq<Card>, i: int) -> bool {
    &&& 0 <= i < cards.len()
    &&& cards[i] == Card::Cut
    &&& forall|j: int| 0 <= j < cards.len() && j != i ==> cards[j] != Card::Cut
}

/// `cards` holds exactly one cut card.
pub open spec fn spec_has_sole_cut(cards: Seq<Card>) -> bool {
    exists|i: int| spec_sole_cut_at(cards, i)
}

/// `cards` holds no cut card.
pub open spec fn spec_has_no_cut(cards: Seq<Card>) -> bool {
    forall|i: int| 0 <= i < cards.len() ==> cards[i] != Card::Cut
}

/// `cards` holds two cut cards or more.
pub open spec fn spec_has_several_cuts(cards: Seq<Card>) -> bool {
    exists|i: int, j: int|
        0 <= i < j < cards.len() && cards[i] == Card::Cut && cards[j] == Card::Cut
}

/// Why a slice of cards cannot make a [`Shoe`].
#[derive(PartialEq, Eq, Structural, Debug, Clone, Copy)]
pub enum ShoeError {
    /// The slice holds no cut card.
    NoCutCard,
    /// The slice holds more than one cut card.
    MultipleCutCards,
    /// The slice holds more than [`MAX_SHOE_SIZE`] cards.
    TooManyCards,
}

/// A multi-deck dealing shoe.
///
/// It holds an ordered run of cards with exactly one cut card, a cursor on
/// the next card to deal, and the position of the cut card. Cards are dealt
/// from the back: each deal hands out the card under the cursor and moves the
/// cursor one place towards the front.
pub struct Shoe {
    cards: ArrayVec<Card, MAX_SHOE_SIZE>,
    cursor: usize,
    cut_pos: usize,
}

impl Shoe {
    /// The cards the shoe was built from, in their order.
    pub closed spec fn spec_cards(&self) -> Seq<Card> {
        card_array_contents(self.cards)
    }

    /// The position of the next card to deal; the number of cards that
    /// remain to be dealt.
    pub closed spec fn spec_cursor(&self) -> nat {
        self.cursor as nat
    }

    /// The position of the cut card.
    pub closed spec fn spec_cut_pos(&self) -> nat {
        self.cut_pos as nat
    }

    /// The cursor has come down to the cut card or below it.
    pub open spec fn spec_reached_cut_card(&self) -> bool {
        self.spec_cursor() <= self.spec_cut_pos()
    }

    /// A shoe holds at most [`MAX_SHOE_SIZE`] cards, its cursor lies on one
    /// of them, and its only cut card sits at its cut position.
    pub open spec fn wf(&self) -> bool {
        &&& self.spec_cards().len() <= MAX_SHOE_SIZE
        &&& self.spec_cursor() < self.spec_cards().len()
        &&& spec_sole_cut_at(self.spec_cards(), self.spec_cut_pos() as int)
    }

    /// How many cards remain to be dealt.
    pub fn remaining(&self) -> (n: usize)
        ensures
            n == self.spec_cursor(),
    {
        self.cursor
    }

    /// Returns `true` when the cut card has been reached, signalling that the
    /// current hand is the last before a reshuffle is required.
    pub fn has_reached_cut_card(&self) -> (reached: bool)
        ensures
            reached == (self.spec_cursor() <= self.spec_cut_pos()),
    {
        self.cursor <= self.cut_pos
    }

    /// Deal the next card from the shoe, returning it by value.
    /// Returns `Some(Card::Cut)` when the cut card is dealt, and `None` when
    /// the shoe is fully exhausted.
    pub fn deal(&mut self) -> (card: Option<Card>)
        requires
            old(self).wf(),
        ensures
            final(self).wf(),
            final(self).spec_cards() == old(self).spec_cards(),
            final(self).spec_cut_pos() == old(self).spec_cut_pos(),
            old(self).spec_cursor() > 0 ==> {
                &&& card == Some(old(self).spec_cards()[old(self).spec_cursor() as int])
                &&& final(self).spec_cursor() == old(self).spec_cursor() - 1
            },
            old(self).spec_cursor() == 0 ==> card is None && final(self).spec_cursor() == 0,
            (card == Some(Card::Cut)) <==> (old(self).spec_cursor() > 0 && old(self).spec_cursor()
                == old(self).spec_cut_pos()),
            old(self).spec_reached_cut_card() ==> final(self).spec_reached_cut_card(),
    {
        if self.cursor > 0 {
            let card: Card = card_array_get(&self.cards, self.cursor);
            self.cursor -= 1;
            Some(card)
        } else {
            None
        }
    }

    /// Discard the next `n` cards from the shoe without returning them.
    ///
    /// Burning may not move the cursor past the cut card position: `requires`
    /// leaves out the `n` for which the cut position plus `n` exceeds the
    /// cursor.
    pub fn burn(&mut self, n: usize)
        requires
            old(self).wf(),
            old(self).spec_cut_pos() + n <= old(self).spec_cursor(),
        ensures
            final(self).wf(),
            final(self).spec_cards() == old(self).spec_cards(),
            final(self).spec_cut_pos() == old(self).spec_cut_pos(),
            final(self).spec_cursor() == old(self).spec_cursor() - n,
            old(self).spec_reached_cut_card() ==> final(self).spec_reached_cut_card(),
    {
        self.cursor -= n;
    }

    /// Returns the number of cards that remain in the shoe after the cut card.
    pub fn stub_size(&self) -> (n: usize)
        ensures
            n == self.spec_cut_pos(),
    {
        self.cut_pos
    }

    /// Create a [`Shoe`] from an ordered slice of cards.
    ///
    /// The slice must contain exactly one [`Card::Cut`], which determines the
    /// cut position, and at most [`MAX_SHOE_SIZE`] cards; `requires` leaves
    /// out the other slices. The cursor is set to the last index so dealing
    /// begins from the back of the slice.
    pub fn from(slice: &[Card]) -> (shoe: Shoe)
        requires
            spec_has_sole_cut(slice@),
            slice@.len() <= MAX_SHOE_SIZE,
        ensures
            shoe.wf(),
            shoe.spec_cards() == slice@,
            shoe.spec_cursor() == slice@.len() - 1,
            spec_sole_cut_at(slice@, shoe.spec_cut_pos() as int),
    {
        Self::try_from_slice(slice).unwrap()
    }

    /// Create a [`Shoe`] from an ordered slice of cards, or say why the
    /// slice cannot make one.
    ///
    /// The checks come in this order: the slice must contain a cut card,
    /// then no second one, then fit in [`MAX_SHOE_SIZE`] cards.
    pub fn try_from_slice(slice: &[Card]) -> (res: Result<Shoe, ShoeError>)
        ensures
            (res is Ok) <==> spec_has_sole_cut(slice@) && slice@.len() <= MAX_SHOE_SIZE,
            (res == Err::<Shoe, ShoeError>(ShoeError::NoCutCard)) <==> spec_has_no_cut(slice@),
            (res == Err::<Shoe, ShoeError>(ShoeError::MultipleCutCards)) <==> spec_has_several_cuts(
                slice@,
            ),
            (res == Err::<Shoe, ShoeError>(ShoeError::TooManyCards)) <==> spec_has_sole_cut(slice@)
                && slice@.len() > MAX_SHOE_SIZE,
            res matches Ok(shoe) ==> {
                &&& shoe.wf()
                &&& shoe.spec_cards() == slice@
                &&& shoe.spec_cursor() == slice@.len() - 1
                &&& spec_sole_cut_at(slice@, shoe.spec_cut_pos() as int)
            },
    {
        let n: usize = slice.len();
        let cut_pos: usize = match find_cut(slice, 0) {
            None => {
                proof {
                    lemma_no_cut_not_sole_or_several(slice@);
                }
                return Err(ShoeError::NoCutCard);
            },
            Some(i) => i,
        };
        match find_cut(slice, cut_pos + 1) {
            Some(j) => {
                proof {
                    lemma_several_cuts(slice@, cut_pos as int, j as int);
                }
                return Err(ShoeError::MultipleCutCards);
            },
            None => {},
        }
        proof {
            lemma_sole_cut(slice@, cut_pos as int);
        }
        let mut cards = card_array_new();
        match card_array_try_extend_from_slice(&mut cards, slice) {
            Ok(()) => {},
            Err(_) => {
                return Err(ShoeError::TooManyCards);
            },
        }
        assert(card_array_contents(cards) =~= slice@);
        Ok(Shoe { cards, cursor: n - 1, cut_pos })
    }
}

/// The cut card is reached exactly when the cursor, the number of cards that
/// remain, has come down to the cut card's position or below it.
pub proof fn lemma_reached_cut_card_iff_cursor_at_or_below_cut(s: Shoe)
    ensures
        s.spec_reached_cut_card() <==> s.spec_cursor() <= s.spec_cut_pos(),
        !s.spec_reached_cut_card() <==> s.spec_cursor() - s.spec_cut_pos() > 0,
{
}

/// Returns the position of the first cut card of `slice` at or after
/// `start`, or `None` when there is none there.
fn find_cut(slice: &[Card], start: usize) -> (res: Option<usize>)
    ensures
        match res {
            Some(k) => {
                &&& start <= k < slice@.len()
                &&& slice@[k as int] == Card::Cut
                &&& forall|j: int| start <= j < k ==> slice@[j] != Card::Cut
            },
            None => forall|j: int| start <= j < slice@.len() ==> slice@[j] != Card::Cut,
        },
{
    let n: usize = slice.len();
    let mut i: usize = start;
    while i < n
        invariant
            n == slice@.len(),
            start <= i || n <= i,
            forall|j: int| start <= j < i ==> slice@[j] != Card::Cut,
        decreases n - i,
    {
        if slice[i] == Card::Cut {
            return Some(i);
        }
        i = i + 1;
    }
    None
}

/// A slice with no cut card holds neither a sole cut card nor several.
proof fn lemma_no_cut_not_sole_or_several(cards: Seq<Card>)
    requires
        forall|j: int| 0 <= j < cards.len() ==> cards[j] != Card::Cut,
    ensures
        spec_has_no_cut(cards),
        !spec_has_sole_cut(cards),
        !spec_has_several_cuts(cards),
{
}

/// A slice with cut cards at two positions holds several, so neither none
/// nor a sole one.
proof fn lemma_several_cuts(cards: Seq<Card>, i: int, j: int)
    requires
        0 <= i < j < cards.len(),
        cards[i] == Card::Cut,
        cards[j] == Card::Cut,
    ensures
        spec_has_several_cuts(cards),
        !spec_has_no_cut(cards),
        !spec_has_sole_cut(cards),
{
    assert forall|k: int| !spec_sole_cut_at(cards, k) by {
        if spec_sole_cut_at(cards, k) {
            if k == i {
                assert(cards[j] != Card::Cut);
            } else {
                assert(cards[i] != Card::Cut);
            }
        }
    }
}

/// A slice whose only cut card sits at `i` holds a sole cut card, so neither
/// none nor several.
proof fn lemma_sole_cut(cards: Seq<Card>, i: int)
    requires
        spec_sole_cut_at(cards, i),
    ensures
        spec_has_sole_cut(cards),
        !spec_has_no_cut(cards),
        !spec_has_several_cuts(cards),
{
    if spec_has_several_cuts(cards) {
        let (a, b) = choose|a: int, b: int|
            0 <= a < b < cards.len() && cards[a] == Card::Cut && cards[b] == Card::Cut;
        assert(a == i && b == i);
    }
}

} // verus!
