//! Ranks, suits and the Cactus Kev card integer.

use vstd::prelude::*;

verus! {

/// Prime assigned to each rank, indexed by the rank's code.
const PRIMES: [u8; 15] = [0, 0, 2, 3, 5, 7, 11, 13, 17, 19, 23, 29, 31, 37, 41];

/// The rank of a playing card, or the special cut-card sentinel.
///
/// The rank's code (see [`Rank::to_u8`]) indexes the prime table and is
/// stored in the rank field (bits 8-11) of the Cactus Kev integer. The `Cut`
/// rank has code 0 and gives an all-zero bit pattern.
#[derive(PartialEq, Eq, Structural, Debug, Clone, Copy)]
pub enum Rank {
    /// Cut (X)
    Cut,
    /// Two (2)
    Deuce,
    /// Three (3)
    Trey,
    /// Four (4)
    Four,
    /// Five (5)
    Five,
    /// Six (6)
    Six,
    /// Seven (7)
    Seven,
    /// Eight (8)
    Eight,
    /// Nine (9)
    Nine,
    /// Ten (T)
    Ten,
    /// Jack (J)
    Jack,
    /// Queen (Q)
    Queen,
    /// King (K)
    King,
    /// Ace (A)
    Ace,
}

impl Rank {
    /// The rank's code: 0 for `Cut`, then 2 (Deuce) up to 14 (Ace).
    pub open spec fn spec_code(self) -> u32 {
        match self {
            Rank::Cut => 0,
            Rank::Deuce => 2,
            Rank::Trey => 3,
            Rank::Four => 4,
            Rank::Five => 5,
            Rank::Six => 6,
            Rank::Seven => 7,
            Rank::Eight => 8,
            Rank::Nine => 9,
            Rank::Ten => 10,
            Rank::Jack => 11,
            Rank::Queen => 12,
            Rank::King => 13,
            Rank::Ace => 14,
        }
    }

    /// The prime of the rank: 2, 3, 5, ..., 41 from Deuce to Ace; 0 for `Cut`.
    pub open spec fn spec_prime(self) -> u32 {
        match self {
            Rank::Cut => 0,
            Rank::Deuce => 2,
            Rank::Trey => 3,
            Rank::Four => 5,
            Rank::Five => 7,
            Rank::Six => 11,
            Rank::Seven => 13,
            Rank::Eight => 17,
            Rank::Nine => 19,
            Rank::Ten => 23,
            Rank::Jack => 29,
            Rank::Queen => 31,
            Rank::King => 37,
            Rank::Ace => 41,
        }
    }

    /// The one-hot rank flag: Deuce is 0x1, each rank up doubles it, Ace is
    /// 0x1000; 0 for `Cut`.
    pub open spec fn spec_onehot(self) -> u32 {
        match self {
            Rank::Cut => 0,
            Rank::Deuce => 0x1,
            Rank::Trey => 0x2,
            Rank::Four => 0x4,
            Rank::Five => 0x8,
            Rank::Six => 0x10,
            Rank::Seven => 0x20,
            Rank::Eight => 0x40,
            Rank::Nine => 0x80,
            Rank::Ten => 0x100,
            Rank::Jack => 0x200,
            Rank::Queen => 0x400,
            Rank::King => 0x800,
            Rank::Ace => 0x1000,
        }
    }

    /// The characters that name the rank: its upper and lower case letter or
    /// digit, and `X`/`x` for the cut card.
    pub open spec fn spec_accepts(self, c: char) -> bool {
        match self {
            Rank::Cut => c == 'X' || c == 'x',
            Rank::Ace => c == 'A' || c == 'a',
            Rank::King => c == 'K' || c == 'k',
            Rank::Queen => c == 'Q' || c == 'q',
            Rank::Jack => c == 'J' || c == 'j',
            Rank::Ten => c == 'T' || c == 't',
            Rank::Nine => c == '9',
            Rank::Eight => c == '8',
            Rank::Seven => c == '7',
            Rank::Six => c == '6',
            Rank::Five => c == '5',
            Rank::Four => c == '4',
            Rank::Trey => c == '3',
            Rank::Deuce => c == '2',
        }
    }

    /// Returns the rank's code: 0 for `Cut`, 2 for Deuce up to 14 for Ace.
    pub fn to_u8(self) -> (v: u8)
        ensures
            v == self.spec_code(),
    {
        match self {
            Rank::Cut => 0,
            Rank::Deuce => 2,
            Rank::Trey => 3,
            Rank::Four => 4,
            Rank::Five => 5,
            Rank::Six => 6,
            Rank::Seven => 7,
            Rank::Eight => 8,
            Rank::Nine => 9,
            Rank::Ten => 10,
            Rank::Jack => 11,
            Rank::Queen => 12,
            Rank::King => 13,
            Rank::Ace => 14,
        }
    }

    /// Returns the rank whose code is `v`, or `None` when no rank has it.
    pub fn from_u8(v: u8) -> (res: Option<Rank>)
        ensures
            forall|r: Rank| (res == Some(r)) <==> r.spec_code() == v,
    {
        let res = match v {
            0 => Some(Rank::Cut),
            2 => Some(Rank::Deuce),
            3 => Some(Rank::Trey),
            4 => Some(Rank::Four),
            5 => Some(Rank::Five),
            6 => Some(Rank::Six),
            7 => Some(Rank::Seven),
            8 => Some(Rank::Eight),
            9 => Some(Rank::Nine),
            10 => Some(Rank::Ten),
            11 => Some(Rank::Jack),
            12 => Some(Rank::Queen),
            13 => Some(Rank::King),
            14 => Some(Rank::Ace),
            _ => None,
        };
        assert forall|r: Rank| (res == Some(r)) <==> r.spec_code() == v by {
            match r {
                Rank::Cut => {},
                _ => {},
            }
        }
        res
    }

    /// Returns the unique prime number assigned to this rank.
    ///
    /// Primes are used in the Cactus Kev encoding so that any hand can be
    /// identified by the product of its ranks' primes. Values range from 2
    /// (Deuce) to 41 (Ace). Returns 0 for `Cut`.
    pub fn prime(self) -> (p: u32)
        ensures
            p == self.spec_prime(),
    {
        let idx: u8 = self.to_u8();
        PRIMES[idx as usize] as u32
    }

    /// Returns a one-hot bitmask for this rank's position.
    ///
    /// Computes `(1 << code) >> 2`, so that Deuce (code 2) maps to 0x1, up
    /// to Ace (code 14) at 0x1000. The result is shifted left by 16 into the
    /// upper bits of the Cactus Kev integer for straight detection. Returns 0
    /// for `Cut`.
    pub fn onehot(self) -> (m: u32)
        ensures
            m == self.spec_onehot(),
    {
        let code: u32 = self.to_u8() as u32;
        proof {
            lemma_onehot_shifts();
        }
        (1u32 << code) >> 2u32
    }

    /// Parses a single character into a `Rank`.
    ///
    /// Accepts upper and lowercase alphanumeric card rank letters (`A`/`a`
    /// through `2`), plus `X`/`x` for the cut card. Returns `None` for any
    /// unrecognised character.
    pub fn from_char(value: char) -> (res: Option<Rank>)
        ensures
            forall|r: Rank| (res == Some(r)) <==> r.spec_accepts(value),
    {
        let res = match value {
            'X' | 'x' => Some(Rank::Cut),
            'A' | 'a' => Some(Rank::Ace),
            'K' | 'k' => Some(Rank::King),
            'Q' | 'q' => Some(Rank::Queen),
            'J' | 'j' => Some(Rank::Jack),
            'T' | 't' => Some(Rank::Ten),
            '9' => Some(Rank::Nine),
            '8' => Some(Rank::Eight),
            '7' => Some(Rank::Seven),
            '6' => Some(Rank::Six),
            '5' => Some(Rank::Five),
            '4' => Some(Rank::Four),
            '3' => Some(Rank::Trey),
            '2' => Some(Rank::Deuce),
            _ => None,
        };
        assert forall|r: Rank| (res == Some(r)) <==> r.spec_accepts(value) by {
            match r {
                Rank::Cut => {},
                _ => {},
            }
        }
        res
    }
}


/// The suit of a playing card, or the special cut-card sentinel.
///
/// For the four standard suits the code (see [`Suit::to_u8`]) is a one-hot
/// nibble stored in bits 12-15 of the Cactus Kev card integer, so flush
/// detection can be tested with a single bitwise AND. `Cut` has code 0.
#[derive(PartialEq, Eq, Structural, Debug, Clone, Copy)]
pub enum Suit {
    /// Cut Card
    Cut,
    /// Spades
    Spade,
    /// Hearts
    Heart,
    /// Diamonds
    Diamond,
    /// Clubs
    Club,
}

impl Suit {
    /// The suit's code: 0 for `Cut`, then 1, 2, 4, 8 for spades, hearts,
    /// diamonds and clubs.
    pub open spec fn spec_code(self) -> u32 {
        match self {
            Suit::Cut => 0x0,
            Suit::Spade => 0x1,
            Suit::Heart => 0x2,
            Suit::Diamond => 0x4,
            Suit::Club => 0x8,
        }
    }

    /// The characters that name the suit: the white and the black suit
    /// symbol, the upper and the lower case initial, and `X`/`x` for the cut
    /// card.
    pub open spec fn spec_accepts(self, c: char) -> bool {
        match self {
            Suit::Cut => c == 'X' || c == 'x',
            Suit::Spade => c == '\u{2664}' || c == '\u{2660}' || c == 'S' || c == 's',
            Suit::Heart => c == '\u{2661}' || c == '\u{2665}' || c == 'H' || c == 'h',
            Suit::Diamond => c == '\u{2662}' || c == '\u{2666}' || c == 'D' || c == 'd',
            Suit::Club => c == '\u{2667}' || c == '\u{2663}' || c == 'C' || c == 'c',
        }
    }

    /// Returns the suit's code: 0 for `Cut`, 1, 2, 4, 8 for spades, hearts,
    /// diamonds and clubs.
    pub fn to_u8(self) -> (v: u8)
        ensures
            v == self.spec_code(),
    {
        match self {
            Suit::Cut => 0x0,
            Suit::Spade => 0x1,
            Suit::Heart => 0x2,
            Suit::Diamond => 0x4,
            Suit::Club => 0x8,
        }
    }

    /// Returns the suit whose code is `v`, or `None` when no suit has it.
    pub fn from_u8(v: u8) -> (res: Option<Suit>)
        ensures
            forall|s: Suit| (res == Some(s)) <==> s.spec_code() == v,
    {
        let res = match v {
            0x0 => Some(Suit::Cut),
            0x1 => Some(Suit::Spade),
            0x2 => Some(Suit::Heart),
            0x4 => Some(Suit::Diamond),
            0x8 => Some(Suit::Club),
            _ => None,
        };
        assert forall|s: Suit| (res == Some(s)) <==> s.spec_code() == v by {
            match s {
                Suit::Cut => {},
                _ => {},
            }
        }
        res
    }

    /// Parses a single character into a `Suit`.
    ///
    /// Accepts the unicode suit symbols (white and black), the ASCII
    /// initials (`S`/`s`, `H`/`h`, `D`/`d`, `C`/`c`), and `X`/`x` for the cut
    /// card. Returns `None` for any unrecognised character.
    pub fn from_char(value: char) -> (res: Option<Suit>)
        ensures
            forall|s: Suit| (res == Some(s)) <==> s.spec_accepts(value),
    {
        let res = match value {
            'X' | 'x' => Some(Suit::Cut),
            '\u{2664}' | '\u{2660}' | 'S' | 's' => Some(Suit::Spade),
            '\u{2661}' | '\u{2665}' | 'H' | 'h' => Some(Suit::Heart),
            '\u{2662}' | '\u{2666}' | 'D' | 'd' => Some(Suit::Diamond),
            '\u{2667}' | '\u{2663}' | 'C' | 'c' => Some(Suit::Club),
            _ => None,
        };
        assert forall|s: Suit| (res == Some(s)) <==> s.spec_accepts(value) by {
            match s {
                Suit::Cut => {},
                _ => {},
            }
        }
        res
    }
}

/// The shifts that [`Rank::onehot`] computes, for each rank code.
proof fn lemma_onehot_shifts()
    by (bit_vector)
    ensures
        (1u32 << 0u32) >> 2u32 == 0u32,
        (1u32 << 2u32) >> 2u32 == 0x1u32,
        (1u32 << 3u32) >> 2u32 == 0x2u32,
        (1u32 << 4u32) >> 2u32 == 0x4u32,
        (1u32 << 5u32) >> 2u32 == 0x8u32,
        (1u32 << 6u32) >> 2u32 == 0x10u32,
        (1u32 << 7u32) >> 2u32 == 0x20u32,
        (1u32 << 8u32) >> 2u32 == 0x40u32,
        (1u32 << 9u32) >> 2u32 == 0x80u32,
        (1u32 << 10u32) >> 2u32 == 0x100u32,
        (1u32 << 11u32) >> 2u32 == 0x200u32,
        (1u32 << 12u32) >> 2u32 == 0x400u32,
        (1u32 << 13u32) >> 2u32 == 0x800u32,
        (1u32 << 14u32) >> 2u32 == 0x1000u32,
{
}

/// A playing card (or cut card) in the Cactus Kev encoding.
///
/// Each variant encodes a unique (rank, suit) pair in a single `u32` (see
/// [`CardInt::to_u32`]) with the following bit layout:
///
/// ```text
/// +--------+--------+--------+--------+
/// |xxxbbbbb|bbbbbbbb|cdhsrrrr|xxpppppp|
/// +--------+--------+--------+--------+
///
/// Bits 28-16  b = one-hot rank flag (Deuce=0x1,Trey=0x2,...,Ace=0x1000; 0 for Cut)
/// Bits 15-12  cdhs = suit nibble (Spade=1,Heart=2,Diamond=4,Club=8; 0 for Cut)
/// Bits 11- 8  r = rank code (Deuce=2,Trey=3,...,Ace=14; 0 for Cut)
/// Bits  5- 0  p = rank prime (Deuce=2,Trey=3,Four=5,...,Ace=41; 0 for Cut)
/// ```
///
/// Playing card variants are named `Card<Rank><Suit>` where rank uses its
/// conventional character (`A K Q J T 9 ... 2`) and suit uses its initial
/// (`s h d c`). The cut card `CardXx` is the all-zeros pattern.
#[derive(PartialEq, Eq, Structural, Debug, Clone, Copy)]
pub enum CardInt {
    CardXx,
    CardAs,
    CardKs,
    CardQs,
    CardJs,
    CardTs,
    Card9s,
    Card8s,
    Card7s,
    Card6s,
    Card5s,
    Card4s,
    Card3s,
    Card2s,
    CardAh,
    CardKh,
    CardQh,
    CardJh,
    CardTh,
    Card9h,
    Card8h,
    Card7h,
    Card6h,
    Card5h,
    Card4h,
    Card3h,
    Card2h,
    CardAd,
    CardKd,
    CardQd,
    CardJd,
    CardTd,
    Card9d,
    Card8d,
    Card7d,
    Card6d,
    Card5d,
    Card4d,
    Card3d,
    Card2d,
    CardAc,
    CardKc,
    CardQc,
    CardJc,
    CardTc,
    Card9c,
    Card8c,
    Card7c,
    Card6c,
    Card5c,
    Card4c,
    Card3c,
    Card2c,
}

impl CardInt {
    /// The card's bit pattern: the value listed for each variant.
    pub open spec fn spec_bits(self) -> u32 {
        match self {
            CardInt::CardXx => 0b0000_0000_0000_0000_0000_0000_0000_0000,
            CardInt::CardAs => 0b0001_0000_0000_0000_0001_1110_0010_1001,
            CardInt::CardKs => 0b0000_1000_0000_0000_0001_1101_0010_0101,
            CardInt::CardQs => 0b0000_0100_0000_0000_0001_1100_0001_1111,
            CardInt::CardJs => 0b0000_0010_0000_0000_0001_1011_0001_1101,
            CardInt::CardTs => 0b0000_0001_0000_0000_0001_1010_0001_0111,
            CardInt::Card9s => 0b0000_0000_1000_0000_0001_1001_0001_0011,
            CardInt::Card8s => 0b0000_0000_0100_0000_0001_1000_0001_0001,
            CardInt::Card7s => 0b0000_0000_0010_0000_0001_0111_0000_1101,
            CardInt::Card6s => 0b0000_0000_0001_0000_0001_0110_0000_1011,
            CardInt::Card5s => 0b0000_0000_0000_1000_0001_0101_0000_0111,
            CardInt::Card4s => 0b0000_0000_0000_0100_0001_0100_0000_0101,
            CardInt::Card3s => 0b0000_0000_0000_0010_0001_0011_0000_0011,
            CardInt::Card2s => 0b0000_0000_0000_0001_0001_0010_0000_0010,
            CardInt::CardAh => 0b0001_0000_0000_0000_0010_1110_0010_1001,
            CardInt::CardKh => 0b0000_1000_0000_0000_0010_1101_0010_0101,
            CardInt::CardQh => 0b0000_0100_0000_0000_0010_1100_0001_1111,
            CardInt::CardJh => 0b0000_0010_0000_0000_0010_1011_0001_1101,
            CardInt::CardTh => 0b0000_0001_0000_0000_0010_1010_0001_0111,
            CardInt::Card9h => 0b0000_0000_1000_0000_0010_1001_0001_0011,
            CardInt::Card8h => 0b0000_0000_0100_0000_0010_1000_0001_0001,
            CardInt::Card7h => 0b0000_0000_0010_0000_0010_0111_0000_1101,
            CardInt::Card6h => 0b0000_0000_0001_0000_0010_0110_0000_1011,
            CardInt::Card5h => 0b0000_0000_0000_1000_0010_0101_0000_0111,
            CardInt::Card4h => 0b0000_0000_0000_0100_0010_0100_0000_0101,
            CardInt::Card3h => 0b0000_0000_0000_0010_0010_0011_0000_0011,
            CardInt::Card2h => 0b0000_0000_0000_0001_0010_0010_0000_0010,
            CardInt::CardAd => 0b0001_0000_0000_0000_0100_1110_0010_1001,
            CardInt::CardKd => 0b0000_1000_0000_0000_0100_1101_0010_0101,
            CardInt::CardQd => 0b0000_0100_0000_0000_0100_1100_0001_1111,
            CardInt::CardJd => 0b0000_0010_0000_0000_0100_1011_0001_1101,
            CardInt::CardTd => 0b0000_0001_0000_0000_0100_1010_0001_0111,
            CardInt::Card9d => 0b0000_0000_1000_0000_0100_1001_0001_0011,
            CardInt::Card8d => 0b0000_0000_0100_0000_0100_1000_0001_0001,
            CardInt::Card7d => 0b0000_0000_0010_0000_0100_0111_0000_1101,
            CardInt::Card6d => 0b0000_0000_0001_0000_0100_0110_0000_1011,
            CardInt::Card5d => 0b0000_0000_0000_1000_0100_0101_0000_0111,
            CardInt::Card4d => 0b0000_0000_0000_0100_0100_0100_0000_0101,
            CardInt::Card3d => 0b0000_0000_0000_0010_0100_0011_0000_0011,
            CardInt::Card2d => 0b0000_0000_0000_0001_0100_0010_0000_0010,
            CardInt::CardAc => 0b0001_0000_0000_0000_1000_1110_0010_1001,
            CardInt::CardKc => 0b0000_1000_0000_0000_1000_1101_0010_0101,
            CardInt::CardQc => 0b0000_0100_0000_0000_1000_1100_0001_1111,
            CardInt::CardJc => 0b0000_0010_0000_0000_1000_1011_0001_1101,
            CardInt::CardTc => 0b0000_0001_0000_0000_1000_1010_0001_0111,
            CardInt::Card9c => 0b0000_0000_1000_0000_1000_1001_0001_0011,
            CardInt::Card8c => 0b0000_0000_0100_0000_1000_1000_0001_0001,
            CardInt::Card7c => 0b0000_0000_0010_0000_1000_0111_0000_1101,
            CardInt::Card6c => 0b0000_0000_0001_0000_1000_0110_0000_1011,
            CardInt::Card5c => 0b0000_0000_0000_1000_1000_0101_0000_0111,
            CardInt::Card4c => 0b0000_0000_0000_0100_1000_0100_0000_0101,
            CardInt::Card3c => 0b0000_0000_0000_0010_1000_0011_0000_0011,
            CardInt::Card2c => 0b0000_0000_0000_0001_1000_0010_0000_0010,
        }
    }

    /// The rank the card carries.
    pub open spec fn spec_rank(self) -> Rank {
        match self {
            CardInt::CardXx => Rank::Cut,
            CardInt::CardAs | CardInt::CardAh | CardInt::CardAd | CardInt::CardAc => Rank::Ace,
            CardInt::CardKs | CardInt::CardKh | CardInt::CardKd | CardInt::CardKc => Rank::King,
            CardInt::CardQs | CardInt::CardQh | CardInt::CardQd | CardInt::CardQc => Rank::Queen,
            CardInt::CardJs | CardInt::CardJh | CardInt::CardJd | CardInt::CardJc => Rank::Jack,
            CardInt::CardTs | CardInt::CardTh | CardInt::CardTd | CardInt::CardTc => Rank::Ten,
            CardInt::Card9s | CardInt::Card9h | CardInt::Card9d | CardInt::Card9c => Rank::Nine,
            CardInt::Card8s | CardInt::Card8h | CardInt::Card8d | CardInt::Card8c => Rank::Eight,
            CardInt::Card7s | CardInt::Card7h | CardInt::Card7d | CardInt::Card7c => Rank::Seven,
            CardInt::Card6s | CardInt::Card6h | CardInt::Card6d | CardInt::Card6c => Rank::Six,
            CardInt::Card5s | CardInt::Card5h | CardInt::Card5d | CardInt::Card5c => Rank::Five,
            CardInt::Card4s | CardInt::Card4h | CardInt::Card4d | CardInt::Card4c => Rank::Four,
            CardInt::Card3s | CardInt::Card3h | CardInt::Card3d | CardInt::Card3c => Rank::Trey,
            CardInt::Card2s | CardInt::Card2h | CardInt::Card2d | CardInt::Card2c => Rank::Deuce,
        }
    }

    /// The suit the card carries.
    pub open spec fn spec_suit(self) -> Suit {
        match self {
            CardInt::CardXx => Suit::Cut,
            CardInt::CardAs | CardInt::CardKs | CardInt::CardQs | CardInt::CardJs | CardInt::CardTs | CardInt::Card9s | CardInt::Card8s | CardInt::Card7s | CardInt::Card6s | CardInt::Card5s | CardInt::Card4s | CardInt::Card3s | CardInt::Card2s => Suit::Spade,
            CardInt::CardAh | CardInt::CardKh | CardInt::CardQh | CardInt::CardJh | CardInt::CardTh | CardInt::Card9h | CardInt::Card8h | CardInt::Card7h | CardInt::Card6h | CardInt::Card5h | CardInt::Card4h | CardInt::Card3h | CardInt::Card2h => Suit::Heart,
            CardInt::CardAd | CardInt::CardKd | CardInt::CardQd | CardInt::CardJd | CardInt::CardTd | CardInt::Card9d | CardInt::Card8d | CardInt::Card7d | CardInt::Card6d | CardInt::Card5d | CardInt::Card4d | CardInt::Card3d | CardInt::Card2d => Suit::Diamond,
            CardInt::CardAc | CardInt::CardKc | CardInt::CardQc | CardInt::CardJc | CardInt::CardTc | CardInt::Card9c | CardInt::Card8c | CardInt::Card7c | CardInt::Card6c | CardInt::Card5c | CardInt::Card4c | CardInt::Card3c | CardInt::Card2c => Suit::Club,
        }
    }

    /// The card that carries rank `r` and suit `s`; `CardXx` where exactly
    /// one of the two is the cut sentinel, a pair that names no card.
    pub open spec fn spec_from_parts(r: Rank, s: Suit) -> CardInt {
        match (r, s) {
            (Rank::Cut, Suit::Cut) => CardInt::CardXx,
            (Rank::Ace, Suit::Spade) => CardInt::CardAs,
            (Rank::King, Suit::Spade) => CardInt::CardKs,
            (Rank::Queen, Suit::Spade) => CardInt::CardQs,
            (Rank::Jack, Suit::Spade) => CardInt::CardJs,
            (Rank::Ten, Suit::Spade) => CardInt::CardTs,
            (Rank::Nine, Suit::Spade) => CardInt::Card9s,
            (Rank::Eight, Suit::Spade) => CardInt::Card8s,
            (Rank::Seven, Suit::Spade) => CardInt::Card7s,
            (Rank::Six, Suit::Spade) => CardInt::Card6s,
            (Rank::Five, Suit::Spade) => CardInt::Card5s,
            (Rank::Four, Suit::Spade) => CardInt::Card4s,
            (Rank::Trey, Suit::Spade) => CardInt::Card3s,
            (Rank::Deuce, Suit::Spade) => CardInt::Card2s,
            (Rank::Ace, Suit::Heart) => CardInt::CardAh,
            (Rank::King, Suit::Heart) => CardInt::CardKh,
            (Rank::Queen, Suit::Heart) => CardInt::CardQh,
            (Rank::Jack, Suit::Heart) => CardInt::CardJh,
            (Rank::Ten, Suit::Heart) => CardInt::CardTh,
            (Rank::Nine, Suit::Heart) => CardInt::Card9h,
            (Rank::Eight, Suit::Heart) => CardInt::Card8h,
            (Rank::Seven, Suit::Heart) => CardInt::Card7h,
            (Rank::Six, Suit::Heart) => CardInt::Card6h,
            (Rank::Five, Suit::Heart) => CardInt::Card5h,
            (Rank::Four, Suit::Heart) => CardInt::Card4h,
            (Rank::Trey, Suit::Heart) => CardInt::Card3h,
            (Rank::Deuce, Suit::Heart) => CardInt::Card2h,
            (Rank::Ace, Suit::Diamond) => CardInt::CardAd,
            (Rank::King, Suit::Diamond) => CardInt::CardKd,
            (Rank::Queen, Suit::Diamond) => CardInt::CardQd,
            (Rank::Jack, Suit::Diamond) => CardInt::CardJd,
            (Rank::Ten, Suit::Diamond) => CardInt::CardTd,
            (Rank::Nine, Suit::Diamond) => CardInt::Card9d,
            (Rank::Eight, Suit::Diamond) => CardInt::Card8d,
            (Rank::Seven, Suit::Diamond) => CardInt::Card7d,
            (Rank::Six, Suit::Diamond) => CardInt::Card6d,
            (Rank::Five, Suit::Diamond) => CardInt::Card5d,
            (Rank::Four, Suit::Diamond) => CardInt::Card4d,
            (Rank::Trey, Suit::Diamond) => CardInt::Card3d,
            (Rank::Deuce, Suit::Diamond) => CardInt::Card2d,
            (Rank::Ace, Suit::Club) => CardInt::CardAc,
            (Rank::King, Suit::Club) => CardInt::CardKc,
            (Rank::Queen, Suit::Club) => CardInt::CardQc,
            (Rank::Jack, Suit::Club) => CardInt::CardJc,
            (Rank::Ten, Suit::Club) => CardInt::CardTc,
            (Rank::Nine, Suit::Club) => CardInt::Card9c,
            (Rank::Eight, Suit::Club) => CardInt::Card8c,
            (Rank::Seven, Suit::Club) => CardInt::Card7c,
            (Rank::Six, Suit::Club) => CardInt::Card6c,
            (Rank::Five, Suit::Club) => CardInt::Card5c,
            (Rank::Four, Suit::Club) => CardInt::Card4c,
            (Rank::Trey, Suit::Club) => CardInt::Card3c,
            (Rank::Deuce, Suit::Club) => CardInt::Card2c,
            _ => CardInt::CardXx,
        }
    }

    /// Returns the card's bit pattern in the Cactus Kev encoding.
    pub fn to_u32(self) -> (bits: u32)
        ensures
            bits == self.spec_bits(),
    {
        match self {
            CardInt::CardXx => 0b0000_0000_0000_0000_0000_0000_0000_0000,
            CardInt::CardAs => 0b0001_0000_0000_0000_0001_1110_0010_1001,
            CardInt::CardKs => 0b0000_1000_0000_0000_0001_1101_0010_0101,
            CardInt::CardQs => 0b0000_0100_0000_0000_0001_1100_0001_1111,
            CardInt::CardJs => 0b0000_0010_0000_0000_0001_1011_0001_1101,
            CardInt::CardTs => 0b0000_0001_0000_0000_0001_1010_0001_0111,
            CardInt::Card9s => 0b0000_0000_1000_0000_0001_1001_0001_0011,
            CardInt::Card8s => 0b0000_0000_0100_0000_0001_1000_0001_0001,
            CardInt::Card7s => 0b0000_0000_0010_0000_0001_0111_0000_1101,
            CardInt::Card6s => 0b0000_0000_0001_0000_0001_0110_0000_1011,
            CardInt::Card5s => 0b0000_0000_0000_1000_0001_0101_0000_0111,
            CardInt::Card4s => 0b0000_0000_0000_0100_0001_0100_0000_0101,
            CardInt::Card3s => 0b0000_0000_0000_0010_0001_0011_0000_0011,
            CardInt::Card2s => 0b0000_0000_0000_0001_0001_0010_0000_0010,
            CardInt::CardAh => 0b0001_0000_0000_0000_0010_1110_0010_1001,
            CardInt::CardKh => 0b0000_1000_0000_0000_0010_1101_0010_0101,
            CardInt::CardQh => 0b0000_0100_0000_0000_0010_1100_0001_1111,
            CardInt::CardJh => 0b0000_0010_0000_0000_0010_1011_0001_1101,
            CardInt::CardTh => 0b0000_0001_0000_0000_0010_1010_0001_0111,
            CardInt::Card9h => 0b0000_0000_1000_0000_0010_1001_0001_0011,
            CardInt::Card8h => 0b0000_0000_0100_0000_0010_1000_0001_0001,
            CardInt::Card7h => 0b0000_0000_0010_0000_0010_0111_0000_1101,
            CardInt::Card6h => 0b0000_0000_0001_0000_0010_0110_0000_1011,
            CardInt::Card5h => 0b0000_0000_0000_1000_0010_0101_0000_0111,
            CardInt::Card4h => 0b0000_0000_0000_0100_0010_0100_0000_0101,
            CardInt::Card3h => 0b0000_0000_0000_0010_0010_0011_0000_0011,
            CardInt::Card2h => 0b0000_0000_0000_0001_0010_0010_0000_0010,
            CardInt::CardAd => 0b0001_0000_0000_0000_0100_1110_0010_1001,
            CardInt::CardKd => 0b0000_1000_0000_0000_0100_1101_0010_0101,
            CardInt::CardQd => 0b0000_0100_0000_0000_0100_1100_0001_1111,
            CardInt::CardJd => 0b0000_0010_0000_0000_0100_1011_0001_1101,
            CardInt::CardTd => 0b0000_0001_0000_0000_0100_1010_0001_0111,
            CardInt::Card9d => 0b0000_0000_1000_0000_0100_1001_0001_0011,
            CardInt::Card8d => 0b0000_0000_0100_0000_0100_1000_0001_0001,
            CardInt::Card7d => 0b0000_0000_0010_0000_0100_0111_0000_1101,
            CardInt::Card6d => 0b0000_0000_0001_0000_0100_0110_0000_1011,
            CardInt::Card5d => 0b0000_0000_0000_1000_0100_0101_0000_0111,
            CardInt::Card4d => 0b0000_0000_0000_0100_0100_0100_0000_0101,
            CardInt::Card3d => 0b0000_0000_0000_0010_0100_0011_0000_0011,
            CardInt::Card2d => 0b0000_0000_0000_0001_0100_0010_0000_0010,
            CardInt::CardAc => 0b0001_0000_0000_0000_1000_1110_0010_1001,
            CardInt::CardKc => 0b0000_1000_0000_0000_1000_1101_0010_0101,
            CardInt::CardQc => 0b0000_0100_0000_0000_1000_1100_0001_1111,
            CardInt::CardJc => 0b0000_0010_0000_0000_1000_1011_0001_1101,
            CardInt::CardTc => 0b0000_0001_0000_0000_1000_1010_0001_0111,
            CardInt::Card9c => 0b0000_0000_1000_0000_1000_1001_0001_0011,
            CardInt::Card8c => 0b0000_0000_0100_0000_1000_1000_0001_0001,
            CardInt::Card7c => 0b0000_0000_0010_0000_1000_0111_0000_1101,
            CardInt::Card6c => 0b0000_0000_0001_0000_1000_0110_0000_1011,
            CardInt::Card5c => 0b0000_0000_0000_1000_1000_0101_0000_0111,
            CardInt::Card4c => 0b0000_0000_0000_0100_1000_0100_0000_0101,
            CardInt::Card3c => 0b0000_0000_0000_0010_1000_0011_0000_0011,
            CardInt::Card2c => 0b0000_0000_0000_0001_1000_0010_0000_0010,
        }
    }

    /// Returns the card whose bit pattern is `n`, or `None` when `n` is the
    /// pattern of no card.
    pub fn from_u32(n: u32) -> (res: Option<CardInt>)
        ensures
            forall|c: CardInt| (res == Some(c)) <==> c.spec_bits() == n,
    {
        let res = match n {
            0b0000_0000_0000_0000_0000_0000_0000_0000 => Some(CardInt::CardXx),
            0b0001_0000_0000_0000_0001_1110_0010_1001 => Some(CardInt::CardAs),
            0b0000_1000_0000_0000_0001_1101_0010_0101 => Some(CardInt::CardKs),
            0b0000_0100_0000_0000_0001_1100_0001_1111 => Some(CardInt::CardQs),
            0b0000_0010_0000_0000_0001_1011_0001_1101 => Some(CardInt::CardJs),
            0b0000_0001_0000_0000_0001_1010_0001_0111 => Some(CardInt::CardTs),
            0b0000_0000_1000_0000_0001_1001_0001_0011 => Some(CardInt::Card9s),
            0b0000_0000_0100_0000_0001_1000_0001_0001 => Some(CardInt::Card8s),
            0b0000_0000_0010_0000_0001_0111_0000_1101 => Some(CardInt::Card7s),
            0b0000_0000_0001_0000_0001_0110_0000_1011 => Some(CardInt::Card6s),
            0b0000_0000_0000_1000_0001_0101_0000_0111 => Some(CardInt::Card5s),
            0b0000_0000_0000_0100_0001_0100_0000_0101 => Some(CardInt::Card4s),
            0b0000_0000_0000_0010_0001_0011_0000_0011 => Some(CardInt::Card3s),
            0b0000_0000_0000_0001_0001_0010_0000_0010 => Some(CardInt::Card2s),
            0b0001_0000_0000_0000_0010_1110_0010_1001 => Some(CardInt::CardAh),
            0b0000_1000_0000_0000_0010_1101_0010_0101 => Some(CardInt::CardKh),
            0b0000_0100_0000_0000_0010_1100_0001_1111 => Some(CardInt::CardQh),
            0b0000_0010_0000_0000_0010_1011_0001_1101 => Some(CardInt::CardJh),
            0b0000_0001_0000_0000_0010_1010_0001_0111 => Some(CardInt::CardTh),
            0b0000_0000_1000_0000_0010_1001_0001_0011 => Some(CardInt::Card9h),
            0b0000_0000_0100_0000_0010_1000_0001_0001 => Some(CardInt::Card8h),
            0b0000_0000_0010_0000_0010_0111_0000_1101 => Some(CardInt::Card7h),
            0b0000_0000_0001_0000_0010_0110_0000_1011 => Some(CardInt::Card6h),
            0b0000_0000_0000_1000_0010_0101_0000_0111 => Some(CardInt::Card5h),
            0b0000_0000_0000_0100_0010_0100_0000_0101 => Some(CardInt::Card4h),
            0b0000_0000_0000_0010_0010_0011_0000_0011 => Some(CardInt::Card3h),
            0b0000_0000_0000_0001_0010_0010_0000_0010 => Some(CardInt::Card2h),
            0b0001_0000_0000_0000_0100_1110_0010_1001 => Some(CardInt::CardAd),
            0b0000_1000_0000_0000_0100_1101_0010_0101 => Some(CardInt::CardKd),
            0b0000_0100_0000_0000_0100_1100_0001_1111 => Some(CardInt::CardQd),
            0b0000_0010_0000_0000_0100_1011_0001_1101 => Some(CardInt::CardJd),
            0b0000_0001_0000_0000_0100_1010_0001_0111 => Some(CardInt::CardTd),
            0b0000_0000_1000_0000_0100_1001_0001_0011 => Some(CardInt::Card9d),
            0b0000_0000_0100_0000_0100_1000_0001_0001 => Some(CardInt::Card8d),
            0b0000_0000_0010_0000_0100_0111_0000_1101 => Some(CardInt::Card7d),
            0b0000_0000_0001_0000_0100_0110_0000_1011 => Some(CardInt::Card6d),
            0b0000_0000_0000_1000_0100_0101_0000_0111 => Some(CardInt::Card5d),
            0b0000_0000_0000_0100_0100_0100_0000_0101 => Some(CardInt::Card4d),
            0b0000_0000_0000_0010_0100_0011_0000_0011 => Some(CardInt::Card3d),
            0b0000_0000_0000_0001_0100_0010_0000_0010 => Some(CardInt::Card2d),
            0b0001_0000_0000_0000_1000_1110_0010_1001 => Some(CardInt::CardAc),
            0b0000_1000_0000_0000_1000_1101_0010_0101 => Some(CardInt::CardKc),
            0b0000_0100_0000_0000_1000_1100_0001_1111 => Some(CardInt::CardQc),
            0b0000_0010_0000_0000_1000_1011_0001_1101 => Some(CardInt::CardJc),
            0b0000_0001_0000_0000_1000_1010_0001_0111 => Some(CardInt::CardTc),
            0b0000_0000_1000_0000_1000_1001_0001_0011 => Some(CardInt::Card9c),
            0b0000_0000_0100_0000_1000_1000_0001_0001 => Some(CardInt::Card8c),
            0b0000_0000_0010_0000_1000_0111_0000_1101 => Some(CardInt::Card7c),
            0b0000_0000_0001_0000_1000_0110_0000_1011 => Some(CardInt::Card6c),
            0b0000_0000_0000_1000_1000_0101_0000_0111 => Some(CardInt::Card5c),
            0b0000_0000_0000_0100_1000_0100_0000_0101 => Some(CardInt::Card4c),
            0b0000_0000_0000_0010_1000_0011_0000_0011 => Some(CardInt::Card3c),
            0b0000_0000_0000_0001_1000_0010_0000_0010 => Some(CardInt::Card2c),
            _ => None,
        };
        proof {
            assert forall|c: CardInt| (res == Some(c)) <==> c.spec_bits() == n by {
                match c {
                    CardInt::CardXx => {},
                    _ => {},
                }
            }
        }
        res
    }

    /// The bit pattern that puts the prime, rank code, suit code and one-hot
    /// flag of a rank and a suit in their fields.
    pub open spec fn spec_encode(r: Rank, s: Suit) -> u32 {
        r.spec_prime() | (r.spec_code() << 8u32) | (s.spec_code() << 12u32) | (r.spec_onehot()
            << 16u32)
    }

    /// A two-character name whose first character names a rank and whose
    /// second names a suit, where exactly one of the two is the cut sentinel:
    /// a pair that no card carries.
    pub open spec fn spec_mixes_cut(name: Seq<char>) -> bool {
        &&& name.len() == 2
        &&& exists|r: Rank, s: Suit|
            r.spec_accepts(name[0]) && s.spec_accepts(name[1]) && (r is Cut) != (s is Cut)
    }

    /// Constructs a `CardInt` from a two-character string such as `"As"`,
    /// `"Td"`, or `"Xx"` for the cut card.
    ///
    /// The first character is parsed as a [`Rank`] via [`Rank::from_char`]
    /// and the second as a [`Suit`] via [`Suit::from_char`]. Returns `None`
    /// if either character is unrecognised or the string is not exactly two
    /// characters long. A two-character name that pairs the cut rank with a
    /// real suit, or a real rank with the cut suit, is not accepted.
    pub fn new(index: &str) -> (res: Option<Self>)
        requires
            !Self::spec_mixes_cut(index@),
        ensures
            (res is Some) <==> {
                &&& index@.len() == 2
                &&& exists|r: Rank| r.spec_accepts(index@[0])
                &&& exists|s: Suit| s.spec_accepts(index@[1])
            },
            res matches Some(c) ==> c.spec_rank().spec_accepts(index@[0])
                && c.spec_suit().spec_accepts(index@[1]),
    {
        broadcast use vstd::string::axiom_spec_iter, vstd::string::next_postcondition;

        let mut chars = index.chars();
        let rank: Rank = match chars.next() {
            None => return None,
            Some(r) => match Rank::from_char(r) {
                None => return None,
                Some(rank) => {
                    assert(rank.spec_accepts(r));
                    rank
                },
            },
        };
        let suit: Suit = match chars.next() {
            None => return None,
            Some(s) => match Suit::from_char(s) {
                None => return None,
                Some(suit) => {
                    assert(suit.spec_accepts(s));
                    suit
                },
            },
        };
        let card: CardInt = match chars.next() {
            Some(_) => return None,
            None => Self::_new(rank, suit),
        };
        Some(card)
    }

    /// Builds the card with the given rank and suit by assembling its bit
    /// pattern and looking the pattern up.
    pub fn _new(rank: Rank, suit: Suit) -> (card: CardInt)
        requires
            (rank is Cut) == (suit is Cut),
        ensures
            card.spec_rank() == rank,
            card.spec_suit() == suit,
    {
        let bit_pattern: u32 = rank.prime() | (rank.to_u8() as u32) << 8u32 | (suit.to_u8() as u32)
            << 12u32 | rank.onehot() << 16u32;
        proof {
            let c = Self::spec_from_parts(rank, suit);
            lemma_from_parts_carries(rank, suit);
            lemma_bit_layout(c);
            assert(c.spec_bits() == bit_pattern);
        }
        CardInt::from_u32(bit_pattern).unwrap()
    }

    /// Extracts the [`Rank`] from this card's rank field (bits 8-11).
    ///
    /// Returns [`Rank::Cut`] for `CardXx`.
    pub fn rank(self) -> (r: Rank)
        ensures
            r == self.spec_rank(),
    {
        let bits: u32 = self.to_u32();
        proof {
            lemma_fields_of(self);
        }
        Rank::from_u8(((bits >> 8u32) & 0xFu32) as u8).unwrap()
    }

    /// Extracts the [`Suit`] from this card's suit nibble (bits 12-15).
    ///
    /// Returns [`Suit::Cut`] for `CardXx`.
    pub fn suit(self) -> (s: Suit)
        ensures
            s == self.spec_suit(),
    {
        let bits: u32 = self.to_u32();
        proof {
            lemma_fields_of(self);
        }
        Suit::from_u8(((bits >> 12u32) & 0xFu32) as u8).unwrap()
    }
}

/// The rank field and the suit nibble of a card's bit pattern hold the codes
/// of its rank and its suit.
pub proof fn lemma_fields_of(c: CardInt)
    ensures
        (c.spec_bits() >> 8u32) & 0xFu32 == c.spec_rank().spec_code(),
        (c.spec_bits() >> 12u32) & 0xFu32 == c.spec_suit().spec_code(),
{
    let r = c.spec_rank();
    let s = c.spec_suit();
    lemma_bit_layout(c);
    lemma_encoded_fields(r.spec_prime(), r.spec_code(), s.spec_code(), r.spec_onehot());
}

/// Every card's bit pattern is the prime, rank code, suit code and one-hot
/// flag of its rank and suit, each in its field.
pub proof fn lemma_bit_layout(c: CardInt)
    ensures
        c.spec_bits() == CardInt::spec_encode(c.spec_rank(), c.spec_suit()),
{
    lemma_listed_patterns();
}

/// A rank and a suit that are both real, or both the cut sentinel, name a
/// card that carries exactly them.
pub proof fn lemma_from_parts_carries(r: Rank, s: Suit)
    requires
        (r is Cut) == (s is Cut),
    ensures
        CardInt::spec_from_parts(r, s).spec_rank() == r,
        CardInt::spec_from_parts(r, s).spec_suit() == s,
{
}

/// A card is determined by its rank and suit, which are both real or both the
/// cut sentinel.
pub proof fn lemma_parts_determine_card(c: CardInt)
    ensures
        CardInt::spec_from_parts(c.spec_rank(), c.spec_suit()) == c,
        (c.spec_rank() is Cut) == (c.spec_suit() is Cut),
{
}

/// Each variant encodes a unique (rank, suit) pair: no two cards share a bit
/// pattern.
pub proof fn lemma_bits_injective(c1: CardInt, c2: CardInt)
    requires
        c1.spec_bits() == c2.spec_bits(),
    ensures
        c1 == c2,
{
    lemma_fields_of(c1);
    lemma_fields_of(c2);
    lemma_rank_code_injective(c1.spec_rank(), c2.spec_rank());
    lemma_suit_code_injective(c1.spec_suit(), c2.spec_suit());
    lemma_parts_determine_card(c1);
    lemma_parts_determine_card(c2);
}

/// No two ranks share a code.
pub proof fn lemma_rank_code_injective(r1: Rank, r2: Rank)
    requires
        r1.spec_code() == r2.spec_code(),
    ensures
        r1 == r2,
{
}

/// No two suits share a code.
pub proof fn lemma_suit_code_injective(s1: Suit, s2: Suit)
    requires
        s1.spec_code() == s2.spec_code(),
    ensures
        s1 == s2,
{
}

/// No two real ranks share a prime; only the cut sentinel has 0.
pub proof fn lemma_prime_injective(r1: Rank, r2: Rank)
    requires
        r1.spec_prime() == r2.spec_prime(),
    ensures
        r1 == r2,
{
}

/// No character names two ranks.
pub proof fn lemma_rank_char_unambiguous(r1: Rank, r2: Rank, c: char)
    requires
        r1.spec_accepts(c),
        r2.spec_accepts(c),
    ensures
        r1 == r2,
{
}

/// No character names two suits.
pub proof fn lemma_suit_char_unambiguous(s1: Suit, s2: Suit, c: char)
    requires
        s1.spec_accepts(c),
        s2.spec_accepts(c),
    ensures
        s1 == s2,
{
}

/// A two-character name picks out at most one card: two cards whose ranks
/// are named by the same character and whose suits are named by the same
/// character are the same card.
pub proof fn lemma_name_picks_one_card(c1: CardInt, c2: CardInt, rank_char: char, suit_char: char)
    requires
        c1.spec_rank().spec_accepts(rank_char),
        c2.spec_rank().spec_accepts(rank_char),
        c1.spec_suit().spec_accepts(suit_char),
        c2.spec_suit().spec_accepts(suit_char),
    ensures
        c1 == c2,
{
    lemma_rank_char_unambiguous(c1.spec_rank(), c2.spec_rank(), rank_char);
    lemma_suit_char_unambiguous(c1.spec_suit(), c2.spec_suit(), suit_char);
    lemma_parts_determine_card(c1);
    lemma_parts_determine_card(c2);
}

/// Reading the rank field and the suit nibble back out of an assembled bit
/// pattern gives the codes that were put in.
proof fn lemma_encoded_fields(p: u32, rc: u32, sc: u32, oh: u32)
    by (bit_vector)
    requires
        p < 64,
        rc < 16,
        sc < 16,
        oh < 0x2000,
    ensures
        ((p | (rc << 8u32) | (sc << 12u32) | (oh << 16u32)) >> 8u32) & 0xFu32 == rc,
        ((p | (rc << 8u32) | (sc << 12u32) | (oh << 16u32)) >> 12u32) & 0xFu32 == sc,
{
}

/// Each listed bit pattern is the prime, rank code, suit nibble and one-hot
/// flag of its card, put in place.
proof fn lemma_listed_patterns()
    by (bit_vector)
    ensures
        0b0000_0000_0000_0000_0000_0000_0000_0000u32 == (0u32 | (0u32 << 8u32) | (0u32 << 12u32) | (0x0u32 << 16u32)),
        0b0001_0000_0000_0000_0001_1110_0010_1001u32 == (41u32 | (14u32 << 8u32) | (1u32 << 12u32) | (0x1000u32 << 16u32)),
        0b0000_1000_0000_0000_0001_1101_0010_0101u32 == (37u32 | (13u32 << 8u32) | (1u32 << 12u32) | (0x800u32 << 16u32)),
        0b0000_0100_0000_0000_0001_1100_0001_1111u32 == (31u32 | (12u32 << 8u32) | (1u32 << 12u32) | (0x400u32 << 16u32)),
        0b0000_0010_0000_0000_0001_1011_0001_1101u32 == (29u32 | (11u32 << 8u32) | (1u32 << 12u32) | (0x200u32 << 16u32)),
        0b0000_0001_0000_0000_0001_1010_0001_0111u32 == (23u32 | (10u32 << 8u32) | (1u32 << 12u32) | (0x100u32 << 16u32)),
        0b0000_0000_1000_0000_0001_1001_0001_0011u32 == (19u32 | (9u32 << 8u32) | (1u32 << 12u32) | (0x80u32 << 16u32)),
        0b0000_0000_0100_0000_0001_1000_0001_0001u32 == (17u32 | (8u32 << 8u32) | (1u32 << 12u32) | (0x40u32 << 16u32)),
        0b0000_0000_0010_0000_0001_0111_0000_1101u32 == (13u32 | (7u32 << 8u32) | (1u32 << 12u32) | (0x20u32 << 16u32)),
        0b0000_0000_0001_0000_0001_0110_0000_1011u32 == (11u32 | (6u32 << 8u32) | (1u32 << 12u32) | (0x10u32 << 16u32)),
        0b0000_0000_0000_1000_0001_0101_0000_0111u32 == (7u32 | (5u32 << 8u32) | (1u32 << 12u32) | (0x8u32 << 16u32)),
        0b0000_0000_0000_0100_0001_0100_0000_0101u32 == (5u32 | (4u32 << 8u32) | (1u32 << 12u32) | (0x4u32 << 16u32)),
        0b0000_0000_0000_0010_0001_0011_0000_0011u32 == (3u32 | (3u32 << 8u32) | (1u32 << 12u32) | (0x2u32 << 16u32)),
        0b0000_0000_0000_0001_0001_0010_0000_0010u32 == (2u32 | (2u32 << 8u32) | (1u32 << 12u32) | (0x1u32 << 16u32)),
        0b0001_0000_0000_0000_0010_1110_0010_1001u32 == (41u32 | (14u32 << 8u32) | (2u32 << 12u32) | (0x1000u32 << 16u32)),
        0b0000_1000_0000_0000_0010_1101_0010_0101u32 == (37u32 | (13u32 << 8u32) | (2u32 << 12u32) | (0x800u32 << 16u32)),
        0b0000_0100_0000_0000_0010_1100_0001_1111u32 == (31u32 | (12u32 << 8u32) | (2u32 << 12u32) | (0x400u32 << 16u32)),
        0b0000_0010_0000_0000_0010_1011_0001_1101u32 == (29u32 | (11u32 << 8u32) | (2u32 << 12u32) | (0x200u32 << 16u32)),
        0b0000_0001_0000_0000_0010_1010_0001_0111u32 == (23u32 | (10u32 << 8u32) | (2u32 << 12u32) | (0x100u32 << 16u32)),
        0b0000_0000_1000_0000_0010_1001_0001_0011u32 == (19u32 | (9u32 << 8u32) | (2u32 << 12u32) | (0x80u32 << 16u32)),
        0b0000_0000_0100_0000_0010_1000_0001_0001u32 == (17u32 | (8u32 << 8u32) | (2u32 << 12u32) | (0x40u32 << 16u32)),
        0b0000_0000_0010_0000_0010_0111_0000_1101u32 == (13u32 | (7u32 << 8u32) | (2u32 << 12u32) | (0x20u32 << 16u32)),
        0b0000_0000_0001_0000_0010_0110_0000_1011u32 == (11u32 | (6u32 << 8u32) | (2u32 << 12u32) | (0x10u32 << 16u32)),
        0b0000_0000_0000_1000_0010_0101_0000_0111u32 == (7u32 | (5u32 << 8u32) | (2u32 << 12u32) | (0x8u32 << 16u32)),
        0b0000_0000_0000_0100_0010_0100_0000_0101u32 == (5u32 | (4u32 << 8u32) | (2u32 << 12u32) | (0x4u32 << 16u32)),
        0b0000_0000_0000_0010_0010_0011_0000_0011u32 == (3u32 | (3u32 << 8u32) | (2u32 << 12u32) | (0x2u32 << 16u32)),
        0b0000_0000_0000_0001_0010_0010_0000_0010u32 == (2u32 | (2u32 << 8u32) | (2u32 << 12u32) | (0x1u32 << 16u32)),
        0b0001_0000_0000_0000_0100_1110_0010_1001u32 == (41u32 | (14u32 << 8u32) | (4u32 << 12u32) | (0x1000u32 << 16u32)),
        0b0000_1000_0000_0000_0100_1101_0010_0101u32 == (37u32 | (13u32 << 8u32) | (4u32 << 12u32) | (0x800u32 << 16u32)),
        0b0000_0100_0000_0000_0100_1100_0001_1111u32 == (31u32 | (12u32 << 8u32) | (4u32 << 12u32) | (0x400u32 << 16u32)),
        0b0000_0010_0000_0000_0100_1011_0001_1101u32 == (29u32 | (11u32 << 8u32) | (4u32 << 12u32) | (0x200u32 << 16u32)),
        0b0000_0001_0000_0000_0100_1010_0001_0111u32 == (23u32 | (10u32 << 8u32) | (4u32 << 12u32) | (0x100u32 << 16u32)),
        0b0000_0000_1000_0000_0100_1001_0001_0011u32 == (19u32 | (9u32 << 8u32) | (4u32 << 12u32) | (0x80u32 << 16u32)),
        0b0000_0000_0100_0000_0100_1000_0001_0001u32 == (17u32 | (8u32 << 8u32) | (4u32 << 12u32) | (0x40u32 << 16u32)),
        0b0000_0000_0010_0000_0100_0111_0000_1101u32 == (13u32 | (7u32 << 8u32) | (4u32 << 12u32) | (0x20u32 << 16u32)),
        0b0000_0000_0001_0000_0100_0110_0000_1011u32 == (11u32 | (6u32 << 8u32) | (4u32 << 12u32) | (0x10u32 << 16u32)),
        0b0000_0000_0000_1000_0100_0101_0000_0111u32 == (7u32 | (5u32 << 8u32) | (4u32 << 12u32) | (0x8u32 << 16u32)),
        0b0000_0000_0000_0100_0100_0100_0000_0101u32 == (5u32 | (4u32 << 8u32) | (4u32 << 12u32) | (0x4u32 << 16u32)),
        0b0000_0000_0000_0010_0100_0011_0000_0011u32 == (3u32 | (3u32 << 8u32) | (4u32 << 12u32) | (0x2u32 << 16u32)),
        0b0000_0000_0000_0001_0100_0010_0000_0010u32 == (2u32 | (2u32 << 8u32) | (4u32 << 12u32) | (0x1u32 << 16u32)),
        0b0001_0000_0000_0000_1000_1110_0010_1001u32 == (41u32 | (14u32 << 8u32) | (8u32 << 12u32) | (0x1000u32 << 16u32)),
        0b0000_1000_0000_0000_1000_1101_0010_0101u32 == (37u32 | (13u32 << 8u32) | (8u32 << 12u32) | (0x800u32 << 16u32)),
        0b0000_0100_0000_0000_1000_1100_0001_1111u32 == (31u32 | (12u32 << 8u32) | (8u32 << 12u32) | (0x400u32 << 16u32)),
        0b0000_0010_0000_0000_1000_1011_0001_1101u32 == (29u32 | (11u32 << 8u32) | (8u32 << 12u32) | (0x200u32 << 16u32)),
        0b0000_0001_0000_0000_1000_1010_0001_0111u32 == (23u32 | (10u32 << 8u32) | (8u32 << 12u32) | (0x100u32 << 16u32)),
        0b0000_0000_1000_0000_1000_1001_0001_0011u32 == (19u32 | (9u32 << 8u32) | (8u32 << 12u32) | (0x80u32 << 16u32)),
        0b0000_0000_0100_0000_1000_1000_0001_0001u32 == (17u32 | (8u32 << 8u32) | (8u32 << 12u32) | (0x40u32 << 16u32)),
        0b0000_0000_0010_0000_1000_0111_0000_1101u32 == (13u32 | (7u32 << 8u32) | (8u32 << 12u32) | (0x20u32 << 16u32)),
        0b0000_0000_0001_0000_1000_0110_0000_1011u32 == (11u32 | (6u32 << 8u32) | (8u32 << 12u32) | (0x10u32 << 16u32)),
        0b0000_0000_0000_1000_1000_0101_0000_0111u32 == (7u32 | (5u32 << 8u32) | (8u32 << 12u32) | (0x8u32 << 16u32)),
        0b0000_0000_0000_0100_1000_0100_0000_0101u32 == (5u32 | (4u32 << 8u32) | (8u32 << 12u32) | (0x4u32 << 16u32)),
        0b0000_0000_0000_0010_1000_0011_0000_0011u32 == (3u32 | (3u32 << 8u32) | (8u32 << 12u32) | (0x2u32 << 16u32)),
        0b0000_0000_0000_0001_1000_0010_0000_0010u32 == (2u32 | (2u32 << 8u32) | (8u32 << 12u32) | (0x1u32 << 16u32)),
{
}

} // verus!
