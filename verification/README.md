# shoe

A multi-deck card dealing shoe, as used in casino table games such as
blackjack and baccarat, written in Verus with its behaviour stated in
contracts and proved.

- `src/card.rs`: `Rank`, `Suit` and `CardInt`, a card in the Cactus Kev
  32-bit encoding; parsing of two-character card names; the bit layout and
  the laws of the encoding.
- `src/lib.rs`: `Card`, the standard 52-card `deck()`, and `Shoe`, which
  deals and burns cards from the back of the ordered cards it was built from
  and tracks the cut card.
- `src/card_array.rs`: the contracts of the `arrayvec::ArrayVec` methods the
  shoe stores its cards with.

Shuffling and cut card placement are the caller's responsibility.
