//! The card engine: packing decks and hands into 128-bit words, scoring a
//! hand, the player's and the dealer's draws, and the outcome of a game.

use vstd::prelude::*;
use crate::error::ErrorCode;

verus! {

/// Cards in a deck.
pub const DECK_SIZE: usize = 52;

/// Slots in a hand.
pub const HAND_SLOTS: usize = 11;

/// What an empty slot of a hand holds.
pub const NO_CARD: u8 = 53;

/// Cards that one word holds at most.
pub const CARDS_PER_WORD: usize = 21;

/// Values that a packed card can take: six bits.
pub const CARD_RADIX: u8 = 64;

/// 64 to the power of `n`.
pub open spec fn pow64(n: nat) -> nat
    decreases n,
{
    if n == 0 {
        1
    } else {
        64 * pow64((n - 1) as nat)
    }
}

/// Whether every card fits six bits.
pub open spec fn packable(cards: Seq<u8>) -> bool {
    forall|i: int| 0 <= i < cards.len() ==> cards[i] < CARD_RADIX
}

/// The number that holds `cards` as base-64 digits, the first card lowest.
pub open spec fn pack(cards: Seq<u8>) -> nat
    decreases cards.len(),
{
    if cards.len() == 0 {
        0
    } else {
        cards[0] as nat + 64 * pack(cards.drop_first())
    }
}

/// The `count` lowest base-64 digits of `word`, the lowest first.
pub open spec fn unpack(word: nat, count: nat) -> Seq<u8>
    decreases count,
{
    if count == 0 {
        Seq::empty()
    } else {
        seq![(word % 64) as u8] + unpack(word / 64, (count - 1) as nat)
    }
}

/// Powers of 64 grow with the exponent.
pub proof fn lemma_pow64_monotone(a: nat, b: nat)
    requires
        a <= b,
    ensures
        0 < pow64(a) <= pow64(b),
    decreases b,
{
    if b == 0 {
    } else if a == b {
        lemma_pow64_monotone((a - 1) as nat, (b - 1) as nat);
    } else {
        lemma_pow64_monotone(a, (b - 1) as nat);
    }
}

/// Twenty-one base-64 digits fill 126 bits.
pub proof fn lemma_pow64_word()
    ensures
        pow64(21) == 0x4000_0000_0000_0000_0000_0000_0000_0000,
{
    reveal_with_fuel(pow64, 22);
}

/// Packed cards stay under 64 to the power of their count.
pub proof fn lemma_pack_bound(cards: Seq<u8>)
    requires
        packable(cards),
    ensures
        pack(cards) < pow64(cards.len()),
    decreases cards.len(),
{
    if cards.len() > 0 {
        lemma_pack_bound(cards.drop_first());
    }
}

/// Unpacking yields as many cards as were asked for, each of six bits.
pub proof fn lemma_unpack_shape(word: nat, count: nat)
    ensures
        unpack(word, count).len() == count,
        packable(unpack(word, count)),
    decreases count,
{
    if count > 0 {
        lemma_unpack_shape(word / 64, (count - 1) as nat);
    }
}

/// Unpacking what was packed gives the cards back.
pub proof fn lemma_unpack_pack(cards: Seq<u8>)
    requires
        packable(cards),
    ensures
        unpack(pack(cards), cards.len()) == cards,
    decreases cards.len(),
{
    if cards.len() > 0 {
        let rest = cards.drop_first();
        lemma_unpack_pack(rest);
        let w = pack(cards);
        assert(w % 64 == cards[0] as nat);
        assert(w / 64 == pack(rest));
        assert(unpack(w, cards.len()) =~= cards);
    }
}

/// Packing the digits of a number that has no more digits gives the number
/// back.
pub proof fn lemma_pack_unpack(word: nat, count: nat)
    requires
        word < pow64(count),
    ensures
        pack(unpack(word, count)) == word,
    decreases count,
{
    if count > 0 {
        lemma_pack_unpack(word / 64, (count - 1) as nat);
        let digits = unpack(word, count);
        assert(digits.drop_first() =~= unpack(word / 64, (count - 1) as nat));
    }
}

/// Packs the cards `cards[lo..hi]` into one word.
fn pack_range(cards: &[u8], lo: usize, hi: usize) -> (word: u128)
    requires
        lo <= hi <= cards@.len(),
        hi - lo <= CARDS_PER_WORD,
        packable(cards@),
    ensures
        word == pack(cards@.subrange(lo as int, hi as int)),
{
    let mut word: u128 = 0;
    let mut i: usize = hi;
    while i > lo
        invariant
            lo <= i <= hi <= cards@.len(),
            hi - lo <= CARDS_PER_WORD,
            packable(cards@),
            word == pack(cards@.subrange(i as int, hi as int)),
        decreases i,
    {
        proof {
            let tail = cards@.subrange(i as int, hi as int);
            let whole = cards@.subrange(i - 1, hi as int);
            lemma_pack_bound(tail);
            lemma_pow64_monotone(tail.len(), 20);
            lemma_pow64_word();
            assert(pow64(21) == 64 * pow64(20));
            assert(whole.drop_first() =~= tail);
            assert(whole[0] == cards@[i - 1]);
        }
        i = i - 1;
        word = word * 64 + cards[i] as u128;
    }
    word
}

/// A deck packed into three words: cards 0 to 20, 21 to 41 and 42 to 51.
#[derive(Clone, Copy, Debug, PartialEq, Eq, Structural)]
pub struct Deck {
    pub card_one: u128,
    pub card_two: u128,
    pub card_three: u128,
}

/// A hand of eleven slots packed into one word.
#[derive(Clone, Copy, Debug, PartialEq, Eq, Structural)]
pub struct Hand {
    pub cards: u128,
}

impl Deck {
    /// The deck that packs `cards`.
    pub open spec fn encode(cards: Seq<u8>) -> Deck
        recommends
            cards.len() == DECK_SIZE,
            packable(cards),
    {
        Deck {
            card_one: pack(cards.subrange(0, 21)) as u128,
            card_two: pack(cards.subrange(21, 42)) as u128,
            card_three: pack(cards.subrange(42, 52)) as u128,
        }
    }

    /// The 52 cards that the deck holds, in order.
    pub open spec fn cards(self) -> Seq<u8> {
        unpack(self.card_one as nat, 21) + unpack(self.card_two as nat, 21) + unpack(
            self.card_three as nat,
            10,
        )
    }

    /// Packs 52 cards of six bits each.
    pub fn from_array(array: [u8; 52]) -> (deck: Deck)
        requires
            packable(array@),
        ensures
            deck == Deck::encode(array@),
            deck.cards() == array@,
    {
        proof {
            lemma_deck_roundtrip(array@);
            lemma_pow64_word();
            lemma_pack_bound(array@.subrange(0, 21));
            lemma_pack_bound(array@.subrange(21, 42));
            lemma_pack_bound(array@.subrange(42, 52));
            lemma_pow64_monotone(10, 21);
        }
        let slice = array.as_slice();
        Deck {
            card_one: pack_range(slice, 0, 21),
            card_two: pack_range(slice, 21, 42),
            card_three: pack_range(slice, 42, 52),
        }
    }

    /// Unpacks the 52 cards.
    pub fn to_array(&self) -> (array: [u8; 52])
        ensures
            array@ == self.cards(),
            packable(array@),
    {
        let mut array = [0u8; 52];
        let mut one = self.card_one;
        let mut two = self.card_two;
        let mut three = self.card_three;
        let mut i: usize = 0;
        while i < 21
            invariant
                i <= 21,
                array@.subrange(0, i as int) + unpack(one as nat, (21 - i) as nat) == unpack(
                    self.card_one as nat,
                    21,
                ),
                array@.subrange(21, 21 + i) + unpack(two as nat, (21 - i) as nat) == unpack(
                    self.card_two as nat,
                    21,
                ),
            decreases 21 - i,
        {
            let ghost before = array@;
            array[i] = (one % 64) as u8;
            array[i + 21] = (two % 64) as u8;
            proof {
                let after = array@;
                assert(after.subrange(0, i + 1) =~= before.subrange(0, i as int) + seq![
                    (one % 64) as u8,
                ]);
                assert(after.subrange(21, 21 + i + 1) =~= before.subrange(21, 21 + i) + seq![
                    (two % 64) as u8,
                ]);
                assert(after.subrange(0, i + 1) + unpack((one / 64) as nat, (20 - i) as nat)
                    =~= before.subrange(0, i as int) + unpack(one as nat, (21 - i) as nat));
                assert(after.subrange(21, 21 + i + 1) + unpack((two / 64) as nat, (20 - i) as nat)
                    =~= before.subrange(21, 21 + i) + unpack(two as nat, (21 - i) as nat));
            }
            one = one / 64;
            two = two / 64;
            i = i + 1;
        }
        let mut j: usize = 0;
        while j < 10
            invariant
                j <= 10,
                array@.subrange(0, 21) == unpack(self.card_one as nat, 21),
                array@.subrange(21, 42) == unpack(self.card_two as nat, 21),
                array@.subrange(42, 42 + j) + unpack(three as nat, (10 - j) as nat) == unpack(
                    self.card_three as nat,
                    10,
                ),
            decreases 10 - j,
        {
            let ghost before = array@;
            array[j + 42] = (three % 64) as u8;
            proof {
                let after = array@;
                assert(after.subrange(0, 21) =~= before.subrange(0, 21));
                assert(after.subrange(21, 42) =~= before.subrange(21, 42));
                assert(after.subrange(42, 42 + j + 1) =~= before.subrange(42, 42 + j) + seq![
                    (three % 64) as u8,
                ]);
                assert(after.subrange(42, 42 + j + 1) + unpack(
                    (three / 64) as nat,
                    (9 - j) as nat,
                ) =~= before.subrange(42, 42 + j) + unpack(three as nat, (10 - j) as nat));
            }
            three = three / 64;
            j = j + 1;
        }
        proof {
            lemma_unpack_shape(self.card_one as nat, 21);
            lemma_unpack_shape(self.card_two as nat, 21);
            lemma_unpack_shape(self.card_three as nat, 10);
            assert(array@ =~= array@.subrange(0, 21) + array@.subrange(21, 42) + array@.subrange(
                42,
                52,
            ));
        }
        array
    }
}

impl Hand {
    /// The hand that packs `cards`.
    pub open spec fn encode(cards: Seq<u8>) -> Hand
        recommends
            cards.len() == HAND_SLOTS,
            packable(cards),
    {
        Hand { cards: pack(cards) as u128 }
    }

    /// The eleven slots of the hand, in order.
    pub open spec fn slots(self) -> Seq<u8> {
        unpack(self.cards as nat, 11)
    }

    /// Whether the word holds nothing above its eleven slots.
    pub open spec fn canonical(self) -> bool {
        self.cards < pow64(HAND_SLOTS as nat)
    }

    /// Packs eleven slots of six bits each.
    pub fn from_array(array: [u8; 11]) -> (hand: Hand)
        requires
            packable(array@),
        ensures
            hand == Hand::encode(array@),
            hand.slots() == array@,
            hand.canonical(),
    {
        proof {
            lemma_hand_roundtrip(array@);
            lemma_pow64_word();
            lemma_pack_bound(array@);
            lemma_pow64_monotone(11, 21);
            assert(array@.subrange(0, 11) =~= array@);
        }
        Hand { cards: pack_range(array.as_slice(), 0, 11) }
    }

    /// Unpacks the eleven slots.
    pub fn to_array(&self) -> (array: [u8; 11])
        ensures
            array@ == self.slots(),
            packable(array@),
    {
        let mut array = [0u8; 11];
        let mut word = self.cards;
        let mut i: usize = 0;
        while i < 11
            invariant
                i <= 11,
                array@.subrange(0, i as int) + unpack(word as nat, (11 - i) as nat) == unpack(
                    self.cards as nat,
                    11,
                ),
            decreases 11 - i,
        {
            let ghost before = array@;
            array[i] = (word % 64) as u8;
            proof {
                let after = array@;
                assert(after.subrange(0, i + 1) =~= before.subrange(0, i as int) + seq![
                    (word % 64) as u8,
                ]);
                assert(after.subrange(0, i + 1) + unpack((word / 64) as nat, (10 - i) as nat)
                    =~= before.subrange(0, i as int) + unpack(word as nat, (11 - i) as nat));
            }
            word = word / 64;
            i = i + 1;
        }
        proof {
            lemma_unpack_shape(self.cards as nat, 11);
            assert(array@ =~= array@.subrange(0, 11));
        }
        array
    }
}

/// Packing 52 cards of six bits each into a deck and unpacking the deck gives
/// the cards back.
pub proof fn lemma_deck_roundtrip(cards: Seq<u8>)
    requires
        cards.len() == DECK_SIZE,
        packable(cards),
    ensures
        Deck::encode(cards).cards() == cards,
{
    let a = cards.subrange(0, 21);
    let b = cards.subrange(21, 42);
    let c = cards.subrange(42, 52);
    lemma_pack_bound(a);
    lemma_pack_bound(b);
    lemma_pack_bound(c);
    lemma_pow64_word();
    lemma_pow64_monotone(10, 21);
    lemma_unpack_pack(a);
    lemma_unpack_pack(b);
    lemma_unpack_pack(c);
    assert(a + b + c =~= cards);
}

/// Packing eleven slots of six bits each into a hand and unpacking the hand
/// gives the slots back.
pub proof fn lemma_hand_roundtrip(slots: Seq<u8>)
    requires
        slots.len() == HAND_SLOTS,
        packable(slots),
    ensures
        Hand::encode(slots).slots() == slots,
{
    lemma_pack_bound(slots);
    lemma_pow64_word();
    lemma_pow64_monotone(11, 21);
    lemma_unpack_pack(slots);
}

/// A hand whose word holds nothing above its eleven slots is the packing of
/// those slots.
pub proof fn lemma_hand_reencoded(hand: Hand)
    requires
        hand.canonical(),
    ensures
        Hand::encode(hand.slots()) == hand,
{
    lemma_pack_unpack(hand.cards as nat, HAND_SLOTS as nat);
}

/// The total over which a hand is bust.
pub const BUST_LIMIT: u8 = 21;

/// The total from which the dealer stands.
pub const DEALER_STANDS_AT: u8 = 17;

/// Draws that the dealer makes at most.
pub const DEALER_DRAW_CAP: u8 = 7;

/// What a card counts before any ace is softened: its value modulo 13 is its
/// rank; rank 0 is an ace and counts 11, ranks 11 and 12 count 10, every
/// other rank counts itself.
pub open spec fn card_points(card: u8) -> nat {
    let rank = card % 13;
    if rank == 0 {
        11
    } else if rank > 10 {
        10
    } else {
        rank as nat
    }
}

/// Whether a card is an ace.
pub open spec fn is_ace(card: u8) -> bool {
    card % 13 == 0
}

/// The sum of what the cards count, every ace at 11.
pub open spec fn raw_points(cards: Seq<u8>) -> nat
    decreases cards.len(),
{
    if cards.len() == 0 {
        0
    } else {
        raw_points(cards.drop_last()) + card_points(cards.last())
    }
}

/// Whether the cards hold an ace.
pub open spec fn has_ace(cards: Seq<u8>) -> bool {
    exists|i: int| 0 <= i < cards.len() && is_ace(cards[i])
}

/// The value of the cards: the raw sum, less ten where it is over 21 and an
/// ace is among them. Ten comes off once, whatever the number of aces.
pub open spec fn hand_value(cards: Seq<u8>) -> nat {
    let raw = raw_points(cards);
    if raw > BUST_LIMIT && has_ace(cards) {
        (raw - 10) as nat
    } else {
        raw
    }
}

/// The cards that a hand of `hand_length` holds: its first slots, all eleven
/// at most.
pub open spec fn dealt(slots: Seq<u8>, hand_length: u8) -> Seq<u8> {
    if hand_length as int <= slots.len() {
        slots.take(hand_length as int)
    } else {
        slots
    }
}

/// Whether the cards are over 21.
pub open spec fn bust(cards: Seq<u8>) -> bool {
    hand_value(cards) > BUST_LIMIT
}

/// No card counts more than eleven, so the raw sum is at most eleven a card.
pub proof fn lemma_raw_points_bound(cards: Seq<u8>)
    ensures
        raw_points(cards) <= 11 * cards.len(),
    decreases cards.len(),
{
    if cards.len() > 0 {
        lemma_raw_points_bound(cards.drop_last());
    }
}

/// A hand's value lies between its raw sum less ten and its raw sum, and a
/// hand of at most eleven cards is worth at most 121.
pub proof fn lemma_hand_value_bounds(cards: Seq<u8>)
    ensures
        0 <= hand_value(cards) <= raw_points(cards),
        raw_points(cards) <= hand_value(cards) + 10,
        raw_points(cards) <= BUST_LIMIT ==> hand_value(cards) == raw_points(cards),
        !has_ace(cards) ==> hand_value(cards) == raw_points(cards),
        cards.len() <= HAND_SLOTS ==> hand_value(cards) <= 121,
{
    lemma_raw_points_bound(cards);
}

/// The value of the first `hand_length` slots of a hand.
pub fn calculate_hand_value(hand: &[u8; 11], hand_length: u8) -> (value: u8)
    ensures
        value == hand_value(dealt(hand@, hand_length)),
{
    let count: usize = if hand_length as usize <= HAND_SLOTS {
        hand_length as usize
    } else {
        HAND_SLOTS
    };
    let mut value: u8 = 0;
    let mut ace = false;
    let mut i: usize = 0;
    while i < count
        invariant
            i <= count <= HAND_SLOTS,
            value == raw_points(hand@.take(i as int)),
            ace == has_ace(hand@.take(i as int)),
            value <= 11 * i,
        decreases count - i,
    {
        let rank = hand[i] % 13;
        proof {
            let next = hand@.take(i + 1);
            assert(next.drop_last() =~= hand@.take(i as int));
            assert(next.last() == hand@[i as int]);
            if has_ace(hand@.take(i as int)) {
                let k = choose|k: int| 0 <= k < i && is_ace(hand@.take(i as int)[k]);
                assert(is_ace(next[k]));
            }
            if is_ace(hand@[i as int]) {
                assert(is_ace(next[i as int]));
            }
            if has_ace(next) {
                let k = choose|k: int| 0 <= k < i + 1 && is_ace(next[k]);
                if k < i {
                    assert(is_ace(hand@.take(i as int)[k]));
                }
            }
        }
        if rank == 0 {
            value = value + 11;
            ace = true;
        } else if rank > 10 {
            value = value + 10;
        } else {
            value = value + rank;
        }
        i = i + 1;
    }
    assert(hand@.take(count as int) == dealt(hand@, hand_length));
    if value > BUST_LIMIT && ace {
        value = value - 10;
    }
    value
}

/// Whether the first `hand_length` slots of a hand are over 21.
pub fn is_bust(hand: &[u8; 11], hand_length: u8) -> (b: bool)
    ensures
        b == bust(dealt(hand@, hand_length)),
{
    calculate_hand_value(hand, hand_length) > BUST_LIMIT
}

/// Whether the hand sizes leave a slot for one more player card.
pub open spec fn can_draw(player_hand_size: u8, dealer_hand_size: u8) -> bool {
    player_hand_size < HAND_SLOTS && dealer_hand_size <= HAND_SLOTS
}

/// What a hit does to the player's slots, and whether the player is bust.
///
/// A player who is bust already gets the empty-slot marker and stays bust.
/// Any other player gets the next card that was not dealt, the one at
/// `player_hand_size + dealer_hand_size` in the deck, and is bust where the
/// hand with that card is over 21.
pub open spec fn hit_outcome(
    deck: Seq<u8>,
    slots: Seq<u8>,
    player_hand_size: u8,
    dealer_hand_size: u8,
) -> (Seq<u8>, bool) {
    if bust(dealt(slots, player_hand_size)) {
        (slots.update(player_hand_size as int, NO_CARD), true)
    } else {
        let drawn = slots.update(
            player_hand_size as int,
            deck[player_hand_size + dealer_hand_size],
        );
        (drawn, bust(dealt(drawn, (player_hand_size + 1) as u8)))
    }
}

/// Draws one card for the player. Hand sizes that leave no slot are invalid
/// input.
pub fn player_hit(deck: &Deck, player_hand: &Hand, player_hand_size: u8, dealer_hand_size: u8) -> (r:
    Result<(Hand, bool), ErrorCode>)
    ensures
        !can_draw(player_hand_size, dealer_hand_size) ==> r == Err::<(Hand, bool), ErrorCode>(
            ErrorCode::InvalidInput,
        ),
        can_draw(player_hand_size, dealer_hand_size) ==> ({
            let outcome = hit_outcome(
                deck.cards(),
                player_hand.slots(),
                player_hand_size,
                dealer_hand_size,
            );
            &&& r == Ok::<(Hand, bool), ErrorCode>((Hand::encode(outcome.0), outcome.1))
            &&& r->Ok_0.0.slots() == outcome.0
        }),
{
    if player_hand_size as usize >= HAND_SLOTS || dealer_hand_size as usize > HAND_SLOTS {
        return Err(ErrorCode::InvalidInput);
    }
    let cards = deck.to_array();
    let mut slots = player_hand.to_array();
    if calculate_hand_value(&slots, player_hand_size) > BUST_LIMIT {
        slots[player_hand_size as usize] = NO_CARD;
        Ok((Hand::from_array(slots), true))
    } else {
        slots[player_hand_size as usize] = cards[(player_hand_size + dealer_hand_size) as usize];
        let is_bust = calculate_hand_value(&slots, player_hand_size + 1) > BUST_LIMIT;
        Ok((Hand::from_array(slots), is_bust))
    }
}

/// Draws one card for a player who doubles down: the draw of a hit. That the
/// player's turn ends with it is the table's business.
pub fn player_double_down(
    deck: &Deck,
    player_hand: &Hand,
    player_hand_size: u8,
    dealer_hand_size: u8,
) -> (r: Result<(Hand, bool), ErrorCode>)
    ensures
        !can_draw(player_hand_size, dealer_hand_size) ==> r == Err::<(Hand, bool), ErrorCode>(
            ErrorCode::InvalidInput,
        ),
        can_draw(player_hand_size, dealer_hand_size) ==> ({
            let outcome = hit_outcome(
                deck.cards(),
                player_hand.slots(),
                player_hand_size,
                dealer_hand_size,
            );
            &&& r == Ok::<(Hand, bool), ErrorCode>((Hand::encode(outcome.0), outcome.1))
            &&& r->Ok_0.0.slots() == outcome.0
        }),
{
    player_hit(deck, player_hand, player_hand_size, dealer_hand_size)
}

/// Tells whether a player who stands is over 21. No card is drawn.
pub fn player_stand(player_hand: &Hand, player_hand_size: u8) -> (is_bust: bool)
    ensures
        is_bust == bust(dealt(player_hand.slots(), player_hand_size)),
{
    let slots = player_hand.to_array();
    calculate_hand_value(&slots, player_hand_size) > BUST_LIMIT
}

/// Whether the dealer can take one more card: the hand has a slot left and
/// the deck a card that was not dealt.
pub open spec fn dealer_can_draw(player_hand_size: u8, size: u8) -> bool {
    size < HAND_SLOTS && player_hand_size + size < DECK_SIZE
}

/// The dealer's slots and hand size after at most `rounds` draws: while the
/// hand is worth less than 17 the dealer takes the next card that was not
/// dealt, the one at `player_hand_size + size` in the deck. There is none
/// where a card is needed and cannot be taken.
pub open spec fn dealer_draws(
    deck: Seq<u8>,
    slots: Seq<u8>,
    player_hand_size: u8,
    size: u8,
    rounds: nat,
) -> Option<(Seq<u8>, u8)>
    decreases rounds,
{
    if rounds == 0 || hand_value(dealt(slots, size)) >= DEALER_STANDS_AT {
        Some((slots, size))
    } else if !dealer_can_draw(player_hand_size, size) {
        None
    } else {
        dealer_draws(
            deck,
            slots.update(size as int, deck[player_hand_size + size]),
            player_hand_size,
            (size + 1) as u8,
            (rounds - 1) as nat,
        )
    }
}

/// A dealer who holds 17 or more draws nothing, whatever the hand sizes:
/// slots and hand size stay as they are.
pub proof fn lemma_dealer_stands(
    deck: Seq<u8>,
    slots: Seq<u8>,
    player_hand_size: u8,
    size: u8,
    rounds: nat,
)
    requires
        hand_value(dealt(slots, size)) >= DEALER_STANDS_AT,
    ensures
        dealer_draws(deck, slots, player_hand_size, size, rounds) == Some((slots, size)),
{
}

/// The dealer never gives a card back, draws no more often than the rounds
/// allow, and never holds more cards than the hand has slots for.
pub proof fn lemma_dealer_draws_bounded(
    deck: Seq<u8>,
    slots: Seq<u8>,
    player_hand_size: u8,
    size: u8,
    rounds: nat,
)
    requires
        slots.len() == HAND_SLOTS,
    ensures
        dealer_draws(deck, slots, player_hand_size, size, rounds) matches Some(played) ==> {
            &&& size <= played.1 <= size + rounds
            &&& played.1 > size ==> played.1 <= HAND_SLOTS
            &&& played.0.len() == slots.len()
        },
    decreases rounds,
{
    if rounds == 0 || hand_value(dealt(slots, size)) >= DEALER_STANDS_AT {
    } else if !dealer_can_draw(player_hand_size, size) {
    } else {
        lemma_dealer_draws_bounded(
            deck,
            slots.update(size as int, deck[player_hand_size + size]),
            player_hand_size,
            (size + 1) as u8,
            (rounds - 1) as nat,
        );
    }
}

/// Plays the dealer's hand: up to seven draws, each while the hand is worth
/// less than 17. A dealer who stands from the start gets the hand back as it
/// is. The play is invalid input only where a card is needed and the hand has
/// no slot or the deck no card left for it.
pub fn dealer_play(deck: &Deck, dealer_hand: &Hand, player_hand_size: u8, dealer_hand_size: u8) -> (r:
    Result<(Hand, u8), ErrorCode>)
    ensures
        match dealer_draws(
            deck.cards(),
            dealer_hand.slots(),
            player_hand_size,
            dealer_hand_size,
            DEALER_DRAW_CAP as nat,
        ) {
            None => r == Err::<(Hand, u8), ErrorCode>(ErrorCode::InvalidInput),
            Some(played) => {
                &&& r == Ok::<(Hand, u8), ErrorCode>((Hand::encode(played.0), played.1))
                &&& r->Ok_0.0.slots() == played.0
            },
        },
        hand_value(dealt(dealer_hand.slots(), dealer_hand_size)) >= DEALER_STANDS_AT ==> {
            &&& r is Ok
            &&& r->Ok_0.0.slots() == dealer_hand.slots()
            &&& r->Ok_0.1 == dealer_hand_size
            &&& dealer_hand.canonical() ==> r->Ok_0.0 == *dealer_hand
        },
{
    let cards = deck.to_array();
    let mut slots = dealer_hand.to_array();
    let mut size: u8 = dealer_hand_size;
    let mut round: u8 = 0;
    let mut standing = false;
    while round < DEALER_DRAW_CAP && !standing
        invariant
            round <= DEALER_DRAW_CAP,
            cards@ == deck.cards(),
            packable(cards@),
            packable(slots@),
            standing ==> hand_value(dealt(slots@, size)) >= DEALER_STANDS_AT,
            dealer_draws(cards@, slots@, player_hand_size, size, (DEALER_DRAW_CAP - round) as nat)
                == dealer_draws(
                cards@,
                dealer_hand.slots(),
                player_hand_size,
                dealer_hand_size,
                DEALER_DRAW_CAP as nat,
            ),
        decreases DEALER_DRAW_CAP - round + if standing { 0int } else { 1int },
    {
        if calculate_hand_value(&slots, size) < DEALER_STANDS_AT {
            let next = player_hand_size as usize + size as usize;
            if size as usize >= HAND_SLOTS || next >= DECK_SIZE {
                return Err(ErrorCode::InvalidInput);
            }
            slots[size as usize] = cards[next];
            size = size + 1;
            round = round + 1;
        } else {
            standing = true;
        }
    }
    proof {
        if dealer_hand.canonical() {
            lemma_hand_reencoded(*dealer_hand);
        }
    }
    Ok((Hand::from_array(slots), size))
}

/// How a game ended.
#[derive(Clone, Copy, Debug, PartialEq, Eq, Structural)]
pub enum Outcome {
    /// The player is over 21: the dealer wins.
    PlayerBust,
    /// The dealer is over 21: the player wins.
    DealerBust,
    /// The player holds more than the dealer.
    PlayerWins,
    /// The dealer holds more than the player.
    DealerWins,
    /// Both hold the same.
    Push,
}

impl Outcome {
    /// The number that stands for the outcome: 0 to 4 in the order of the
    /// variants.
    pub open spec fn code_spec(self) -> u8 {
        match self {
            Outcome::PlayerBust => 0,
            Outcome::DealerBust => 1,
            Outcome::PlayerWins => 2,
            Outcome::DealerWins => 3,
            Outcome::Push => 4,
        }
    }

    /// The outcome that a number stands for, if any.
    pub open spec fn from_code_spec(code: u8) -> Option<Outcome> {
        match code {
            0 => Some(Outcome::PlayerBust),
            1 => Some(Outcome::DealerBust),
            2 => Some(Outcome::PlayerWins),
            3 => Some(Outcome::DealerWins),
            4 => Some(Outcome::Push),
            _ => None,
        }
    }

    /// The number that stands for the outcome.
    #[verifier::when_used_as_spec(code_spec)]
    pub fn code(self) -> (c: u8)
        ensures
            c == self.code_spec(),
            Outcome::from_code_spec(c) == Some(self),
    {
        match self {
            Outcome::PlayerBust => 0,
            Outcome::DealerBust => 1,
            Outcome::PlayerWins => 2,
            Outcome::DealerWins => 3,
            Outcome::Push => 4,
        }
    }

    /// Reads an outcome from its number; numbers over 4 stand for none.
    #[verifier::when_used_as_spec(from_code_spec)]
    pub fn from_code(code: u8) -> (o: Option<Outcome>)
        ensures
            o == Outcome::from_code_spec(code),
            o is Some <==> code <= 4,
            o is Some ==> o->0.code_spec() == code,
    {
        match code {
            0 => Some(Outcome::PlayerBust),
            1 => Some(Outcome::DealerBust),
            2 => Some(Outcome::PlayerWins),
            3 => Some(Outcome::DealerWins),
            4 => Some(Outcome::Push),
            _ => None,
        }
    }
}

/// The outcome for two hand values: a player over 21 loses whatever the
/// dealer holds; else a dealer over 21 loses; else the higher hand wins, and
/// equal hands push.
pub open spec fn outcome_of(player_value: nat, dealer_value: nat) -> Outcome {
    if player_value > BUST_LIMIT {
        Outcome::PlayerBust
    } else if dealer_value > BUST_LIMIT {
        Outcome::DealerBust
    } else if player_value > dealer_value {
        Outcome::PlayerWins
    } else if dealer_value > player_value {
        Outcome::DealerWins
    } else {
        Outcome::Push
    }
}

/// Decides between two hand values.
pub fn decide(player_value: u8, dealer_value: u8) -> (o: Outcome)
    ensures
        o == outcome_of(player_value as nat, dealer_value as nat),
{
    if player_value > BUST_LIMIT {
        Outcome::PlayerBust
    } else if dealer_value > BUST_LIMIT {
        Outcome::DealerBust
    } else if player_value > dealer_value {
        Outcome::PlayerWins
    } else if dealer_value > player_value {
        Outcome::DealerWins
    } else {
        Outcome::Push
    }
}

/// Compares the final hands and gives the outcome's number.
pub fn resolve_game(
    player_hand: &Hand,
    dealer_hand: &Hand,
    player_hand_size: u8,
    dealer_hand_size: u8,
) -> (code: u8)
    ensures
        code == outcome_of(
            hand_value(dealt(player_hand.slots(), player_hand_size)),
            hand_value(dealt(dealer_hand.slots(), dealer_hand_size)),
        ).code_spec(),
        code <= 4,
{
    let player = player_hand.to_array();
    let dealer = dealer_hand.to_array();
    let player_value = calculate_hand_value(&player, player_hand_size);
    let dealer_value = calculate_hand_value(&dealer, dealer_hand_size);
    decide(player_value, dealer_value).code()
}

/// Whether the cards are a full deck: 52 cards, each from 0 to 51, no two
/// alike.
pub open spec fn full_deck(cards: Seq<u8>) -> bool {
    &&& cards.len() == DECK_SIZE
    &&& forall|i: int| 0 <= i < cards.len() ==> cards[i] < DECK_SIZE
    &&& forall|i: int, j: int| 0 <= i < j < cards.len() ==> cards[i] != cards[j]
}

/// The cards 0 to 51 in order.
pub open spec fn fresh_deck() -> Seq<u8> {
    Seq::new(DECK_SIZE as nat, |i: int| i as u8)
}

/// The two cards at `i` and `j` changed over.
pub open spec fn swapped(cards: Seq<u8>, i: int, j: int) -> Seq<u8> {
    cards.update(i, cards[j]).update(j, cards[i])
}

/// The place that the card at `i` changes with: `i` or a later place, chosen
/// by the pick.
pub open spec fn swap_target(i: int, pick: u64) -> int {
    i + pick % ((DECK_SIZE - i) as u64)
}

/// The deck after the first `steps` places were settled: place by place,
/// the card changes with the one that the place's pick chooses among the
/// places not yet settled.
pub open spec fn shuffled(cards: Seq<u8>, picks: Seq<u64>, steps: nat) -> Seq<u8>
    decreases steps,
{
    if steps == 0 {
        cards
    } else {
        let before = shuffled(cards, picks, (steps - 1) as nat);
        swapped(before, steps - 1, swap_target(steps - 1, picks[steps - 1]))
    }
}

/// Changing two cards over leaves a full deck full.
pub proof fn lemma_swap_keeps_deck(cards: Seq<u8>, i: int, j: int)
    requires
        full_deck(cards),
        0 <= i < DECK_SIZE,
        0 <= j < DECK_SIZE,
    ensures
        full_deck(swapped(cards, i, j)),
{
}

/// A shuffle of a full deck is a full deck, whatever the picks.
pub proof fn lemma_shuffle_keeps_deck(cards: Seq<u8>, picks: Seq<u64>, steps: nat)
    requires
        full_deck(cards),
        picks.len() == DECK_SIZE,
        steps <= DECK_SIZE,
    ensures
        full_deck(shuffled(cards, picks, steps)),
    decreases steps,
{
    if steps > 0 {
        lemma_shuffle_keeps_deck(cards, picks, (steps - 1) as nat);
        let before = shuffled(cards, picks, (steps - 1) as nat);
        lemma_swap_keeps_deck(before, steps - 1, swap_target(steps - 1, picks[steps - 1]));
    }
}

/// A full deck holds every card from 0 to 51, each of them once.
pub proof fn lemma_full_deck_holds_every_card(cards: Seq<u8>, card: u8)
    requires
        full_deck(cards),
        card < DECK_SIZE,
    ensures
        exists|i: int| 0 <= i < cards.len() && cards[i] == card,
        forall|i: int, j: int|
            0 <= i < cards.len() && 0 <= j < cards.len() && cards[i] == card && cards[j] == card
                ==> i == j,
{
    let values = Seq::new(cards.len(), |i: int| cards[i] as int);
    assert(values.no_duplicates());
    values.unique_seq_to_set();
    let held = values.to_set();
    let all = vstd::set_lib::set_int_range(0, 52);
    vstd::set_lib::lemma_int_range(0, 52);
    assert(held.subset_of(all)) by {
        assert forall|v: int| held.contains(v) implies all.contains(v) by {
            let i = choose|i: int| 0 <= i < values.len() && values[i] == v;
            assert(values[i] == cards[i] as int);
        }
    }
    vstd::set_lib::lemma_len_subset(held, all);
    vstd::set_lib::lemma_subset_equality(held, all);
    assert(all.contains(card as int));
    assert(held.contains(card as int));
    let i = choose|i: int| 0 <= i < values.len() && values[i] == card as int;
    assert(cards[i] == card);
}

/// What the deal hands out of a shuffled deck.
pub struct Deal {
    /// The whole deck, shuffled.
    pub deck: Deck,
    /// The dealer's hand: the second and the fourth card.
    pub dealer_hand: Hand,
    /// The player's hand: the first and the third card.
    pub player_hand: Hand,
    /// The dealer's card that the player sees: the second card.
    pub dealer_face_up_card: u8,
}

/// The hand that holds two cards and nothing else.
pub open spec fn opening_hand(first: u8, second: u8) -> Seq<u8> {
    Seq::new(HAND_SLOTS as nat, |i: int| NO_CARD).update(0, first).update(1, second)
}

/// Shuffles a fresh deck with the picks that the caller drew at random and
/// deals the opening hands.
///
/// The deck that comes out is full whatever the picks are; it is uniformly
/// distributed where the picks are.
pub fn shuffle_and_deal_cards(picks: &[u64; 52]) -> (deal: Deal)
    ensures
        deal.deck.cards() == shuffled(fresh_deck(), picks@, DECK_SIZE as nat),
        full_deck(deal.deck.cards()),
        deal.player_hand.slots() == opening_hand(deal.deck.cards()[0], deal.deck.cards()[2]),
        deal.dealer_hand.slots() == opening_hand(deal.deck.cards()[1], deal.deck.cards()[3]),
        deal.dealer_face_up_card == deal.deck.cards()[1],
        deal.deck == Deck::encode(deal.deck.cards()),
        deal.player_hand.canonical(),
        deal.dealer_hand.canonical(),
{
    let mut cards = [0u8; 52];
    let mut k: usize = 0;
    while k < DECK_SIZE
        invariant
            k <= DECK_SIZE,
            forall|i: int| 0 <= i < k ==> cards@[i] == i as u8,
        decreases DECK_SIZE - k,
    {
        cards[k] = k as u8;
        k = k + 1;
    }
    assert(cards@ =~= fresh_deck());
    let mut i: usize = 0;
    while i < DECK_SIZE
        invariant
            i <= DECK_SIZE,
            cards@ == shuffled(fresh_deck(), picks@, i as nat),
            full_deck(cards@),
        decreases DECK_SIZE - i,
    {
        let span = (DECK_SIZE - i) as u64;
        let j = i + (picks[i] % span) as usize;
        let ghost before = cards@;
        let a = cards[i];
        let b = cards[j];
        cards[i] = b;
        cards[j] = a;
        proof {
            assert(j == swap_target(i as int, picks@[i as int]));
            assert(cards@ =~= swapped(before, i as int, j as int));
            lemma_swap_keeps_deck(before, i as int, j as int);
        }
        i = i + 1;
    }
    let mut dealer = [NO_CARD; 11];
    dealer[0] = cards[1];
    dealer[1] = cards[3];
    let mut player = [NO_CARD; 11];
    player[0] = cards[0];
    player[1] = cards[2];
    assert(dealer@ =~= opening_hand(cards@[1], cards@[3]));
    assert(player@ =~= opening_hand(cards@[0], cards@[2]));
    Deal {
        deck: Deck::from_array(cards),
        dealer_hand: Hand::from_array(dealer),
        player_hand: Hand::from_array(player),
        dealer_face_up_card: cards[1],
    }
}

} // verus!
