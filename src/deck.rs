use vstd::prelude::*;
use vstd::set_lib::{lemma_int_range, lemma_len_subset, set_int_range};
use crate::card::{lemma_position, Card, CARD_COUNT};
use crate::figure::{Figure, Rank, Suit, Trump, RANK_COUNT, SUIT_COUNT, TRUMP_COUNT};

verus! {

/// The cards of a full deck, in the order in which `Deck::new` inserts them.
pub open spec fn full_deck() -> Seq<Card> {
    Seq::new(CARD_COUNT as nat, |i: int| Card::at_position(i))
}

/// Sum of the point values of a sequence of cards.
pub open spec fn total_points(s: Seq<Card>) -> nat
    decreases s.len(),
{
    if s.len() == 0 {
        0
    } else {
        total_points(s.drop_last()) + s.last().spec_points()
    }
}

/// Points of the first `n` cards of the build order.
pub open spec fn prefix_points(n: nat) -> nat
    decreases n,
{
    if n == 0 {
        0
    } else {
        prefix_points((n - 1) as nat) + Card::at_position(n - 1).spec_points()
    }
}

/// Adding one more card of a sequence to a running total adds its points.
pub proof fn lemma_total_points_step(s: Seq<Card>, i: int)
    requires
        0 <= i < s.len(),
    ensures
        total_points(s.take(i + 1)) == total_points(s.take(i)) + s[i].spec_points(),
{
    assert(s.take(i + 1).drop_last() =~= s.take(i));
}

/// No card is worth more than 45, so a sequence is worth at most 45 per card.
pub proof fn lemma_total_points_bound(s: Seq<Card>)
    ensures
        total_points(s) <= 45 * s.len(),
    decreases s.len(),
{
    if s.len() > 0 {
        lemma_total_points_bound(s.drop_last());
    }
}

/// A sequence of distinct cards has at most as many cards as there are.
pub proof fn lemma_distinct_cards_bound(s: Seq<Card>)
    requires
        s.no_duplicates(),
    ensures
        s.len() <= CARD_COUNT,
{
    let p = s.map_values(|c: Card| c.position());
    assert(p.no_duplicates()) by {
        assert forall|i: int, j: int| 0 <= i < p.len() && 0 <= j < p.len() && i != j implies p[i]
            != p[j] by {
            lemma_position(s[i]);
            lemma_position(s[j]);
        }
    }
    p.unique_seq_to_set();
    lemma_int_range(0, CARD_COUNT as int);
    assert(p.to_set().subset_of(set_int_range(0, CARD_COUNT as int))) by {
        assert forall|x: int| p.to_set().contains(x) implies set_int_range(0, CARD_COUNT as int).contains(x) by {
            let j = choose|j: int| 0 <= j < p.len() && p[j] == x;
            lemma_position(s[j]);
        }
    }
    lemma_len_subset(p.to_set(), set_int_range(0, CARD_COUNT as int));
}

/// The first `n` cards of the build order are worth `prefix_points(n)`.
pub proof fn lemma_full_deck_prefix(n: nat)
    requires
        n <= CARD_COUNT,
    ensures
        total_points(full_deck().take(n as int)) == prefix_points(n),
    decreases n,
{
    if n > 0 {
        lemma_full_deck_prefix((n - 1) as nat);
        lemma_total_points_step(full_deck(), n - 1);
    }
}

/// A full deck is worth 910 points, ten times the scoring total of 91.
pub proof fn lemma_full_deck_points()
    ensures
        total_points(full_deck()) == 910,
{
    lemma_full_deck_prefix(CARD_COUNT as nat);
    assert(full_deck().take(CARD_COUNT as int) =~= full_deck());
    // Each suit is worth 170, the trumps 185 and the Fool 45.
    assert(prefix_points(14) == 170) by {
        reveal_with_fuel(prefix_points, 15);
    }
    assert(prefix_points(28) == prefix_points(14) + 170) by {
        reveal_with_fuel(prefix_points, 15);
    }
    assert(prefix_points(42) == prefix_points(28) + 170) by {
        reveal_with_fuel(prefix_points, 15);
    }
    assert(prefix_points(56) == prefix_points(42) + 170) by {
        reveal_with_fuel(prefix_points, 15);
    }
    assert(prefix_points(77) == prefix_points(56) + 185) by {
        reveal_with_fuel(prefix_points, 22);
    }
    assert(prefix_points(78) == prefix_points(77) + 45) by {
        reveal_with_fuel(prefix_points, 2);
    }
}

/// A set of distinct cards, kept in the order in which they were inserted.
pub struct Deck {
    cards: Vec<Card>,
}

impl View for Deck {
    type V = Seq<Card>;

    closed spec fn view(&self) -> Seq<Card> {
        self.cards@
    }
}

impl Deck {
    /// No card is held twice.
    pub open spec fn wf(&self) -> bool {
        self@.no_duplicates()
    }

    /// A deck with no cards.
    pub fn empty() -> (r: Deck)
        ensures
            r.wf(),
            r@ == Seq::<Card>::empty(),
    {
        Deck { cards: Vec::new() }
    }

    /// Number of cards in the deck.
    pub fn len(&self) -> (r: usize)
        ensures
            r == self@.len(),
    {
        self.cards.len()
    }

    /// The cards of the deck, in insertion order.
    pub fn cards(&self) -> (r: &[Card])
        ensures
            r@ == self@,
    {
        self.cards.as_slice()
    }

    /// Whether the deck holds `card`.
    pub fn contains(&self, card: &Card) -> (r: bool)
        ensures
            r == self@.contains(*card),
    {
        let mut i: usize = 0;
        while i < self.cards.len()
            invariant
                0 <= i <= self@.len(),
                forall|j: int| 0 <= j < i ==> self@[j] != *card,
            decreases self@.len() - i,
        {
            if self.cards[i] == *card {
                return true;
            }
            i = i + 1;
        }
        false
    }

    /// Adds `card` unless the deck holds it already; a duplicate is ignored.
    /// Returns whether the card was added.
    pub fn insert(&mut self, card: Card) -> (r: bool)
        requires
            old(self).wf(),
        ensures
            final(self).wf(),
            r == !old(self)@.contains(card),
            r ==> final(self)@ == old(self)@.push(card),
            !r ==> final(self)@ == old(self)@,
            final(self)@.to_set() == old(self)@.to_set().insert(card),
    {
        if self.contains(&card) {
            assert(self@.to_set().insert(card) =~= self@.to_set());
            false
        } else {
            self.cards.push(card);
            assert(self@.to_set() =~= old(self)@.to_set().insert(card)) by {
                assert forall|c: Card| self@.contains(c) <==> old(self)@.contains(c) || c == card by {
                    if old(self)@.contains(c) {
                        let j = choose|j: int| 0 <= j < old(self)@.len() && old(self)@[j] == c;
                        assert(self@[j] == c);
                    }
                    if c == card {
                        assert(self@[old(self)@.len() as int] == c);
                    }
                }
            }
            true
        }
    }

    /// The full deck: every suited card suit by suit, then every trump, then
    /// the Fool, each inserted once.
    pub fn new() -> (r: Deck)
        ensures
            r.wf(),
            r@ == full_deck(),
            r@.len() == CARD_COUNT,
            forall|c: Card| #[trigger] r@.contains(c),
    {
        let mut deck = Deck::empty();
        let mut s: u8 = 0;
        while s < SUIT_COUNT
            invariant
                0 <= s <= SUIT_COUNT,
                deck.wf(),
                deck@ =~= full_deck().take(s * RANK_COUNT),
            decreases SUIT_COUNT - s,
        {
            let suit = Suit::from_ordinal(s);
            let mut r: u8 = 0;
            while r < RANK_COUNT
                invariant
                    0 <= s < SUIT_COUNT,
                    0 <= r <= RANK_COUNT,
                    suit.ordinal() == s,
                    deck.wf(),
                    deck@ =~= full_deck().take(s * RANK_COUNT + r),
                decreases RANK_COUNT - r,
            {
                let card = Card(Figure::Base(suit, Rank::from_ordinal(r)));
                proof {
                    Deck::lemma_next_absent(deck@, card, s * RANK_COUNT + r);
                }
                deck.insert(card);
                r = r + 1;
            }
            s = s + 1;
        }
        let mut t: u8 = 0;
        while t < TRUMP_COUNT
            invariant
                0 <= t <= TRUMP_COUNT,
                deck.wf(),
                deck@ =~= full_deck().take(SUIT_COUNT * RANK_COUNT + t),
            decreases TRUMP_COUNT - t,
        {
            let card = Card(Figure::Trump(Trump::from_ordinal(t)));
            proof {
                Deck::lemma_next_absent(deck@, card, SUIT_COUNT * RANK_COUNT + t);
            }
            deck.insert(card);
            t = t + 1;
        }
        let card = Card(Figure::Fool);
        proof {
            Deck::lemma_next_absent(deck@, card, SUIT_COUNT * RANK_COUNT + TRUMP_COUNT);
        }
        deck.insert(card);
        assert(deck@ =~= full_deck());
        assert forall|c: Card| #[trigger] deck@.contains(c) by {
            lemma_position(c);
            assert(deck@[c.position()] == c);
        }
        deck
    }

    /// Sum of the point values of the cards of the deck.
    pub fn points(&self) -> (r: u16)
        requires
            self.wf(),
        ensures
            r == total_points(self@),
    {
        proof {
            lemma_distinct_cards_bound(self@);
            lemma_total_points_bound(self@);
        }
        let mut res: u16 = 0;
        let mut i: usize = 0;
        while i < self.cards.len()
            invariant
                0 <= i <= self@.len(),
                self@.len() <= CARD_COUNT,
                res == total_points(self@.take(i as int)),
            decreases self@.len() - i,
        {
            proof {
                lemma_total_points_step(self@, i as int);
                lemma_total_points_bound(self@.take(i as int + 1));
            }
            res = res + self.cards[i].points() as u16;
            i = i + 1;
        }
        assert(self@.take(i as int) =~= self@);
        res
    }

    /// While a deck is built, the card due at position `n` is not yet in the
    /// first `n` cards, and inserting it extends them by one.
    proof fn lemma_next_absent(s: Seq<Card>, card: Card, n: int)
        requires
            0 <= n < CARD_COUNT,
            card.position() == n,
            s == full_deck().take(n),
        ensures
            !s.contains(card),
            s.push(card) =~= full_deck().take(n + 1),
    {
        lemma_position(card);
        if s.contains(card) {
            let j = choose|j: int| 0 <= j < s.len() && s[j] == card;
            lemma_position(Card::at_position(j));
            assert(Card::at_position(j).position() == j) by {
                Deck::lemma_at_position(j);
            }
        }
    }

    /// The card at a position of the build order has that position.
    proof fn lemma_at_position(i: int)
        requires
            0 <= i < CARD_COUNT,
        ensures
            Card::at_position(i).position() == i,
    {
        if i < SUIT_COUNT * RANK_COUNT {
            let q = i / RANK_COUNT as int;
            let m = i % RANK_COUNT as int;
            assert(q * 14 + m == i && 0 <= q < 4 && 0 <= m < 14) by (nonlinear_arith)
                requires
                    0 <= i < 56,
                    q == i / 14,
                    m == i % 14,
            ;
        }
    }
}

} // verus!
