use vstd::prelude::*;
use core::cmp::Ordering;
use crate::figure::{Figure, Rank, Suit, Trump, RANK_COUNT, SUIT_COUNT, TRUMP_COUNT};

verus! {

/// A playable card: one figure. Its point value is derived from the figure.
#[derive(Clone, Copy, PartialEq, Eq, Structural, Hash, Debug)]
pub struct Card(pub Figure);

/// Number of distinct cards.
pub const CARD_COUNT: u8 = 78;

impl Card {
    /// Point value of the card, ten times its scoring value.
    pub open spec fn spec_points(self) -> nat {
        match self.0 {
            Figure::Fool => 45,
            Figure::Trump(Trump::One) => 45,
            Figure::Trump(Trump::TwentyOne) => 45,
            Figure::Trump(_) => 5,
            Figure::Base(_, Rank::Jack) => 15,
            Figure::Base(_, Rank::Knight) => 25,
            Figure::Base(_, Rank::Queen) => 35,
            Figure::Base(_, Rank::King) => 45,
            Figure::Base(_, _) => 5,
        }
    }

    /// Point value of the card, ten times its scoring value.
    pub fn points(&self) -> (r: u8)
        ensures
            r == self.spec_points(),
    {
        match self.0 {
            Figure::Fool => 45,
            Figure::Trump(Trump::One) => 45,
            Figure::Trump(Trump::TwentyOne) => 45,
            Figure::Trump(_) => 5,
            Figure::Base(_, rank) => match rank {
                Rank::Jack => 15,
                Rank::Knight => 25,
                Rank::Queen => 35,
                Rank::King => 45,
                _ => 5,
            },
        }
    }

    /// Position of the card in the order in which a deck is built: the
    /// suited cards suit by suit, then the trumps, then the Fool.
    pub open spec fn position(self) -> int {
        match self.0 {
            Figure::Base(s, r) => s.ordinal() * RANK_COUNT + r.ordinal(),
            Figure::Trump(t) => SUIT_COUNT * RANK_COUNT + t.ordinal(),
            Figure::Fool => SUIT_COUNT * RANK_COUNT + TRUMP_COUNT,
        }
    }

    /// The card at a position of the build order.
    pub open spec fn at_position(i: int) -> Card {
        if i < SUIT_COUNT * RANK_COUNT {
            Card(Figure::Base(Suit::spec_from_ordinal(i / RANK_COUNT as int),
                Rank::spec_from_ordinal(i % RANK_COUNT as int)))
        } else if i < SUIT_COUNT * RANK_COUNT + TRUMP_COUNT {
            Card(Figure::Trump(Trump::spec_from_ordinal(i - SUIT_COUNT * RANK_COUNT)))
        } else {
            Card(Figure::Fool)
        }
    }

    /// Comparison of two cards: that of their figures.
    pub open spec fn compare(self, other: Card) -> Ordering {
        self.0.compare(other.0)
    }
}

/// Every card has a position below the number of cards, and the position
/// determines the card.
pub proof fn lemma_position(c: Card)
    ensures
        0 <= c.position() < CARD_COUNT,
        Card::at_position(c.position()) == c,
{
    match c.0 {
        Figure::Base(s, r) => {
            let i = s.ordinal() * RANK_COUNT + r.ordinal();
            assert(i / RANK_COUNT as int == s.ordinal() && i % RANK_COUNT as int == r.ordinal())
                by (nonlinear_arith)
                requires
                    i == s.ordinal() * 14 + r.ordinal(),
                    0 <= r.ordinal() < 14,
                    0 <= s.ordinal() < 4,
            ;
        },
        _ => {},
    }
}

impl PartialOrd for Card {
    fn partial_cmp(&self, other: &Card) -> Option<Ordering> {
        self.0.partial_cmp(&other.0)
    }
}

impl vstd::std_specs::cmp::PartialOrdSpecImpl for Card {
    open spec fn obeys_partial_cmp_spec() -> bool {
        true
    }

    open spec fn partial_cmp_spec(&self, other: &Card) -> Option<Ordering> {
        Some(self.compare(*other))
    }
}

} // verus!
