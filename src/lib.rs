//! Cards of a tarot-family game: suits, ranks, trumps and the Fool, the
//! comparison rules used to decide which card wins in a trick, the point
//! value of each card, and the full deck of 78 distinct cards.
use vstd::prelude::*;

pub mod card;
pub mod deck;
pub mod figure;

verus! {

} // verus!
