use std::cmp::Ordering;
use std::collections::HashSet;
use tarot::card::Card;
use tarot::deck::Deck;
use tarot::figure::{Figure, Rank, Suit, Trump};

#[test]
fn test_card_equality() {
    let card_a = Card(Figure::Base(Suit::Spade, Rank::Ace));
    let card_b = Card(Figure::Base(Suit::Spade, Rank::Ace));
    assert_eq!(card_a, card_b);
}

#[test]
fn test_card_nonequality() {
    let card_a = Card(Figure::Base(Suit::Spade, Rank::Ace));
    let card_b = Card(Figure::Base(Suit::Spade, Rank::Two));
    let card_c = Card(Figure::Base(Suit::Diamond, Rank::Ace));
    let card_d = Card(Figure::Trump(Trump::One));
    let card_e = Card(Figure::Trump(Trump::TwentyOne));
    let card_f = Card(Figure::Fool);
    assert_ne!(card_a, card_b);
    assert_ne!(card_a, card_c);
    assert_ne!(card_a, card_d);
    assert_ne!(card_a, card_f);
    assert_ne!(card_d, card_e);
    assert_ne!(card_d, card_f);
}

#[test]
fn test_card_comparison() {
    let card_a = Card(Figure::Base(Suit::Spade, Rank::Ace));
    let card_b = Card(Figure::Base(Suit::Spade, Rank::Two));
    let card_c = Card(Figure::Base(Suit::Diamond, Rank::Ace));
    let card_d = Card(Figure::Trump(Trump::One));
    let card_e = Card(Figure::Trump(Trump::TwentyOne));
    let card_f = Card(Figure::Fool);
    assert!(card_b > card_a);
    assert!(card_a > card_c);
    assert!(card_d > card_a);
    assert!(card_e > card_d);
    assert!(card_f < card_a);
}

#[test]
fn test_card_unicity_in_hashmap() {
    let mut cards = HashSet::new();
    cards.insert(Card(Figure::Base(Suit::Spade, Rank::Ace)));
    cards.insert(Card(Figure::Trump(Trump::One)));
    cards.insert(Card(Figure::Fool));
    // voluntarily trying to add an already existing card
    cards.insert(Card(Figure::Base(Suit::Spade, Rank::Ace)));
    assert!(cards.len() == 3);
}

#[test]
fn card_unicity_in_deck() {
    let mut deck = Deck::empty();
    assert!(deck.insert(Card(Figure::Base(Suit::Spade, Rank::Ace))));
    assert!(deck.insert(Card(Figure::Trump(Trump::One))));
    assert!(deck.insert(Card(Figure::Fool)));
    assert!(!deck.insert(Card(Figure::Base(Suit::Spade, Rank::Ace))));
    assert_eq!(deck.len(), 3);
    assert!(deck.contains(&Card(Figure::Fool)));
    assert!(!deck.contains(&Card(Figure::Trump(Trump::Two))));
}

#[test]
fn suit_compare_is_directional() {
    let suits = [Suit::Spade, Suit::Heart, Suit::Diamond, Suit::Club];
    for a in suits {
        for b in suits {
            let expected = if a == b { Ordering::Equal } else { Ordering::Greater };
            assert_eq!(a.partial_cmp(&b), Some(expected));
        }
    }
    assert!(Suit::Spade > Suit::Club);
    assert!(Suit::Club > Suit::Spade);
}

#[test]
fn rank_and_trump_follow_declaration_order() {
    for i in 0..14u8 {
        for j in 0..14u8 {
            let (a, b) = (Rank::from_ordinal(i), Rank::from_ordinal(j));
            assert_eq!(a.partial_cmp(&b), Some(i.cmp(&j)));
        }
    }
    for i in 0..21u8 {
        for j in 0..21u8 {
            let (a, b) = (Trump::from_ordinal(i), Trump::from_ordinal(j));
            assert_eq!(a.partial_cmp(&b), Some(i.cmp(&j)));
        }
    }
    assert!(Rank::Ace < Rank::King);
    assert!(Rank::Jack < Rank::Knight);
    assert!(Trump::One < Trump::TwentyOne);
}

#[test]
fn trump_beats_every_base() {
    for t in 0..21u8 {
        for s in 0..4u8 {
            for r in 0..14u8 {
                let trump = Figure::Trump(Trump::from_ordinal(t));
                let base = Figure::Base(Suit::from_ordinal(s), Rank::from_ordinal(r));
                assert!(trump > base);
                assert!(base < trump);
            }
        }
    }
}

#[test]
fn figure_comparison_scenarios() {
    assert_eq!(
        Figure::Trump(Trump::One).partial_cmp(&Figure::Base(Suit::Spade, Rank::King)),
        Some(Ordering::Greater)
    );
    assert_eq!(
        Figure::Base(Suit::Spade, Rank::Two).partial_cmp(&Figure::Base(Suit::Spade, Rank::Ace)),
        Some(Ordering::Greater)
    );
    assert_eq!(
        Figure::Base(Suit::Heart, Rank::Ace).partial_cmp(&Figure::Base(Suit::Club, Rank::King)),
        Some(Ordering::Greater)
    );
    assert_eq!(Figure::Fool.partial_cmp(&Figure::Fool), Some(Ordering::Equal));
    assert!(Figure::Fool < Figure::Trump(Trump::One));
}

#[test]
fn card_points_scenarios() {
    assert_eq!(Card(Figure::Base(Suit::Spade, Rank::Ace)).points(), 5);
    assert_eq!(Card(Figure::Base(Suit::Spade, Rank::King)).points(), 45);
    assert_eq!(Card(Figure::Base(Suit::Heart, Rank::Knight)).points(), 25);
    assert_eq!(Card(Figure::Base(Suit::Club, Rank::Jack)).points(), 15);
    assert_eq!(Card(Figure::Base(Suit::Diamond, Rank::Queen)).points(), 35);
    assert_eq!(Card(Figure::Trump(Trump::One)).points(), 45);
    assert_eq!(Card(Figure::Trump(Trump::TwentyOne)).points(), 45);
    assert_eq!(Card(Figure::Trump(Trump::Ten)).points(), 5);
    assert_eq!(Card(Figure::Fool).points(), 45);
}

#[test]
fn full_deck_has_78_distinct_cards() {
    let deck = Deck::new();
    assert_eq!(deck.len(), 78);
    let distinct: HashSet<Card> = deck.cards().iter().copied().collect();
    assert_eq!(distinct.len(), 78);
    assert_eq!(deck.cards()[0], Card(Figure::Base(Suit::Spade, Rank::Ace)));
    assert_eq!(deck.cards()[56], Card(Figure::Trump(Trump::One)));
    assert_eq!(deck.cards()[77], Card(Figure::Fool));
}

#[test]
fn full_deck_absorbs_duplicates() {
    let mut deck = Deck::new();
    assert!(!deck.insert(Card(Figure::Trump(Trump::Seven))));
    assert!(!deck.insert(Card(Figure::Fool)));
    assert_eq!(deck.len(), 78);
}

#[test]
fn full_deck_points() {
    assert_eq!(Deck::new().points(), 910);
    assert_eq!(Deck::empty().points(), 0);
}

#[test]
fn figure_text() {
    assert_eq!(Figure::Fool.text(), "* *");
    assert_eq!(Figure::Base(Suit::Spade, Rank::Ace).text(), "♠ 1");
    assert_eq!(Figure::Base(Suit::Heart, Rank::Knight).text(), "♥ C");
    assert_eq!(Figure::Base(Suit::Club, Rank::Ten).text(), "♣10");
    assert_eq!(Figure::Trump(Trump::TwentyOne).text(), "⸬21");
    assert!(Figure::Base(Suit::Diamond, Rank::King).is_red());
    assert!(!Figure::Base(Suit::Spade, Rank::King).is_red());
    assert!(!Figure::Trump(Trump::One).is_red());
}
