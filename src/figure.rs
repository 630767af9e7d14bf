use vstd::prelude::*;
use vstd::string::StringExecFns;
use core::cmp::Ordering;
use vstd::std_specs::cmp::PartialOrdSpec;

verus! {

/// Ordering of two integers, as `cmp` orders them.
pub open spec fn ordering_of(a: int, b: int) -> Ordering {
    if a < b {
        Ordering::Less
    } else if a == b {
        Ordering::Equal
    } else {
        Ordering::Greater
    }
}

/// The four non-trump suits.
#[derive(Clone, Copy, PartialEq, Eq, Structural, Hash, Debug)]
pub enum Suit {
    Spade,
    Heart,
    Diamond,
    Club,
}

/// The fourteen ranks of a suit, Ace lowest and King highest.
#[derive(Clone, Copy, PartialEq, Eq, Structural, Hash, Debug)]
pub enum Rank {
    Ace,
    Two,
    Three,
    Four,
    Five,
    Six,
    Seven,
    Eight,
    Nine,
    Ten,
    Jack,
    Knight,
    Queen,
    King,
}

/// The twenty-one trumps, One lowest and TwentyOne highest.
#[derive(Clone, Copy, PartialEq, Eq, Structural, Hash, Debug)]
pub enum Trump {
    One,
    Two,
    Three,
    Four,
    Five,
    Six,
    Seven,
    Eight,
    Nine,
    Ten,
    Eleven,
    Twelve,
    Thirteen,
    Fourteen,
    Fifteen,
    Sixteen,
    Seventeen,
    Eighteen,
    Nineteen,
    Twenty,
    TwentyOne,
}

/// The identity of a card: the Fool, a suited card, or a trump.
#[derive(Clone, Copy, PartialEq, Eq, Structural, Hash, Debug)]
pub enum Figure {
    Fool,
    Base(Suit, Rank),
    Trump(Trump),
}

/// Number of suits.
pub const SUIT_COUNT: u8 = 4;

/// Number of ranks in a suit.
pub const RANK_COUNT: u8 = 14;

/// Number of trumps.
pub const TRUMP_COUNT: u8 = 21;

impl Suit {
    /// Position of the suit in declaration order.
    pub open spec fn ordinal(self) -> int {
        match self {
            Suit::Spade => 0,
            Suit::Heart => 1,
            Suit::Diamond => 2,
            Suit::Club => 3,
        }
    }

    /// The suit at a position in declaration order.
    pub open spec fn spec_from_ordinal(i: int) -> Suit {
        if i == 0 {
            Suit::Spade
        } else if i == 1 {
            Suit::Heart
        } else if i == 2 {
            Suit::Diamond
        } else {
            Suit::Club
        }
    }

    /// The suit at position `i` in declaration order.
    pub fn from_ordinal(i: u8) -> (r: Suit)
        requires
            i < SUIT_COUNT,
        ensures
            r.ordinal() == i,
            r == Suit::spec_from_ordinal(i as int),
    {
        if i == 0 {
            Suit::Spade
        } else if i == 1 {
            Suit::Heart
        } else if i == 2 {
            Suit::Diamond
        } else {
            Suit::Club
        }
    }

    /// Comparison of a suit against another in a trick: the left operand is
    /// the led suit, so two different suits always compare `Greater`.
    pub open spec fn compare(self, other: Suit) -> Ordering {
        if self == other {
            Ordering::Equal
        } else {
            Ordering::Greater
        }
    }

    /// Symbol of the suit.
    pub open spec fn spec_symbol(self) -> Seq<char> {
        match self {
            Suit::Spade => "♠"@,
            Suit::Heart => "♥"@,
            Suit::Diamond => "♦"@,
            Suit::Club => "♣"@,
        }
    }

    /// Symbol of the suit.
    pub fn symbol(&self) -> (r: &'static str)
        ensures
            r@ == self.spec_symbol(),
    {
        match self {
            Suit::Spade => "♠",
            Suit::Heart => "♥",
            Suit::Diamond => "♦",
            Suit::Club => "♣",
        }
    }

    /// Hearts and diamonds are red; spades and clubs are black.
    pub open spec fn spec_is_red(self) -> bool {
        self == Suit::Heart || self == Suit::Diamond
    }

    /// Whether the suit is printed in red.
    pub fn is_red(&self) -> (r: bool)
        ensures
            r == self.spec_is_red(),
    {
        match self {
            Suit::Heart | Suit::Diamond => true,
            Suit::Spade | Suit::Club => false,
        }
    }
}

impl PartialOrd for Suit {
    fn partial_cmp(&self, other: &Suit) -> Option<Ordering> {
        if *self == *other {
            Some(Ordering::Equal)
        } else {
            Some(Ordering::Greater)
        }
    }
}

impl vstd::std_specs::cmp::PartialOrdSpecImpl for Suit {
    open spec fn obeys_partial_cmp_spec() -> bool {
        true
    }

    open spec fn partial_cmp_spec(&self, other: &Suit) -> Option<Ordering> {
        Some(self.compare(*other))
    }
}

impl Rank {
    /// Position of the rank in declaration order.
    pub open spec fn ordinal(self) -> int {
        match self {
            Rank::Ace => 0,
            Rank::Two => 1,
            Rank::Three => 2,
            Rank::Four => 3,
            Rank::Five => 4,
            Rank::Six => 5,
            Rank::Seven => 6,
            Rank::Eight => 7,
            Rank::Nine => 8,
            Rank::Ten => 9,
            Rank::Jack => 10,
            Rank::Knight => 11,
            Rank::Queen => 12,
            Rank::King => 13,
        }
    }

    /// The rank at a position in declaration order.
    pub open spec fn spec_from_ordinal(i: int) -> Rank {
        if i == 0 {
            Rank::Ace
        } else if i == 1 {
            Rank::Two
        } else if i == 2 {
            Rank::Three
        } else if i == 3 {
            Rank::Four
        } else if i == 4 {
            Rank::Five
        } else if i == 5 {
            Rank::Six
        } else if i == 6 {
            Rank::Seven
        } else if i == 7 {
            Rank::Eight
        } else if i == 8 {
            Rank::Nine
        } else if i == 9 {
            Rank::Ten
        } else if i == 10 {
            Rank::Jack
        } else if i == 11 {
            Rank::Knight
        } else if i == 12 {
            Rank::Queen
        } else {
            Rank::King
        }
    }

    /// The rank at position `i` in declaration order.
    pub fn from_ordinal(i: u8) -> (r: Rank)
        requires
            i < RANK_COUNT,
        ensures
            r.ordinal() == i,
            r == Rank::spec_from_ordinal(i as int),
    {
        if i == 0 {
            Rank::Ace
        } else if i == 1 {
            Rank::Two
        } else if i == 2 {
            Rank::Three
        } else if i == 3 {
            Rank::Four
        } else if i == 4 {
            Rank::Five
        } else if i == 5 {
            Rank::Six
        } else if i == 6 {
            Rank::Seven
        } else if i == 7 {
            Rank::Eight
        } else if i == 8 {
            Rank::Nine
        } else if i == 9 {
            Rank::Ten
        } else if i == 10 {
            Rank::Jack
        } else if i == 11 {
            Rank::Knight
        } else if i == 12 {
            Rank::Queen
        } else {
            Rank::King
        }
    }

    /// Position of the rank in declaration order.
    pub fn index(&self) -> (r: u8)
        ensures
            r == self.ordinal(),
            r < RANK_COUNT,
    {
        match self {
            Rank::Ace => 0,
            Rank::Two => 1,
            Rank::Three => 2,
            Rank::Four => 3,
            Rank::Five => 4,
            Rank::Six => 5,
            Rank::Seven => 6,
            Rank::Eight => 7,
            Rank::Nine => 8,
            Rank::Ten => 9,
            Rank::Jack => 10,
            Rank::Knight => 11,
            Rank::Queen => 12,
            Rank::King => 13,
        }
    }

    /// Label of the rank.
    pub open spec fn spec_label(self) -> Seq<char> {
        match self {
            Rank::Ace => " 1"@,
            Rank::Two => " 2"@,
            Rank::Three => " 3"@,
            Rank::Four => " 4"@,
            Rank::Five => " 5"@,
            Rank::Six => " 6"@,
            Rank::Seven => " 7"@,
            Rank::Eight => " 8"@,
            Rank::Nine => " 9"@,
            Rank::Ten => "10"@,
            Rank::Jack => " V"@,
            Rank::Knight => " C"@,
            Rank::Queen => " D"@,
            Rank::King => " R"@,
        }
    }

    /// Label of the rank.
    pub fn label(&self) -> (r: &'static str)
        ensures
            r@ == self.spec_label(),
    {
        match self {
            Rank::Ace => " 1",
            Rank::Two => " 2",
            Rank::Three => " 3",
            Rank::Four => " 4",
            Rank::Five => " 5",
            Rank::Six => " 6",
            Rank::Seven => " 7",
            Rank::Eight => " 8",
            Rank::Nine => " 9",
            Rank::Ten => "10",
            Rank::Jack => " V",
            Rank::Knight => " C",
            Rank::Queen => " D",
            Rank::King => " R",
        }
    }
}

impl PartialOrd for Rank {
    fn partial_cmp(&self, other: &Rank) -> Option<Ordering> {
        let a = self.index();
        let b = other.index();
        if a < b {
            Some(Ordering::Less)
        } else if a == b {
            Some(Ordering::Equal)
        } else {
            Some(Ordering::Greater)
        }
    }
}

impl vstd::std_specs::cmp::PartialOrdSpecImpl for Rank {
    open spec fn obeys_partial_cmp_spec() -> bool {
        true
    }

    open spec fn partial_cmp_spec(&self, other: &Rank) -> Option<Ordering> {
        Some(ordering_of(self.ordinal(), other.ordinal()))
    }
}

impl Trump {
    /// Position of the trump in declaration order.
    pub open spec fn ordinal(self) -> int {
        match self {
            Trump::One => 0,
            Trump::Two => 1,
            Trump::Three => 2,
            Trump::Four => 3,
            Trump::Five => 4,
            Trump::Six => 5,
            Trump::Seven => 6,
            Trump::Eight => 7,
            Trump::Nine => 8,
            Trump::Ten => 9,
            Trump::Eleven => 10,
            Trump::Twelve => 11,
            Trump::Thirteen => 12,
            Trump::Fourteen => 13,
            Trump::Fifteen => 14,
            Trump::Sixteen => 15,
            Trump::Seventeen => 16,
            Trump::Eighteen => 17,
            Trump::Nineteen => 18,
            Trump::Twenty => 19,
            Trump::TwentyOne => 20,
        }
    }

    /// The trump at a position in declaration order.
    pub open spec fn spec_from_ordinal(i: int) -> Trump {
        if i == 0 {
            Trump::One
        } else if i == 1 {
            Trump::Two
        } else if i == 2 {
            Trump::Three
        } else if i == 3 {
            Trump::Four
        } else if i == 4 {
            Trump::Five
        } else if i == 5 {
            Trump::Six
        } else if i == 6 {
            Trump::Seven
        } else if i == 7 {
            Trump::Eight
        } else if i == 8 {
            Trump::Nine
        } else if i == 9 {
            Trump::Ten
        } else if i == 10 {
            Trump::Eleven
        } else if i == 11 {
            Trump::Twelve
        } else if i == 12 {
            Trump::Thirteen
        } else if i == 13 {
            Trump::Fourteen
        } else if i == 14 {
            Trump::Fifteen
        } else if i == 15 {
            Trump::Sixteen
        } else if i == 16 {
            Trump::Seventeen
        } else if i == 17 {
            Trump::Eighteen
        } else if i == 18 {
            Trump::Nineteen
        } else if i == 19 {
            Trump::Twenty
        } else {
            Trump::TwentyOne
        }
    }

    /// The trump at position `i` in declaration order.
    pub fn from_ordinal(i: u8) -> (r: Trump)
        requires
            i < TRUMP_COUNT,
        ensures
            r.ordinal() == i,
            r == Trump::spec_from_ordinal(i as int),
    {
        if i == 0 {
            Trump::One
        } else if i == 1 {
            Trump::Two
        } else if i == 2 {
            Trump::Three
        } else if i == 3 {
            Trump::Four
        } else if i == 4 {
            Trump::Five
        } else if i == 5 {
            Trump::Six
        } else if i == 6 {
            Trump::Seven
        } else if i == 7 {
            Trump::Eight
        } else if i == 8 {
            Trump::Nine
        } else if i == 9 {
            Trump::Ten
        } else if i == 10 {
            Trump::Eleven
        } else if i == 11 {
            Trump::Twelve
        } else if i == 12 {
            Trump::Thirteen
        } else if i == 13 {
            Trump::Fourteen
        } else if i == 14 {
            Trump::Fifteen
        } else if i == 15 {
            Trump::Sixteen
        } else if i == 16 {
            Trump::Seventeen
        } else if i == 17 {
            Trump::Eighteen
        } else if i == 18 {
            Trump::Nineteen
        } else if i == 19 {
            Trump::Twenty
        } else {
            Trump::TwentyOne
        }
    }

    /// Position of the trump in declaration order.
    pub fn index(&self) -> (r: u8)
        ensures
            r == self.ordinal(),
            r < TRUMP_COUNT,
    {
        match self {
            Trump::One => 0,
            Trump::Two => 1,
            Trump::Three => 2,
            Trump::Four => 3,
            Trump::Five => 4,
            Trump::Six => 5,
            Trump::Seven => 6,
            Trump::Eight => 7,
            Trump::Nine => 8,
            Trump::Ten => 9,
            Trump::Eleven => 10,
            Trump::Twelve => 11,
            Trump::Thirteen => 12,
            Trump::Fourteen => 13,
            Trump::Fifteen => 14,
            Trump::Sixteen => 15,
            Trump::Seventeen => 16,
            Trump::Eighteen => 17,
            Trump::Nineteen => 18,
            Trump::Twenty => 19,
            Trump::TwentyOne => 20,
        }
    }

    /// Label of the trump.
    pub open spec fn spec_label(self) -> Seq<char> {
        match self {
            Trump::One => "1"@,
            Trump::Two => "2"@,
            Trump::Three => "3"@,
            Trump::Four => "4"@,
            Trump::Five => "5"@,
            Trump::Six => "6"@,
            Trump::Seven => "7"@,
            Trump::Eight => "8"@,
            Trump::Nine => "9"@,
            Trump::Ten => "10"@,
            Trump::Eleven => "11"@,
            Trump::Twelve => "12"@,
            Trump::Thirteen => "13"@,
            Trump::Fourteen => "14"@,
            Trump::Fifteen => "15"@,
            Trump::Sixteen => "16"@,
            Trump::Seventeen => "17"@,
            Trump::Eighteen => "18"@,
            Trump::Nineteen => "19"@,
            Trump::Twenty => "20"@,
            Trump::TwentyOne => "21"@,
        }
    }

    /// Label of the trump.
    pub fn label(&self) -> (r: &'static str)
        ensures
            r@ == self.spec_label(),
    {
        match self {
            Trump::One => "1",
            Trump::Two => "2",
            Trump::Three => "3",
            Trump::Four => "4",
            Trump::Five => "5",
            Trump::Six => "6",
            Trump::Seven => "7",
            Trump::Eight => "8",
            Trump::Nine => "9",
            Trump::Ten => "10",
            Trump::Eleven => "11",
            Trump::Twelve => "12",
            Trump::Thirteen => "13",
            Trump::Fourteen => "14",
            Trump::Fifteen => "15",
            Trump::Sixteen => "16",
            Trump::Seventeen => "17",
            Trump::Eighteen => "18",
            Trump::Nineteen => "19",
            Trump::Twenty => "20",
            Trump::TwentyOne => "21",
        }
    }
}

impl PartialOrd for Trump {
    fn partial_cmp(&self, other: &Trump) -> Option<Ordering> {
        let a = self.index();
        let b = other.index();
        if a < b {
            Some(Ordering::Less)
        } else if a == b {
            Some(Ordering::Equal)
        } else {
            Some(Ordering::Greater)
        }
    }
}

impl vstd::std_specs::cmp::PartialOrdSpecImpl for Trump {
    open spec fn obeys_partial_cmp_spec() -> bool {
        true
    }

    open spec fn partial_cmp_spec(&self, other: &Trump) -> Option<Ordering> {
        Some(ordering_of(self.ordinal(), other.ordinal()))
    }
}

impl Figure {
    /// Variant tier of the structural order: Fool, then suited cards, then trumps.
    pub open spec fn tier(self) -> int {
        match self {
            Figure::Fool => 0,
            Figure::Base(_, _) => 1,
            Figure::Trump(_) => 2,
        }
    }

    /// Comparison of two figures: by tier first; two trumps by strength; two
    /// suited cards by the led-suit rule, then by rank within one suit.
    pub open spec fn compare(self, other: Figure) -> Ordering {
        match (self, other) {
            (Figure::Base(s1, r1), Figure::Base(s2, r2)) => if s1 == s2 {
                ordering_of(r1.ordinal(), r2.ordinal())
            } else {
                s1.compare(s2)
            },
            (Figure::Trump(t1), Figure::Trump(t2)) => ordering_of(t1.ordinal(), t2.ordinal()),
            _ => ordering_of(self.tier(), other.tier()),
        }
    }

    /// Variant tier of the figure.
    pub fn tier_index(&self) -> (r: u8)
        ensures
            r == self.tier(),
    {
        match self {
            Figure::Fool => 0,
            Figure::Base(_, _) => 1,
            Figure::Trump(_) => 2,
        }
    }

    /// Text of the figure: the suit symbol and the rank label of a suited
    /// card, a mark and the number of a trump, a fixed mark for the Fool.
    pub open spec fn spec_text(self) -> Seq<char> {
        match self {
            Figure::Fool => "* *"@,
            Figure::Base(s, r) => s.spec_symbol() + r.spec_label(),
            Figure::Trump(t) => "⸬"@ + t.spec_label(),
        }
    }

    /// Text of the figure.
    pub fn text(&self) -> (r: String)
        ensures
            r@ == self.spec_text(),
    {
        match self {
            Figure::Fool => String::from_str("* *"),
            Figure::Base(s, r) => String::from_str(s.symbol()).concat(r.label()),
            Figure::Trump(t) => String::from_str("⸬").concat(t.label()),
        }
    }

    /// Red for hearts and diamonds; black for every other figure.
    pub open spec fn spec_is_red(self) -> bool {
        match self {
            Figure::Base(s, _) => s.spec_is_red(),
            _ => false,
        }
    }

    /// Whether the figure is printed in red.
    pub fn is_red(&self) -> (r: bool)
        ensures
            r == self.spec_is_red(),
    {
        match self {
            Figure::Base(s, _) => s.is_red(),
            _ => false,
        }
    }
}

impl PartialOrd for Figure {
    fn partial_cmp(&self, other: &Figure) -> Option<Ordering> {
        match (self, other) {
            (Figure::Base(s1, r1), Figure::Base(s2, r2)) => if *s1 == *s2 {
                r1.partial_cmp(r2)
            } else {
                s1.partial_cmp(s2)
            },
            (Figure::Trump(t1), Figure::Trump(t2)) => t1.partial_cmp(t2),
            _ => {
                let a = self.tier_index();
                let b = other.tier_index();
                if a < b {
                    Some(Ordering::Less)
                } else if a == b {
                    Some(Ordering::Equal)
                } else {
                    Some(Ordering::Greater)
                }
            },
        }
    }
}

impl vstd::std_specs::cmp::PartialOrdSpecImpl for Figure {
    open spec fn obeys_partial_cmp_spec() -> bool {
        true
    }

    open spec fn partial_cmp_spec(&self, other: &Figure) -> Option<Ordering> {
        Some(self.compare(*other))
    }
}


/// Two equal suits compare `Equal`; two different suits compare `Greater`
/// in either order, since the left operand is taken as the led suit.
pub proof fn lemma_suit_compare(a: Suit, b: Suit)
    ensures
        a.partial_cmp_spec(&a) == Some(Ordering::Equal),
        a != b ==> a.partial_cmp_spec(&b) == Some(Ordering::Greater),
        a != b ==> b.partial_cmp_spec(&a) == Some(Ordering::Greater),
        a.partial_cmp_spec(&b) != Some(Ordering::Less),
{
}

/// The order of ranks is a strict total order that follows declaration
/// order: every pair compares, `Equal` exactly on equal values, reversing the
/// operands reverses the result, and `Less` is transitive.
pub proof fn lemma_rank_total_order(a: Rank, b: Rank, c: Rank)
    ensures
        a.partial_cmp_spec(&b) is Some,
        a.partial_cmp_spec(&b) == Some(Ordering::Less) <==> a.ordinal() < b.ordinal(),
        a.partial_cmp_spec(&b) == Some(Ordering::Equal) <==> a == b,
        a.partial_cmp_spec(&b) == Some(Ordering::Less) <==> b.partial_cmp_spec(&a) == Some(
            Ordering::Greater,
        ),
        a.partial_cmp_spec(&b) == Some(Ordering::Less) && b.partial_cmp_spec(&c) == Some(
            Ordering::Less,
        ) ==> a.partial_cmp_spec(&c) == Some(Ordering::Less),
{
    assert(Rank::spec_from_ordinal(a.ordinal()) == a);
    assert(Rank::spec_from_ordinal(b.ordinal()) == b);
}

/// The order of trumps is a strict total order that follows declaration
/// order: every pair compares, `Equal` exactly on equal values, reversing the
/// operands reverses the result, and `Less` is transitive.
pub proof fn lemma_trump_total_order(a: Trump, b: Trump, c: Trump)
    ensures
        a.partial_cmp_spec(&b) is Some,
        a.partial_cmp_spec(&b) == Some(Ordering::Less) <==> a.ordinal() < b.ordinal(),
        a.partial_cmp_spec(&b) == Some(Ordering::Equal) <==> a == b,
        a.partial_cmp_spec(&b) == Some(Ordering::Less) <==> b.partial_cmp_spec(&a) == Some(
            Ordering::Greater,
        ),
        a.partial_cmp_spec(&b) == Some(Ordering::Less) && b.partial_cmp_spec(&c) == Some(
            Ordering::Less,
        ) ==> a.partial_cmp_spec(&c) == Some(Ordering::Less),
{
    assert(Trump::spec_from_ordinal(a.ordinal()) == a);
    assert(Trump::spec_from_ordinal(b.ordinal()) == b);
}

/// Any trump outranks any suited card, whatever its strength, suit or rank.
pub proof fn lemma_trump_beats_base(t: Trump, s: Suit, r: Rank)
    ensures
        Figure::Trump(t).partial_cmp_spec(&Figure::Base(s, r)) == Some(Ordering::Greater),
        Figure::Base(s, r).partial_cmp_spec(&Figure::Trump(t)) == Some(Ordering::Less),
{
}

} // verus!
