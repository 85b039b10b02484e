//! Cards, hands and the value of a hand.

use vstd::prelude::*;

verus! {

#[derive(Clone, Copy, Debug, PartialEq, Eq, Hash, Structural)]
pub enum Suit {
    Clubs,
    Diamonds,
    Hearts,
    Spades,
}

#[derive(Clone, Copy, Debug, PartialEq, Eq, Hash, Structural)]
pub enum Rank {
    Ace,
    Two,
    Three,
    Four,
    Five,
    Six,
    Seven,
    Eight,
    Nine,
    Ten,
    Jack,
    Queen,
    King,
}

/// Which of the decks of the shoe a card comes from.
#[derive(Clone, Copy, Debug, PartialEq, Eq, Hash, Structural)]
pub enum DeckId {
    One,
    Two,
    Three,
    Four,
    Five,
    Six,
}

#[derive(Clone, Copy, Debug, PartialEq, Eq, Hash, Structural)]
pub struct Card {
    pub deck_id: DeckId,
    pub rank: Rank,
    pub suit: Suit,
}

/// The points a rank counts, an ace counted as one.
pub open spec fn rank_points(r: Rank) -> nat {
    match r {
        Rank::Ace => 1,
        Rank::Two => 2,
        Rank::Three => 3,
        Rank::Four => 4,
        Rank::Five => 5,
        Rank::Six => 6,
        Rank::Seven => 7,
        Rank::Eight => 8,
        Rank::Nine => 9,
        _ => 10,
    }
}

/// The total of a sequence of cards with every ace counted as one.
pub open spec fn hard_total(cards: Seq<Card>) -> nat
    decreases cards.len(),
{
    if cards.len() == 0 {
        0
    } else {
        hard_total(cards.drop_last()) + rank_points(cards.last().rank)
    }
}

/// Whether the cards hold an ace.
pub open spec fn holds_ace(cards: Seq<Card>) -> bool {
    exists|i: int| 0 <= i < cards.len() && (#[trigger] cards[i]).rank == Rank::Ace
}

/// The best value of the cards: one ace counts eleven where that does not
/// take the total past 21.
pub open spec fn best_total(cards: Seq<Card>) -> nat {
    if holds_ace(cards) && hard_total(cards) <= 11 {
        hard_total(cards) + 10
    } else {
        hard_total(cards)
    }
}

/// A hand is bust when even with every ace counted as one it is over 21.
pub open spec fn is_bust_cards(cards: Seq<Card>) -> bool {
    hard_total(cards) > 21
}

/// A natural: two cards worth 21.
pub open spec fn is_natural(cards: Seq<Card>) -> bool {
    cards.len() == 2 && best_total(cards) == 21
}

impl Rank {
    pub fn points(&self) -> (p: u32)
        ensures
            p == rank_points(*self),
    {
        match self {
            Rank::Ace => 1,
            Rank::Two => 2,
            Rank::Three => 3,
            Rank::Four => 4,
            Rank::Five => 5,
            Rank::Six => 6,
            Rank::Seven => 7,
            Rank::Eight => 8,
            Rank::Nine => 9,
            _ => 10,
        }
    }
}

/// The value of a hand as it is counted: the total with aces as one,
/// saturated at `u32::MAX`, and whether it holds an ace.
#[derive(Clone, Copy, Debug, PartialEq, Eq, Structural)]
pub struct HandValue {
    pub hard: u32,
    pub has_ace: bool,
}

impl HandValue {
    /// Whether this value is the value of `cards`.
    pub open spec fn counts(self, cards: Seq<Card>) -> bool {
        &&& self.hard == (if hard_total(cards) <= u32::MAX { hard_total(cards) } else { u32::MAX as nat })
        &&& self.has_ace == holds_ace(cards)
    }

    /// The value of a hand with no card.
    pub fn empty() -> (v: HandValue)
        ensures
            v.counts(Seq::empty()),
    {
        HandValue { hard: 0, has_ace: false }
    }

    /// The value once `card` is added to a hand of this value.
    pub fn with_card(self, card: Card) -> (v: HandValue)
        ensures
            v == (HandValue {
                hard: if self.hard + rank_points(card.rank) > u32::MAX { u32::MAX } else { (self.hard + rank_points(card.rank)) as u32 },
                has_ace: self.has_ace || card.rank == Rank::Ace,
            }),
            forall|cards: Seq<Card>| self.counts(cards) ==> v.counts(cards.push(card)),
    {
        let p = card.rank.points();
        let hard = if self.hard > u32::MAX - p {
            u32::MAX
        } else {
            self.hard + p
        };
        let v = HandValue { hard, has_ace: self.has_ace || card.rank == Rank::Ace };
        proof {
            assert forall|cards: Seq<Card>| self.counts(cards) implies v.counts(cards.push(card)) by {
                let c2 = cards.push(card);
                assert(c2.drop_last() =~= cards);
                if holds_ace(cards) {
                    let i = choose|i: int| 0 <= i < cards.len() && (#[trigger] cards[i]).rank == Rank::Ace;
                    assert(c2[i] == cards[i]);
                }
                if card.rank == Rank::Ace {
                    assert(c2[cards.len() as int] == card);
                }
                if holds_ace(c2) {
                    let i = choose|i: int| 0 <= i < c2.len() && (#[trigger] c2[i]).rank == Rank::Ace;
                    if i < cards.len() {
                        assert(cards[i] == c2[i]);
                    }
                }
            }
        }
        v
    }

    /// The best value: one ace counts eleven where the total stays at most 21.
    pub fn best_value(&self) -> (b: u32)
        ensures
            b == (if self.has_ace && self.hard <= 11 { self.hard + 10 } else { self.hard as int }),
            forall|cards: Seq<Card>| self.counts(cards) && hard_total(cards) <= u32::MAX ==> b == best_total(cards),
    {
        if self.has_ace && self.hard <= 11 {
            self.hard + 10
        } else {
            self.hard
        }
    }

    pub fn is_bust(&self) -> (b: bool)
        ensures
            b == (self.hard > 21),
            forall|cards: Seq<Card>| self.counts(cards) ==> (b <==> is_bust_cards(cards)),
    {
        self.hard > 21
    }
}

pub struct Hand {
    pub cards: Vec<Card>,
}

impl Hand {
    pub fn new() -> (h: Hand)
        ensures
            h.cards@ == Seq::<Card>::empty(),
    {
        Hand { cards: Vec::new() }
    }

    pub fn add_card(&mut self, card: Card)
        ensures
            final(self).cards@ == old(self).cards@.push(card),
    {
        self.cards.push(card);
    }

    /// The value of the hand.
    pub fn value(&self) -> (v: HandValue)
        ensures
            v.counts(self.cards@),
    {
        let mut v = HandValue::empty();
        let mut i: usize = 0;
        while i < self.cards.len()
            invariant
                i <= self.cards.len(),
                v.counts(self.cards@.take(i as int)),
            decreases self.cards.len() - i,
        {
            let ghost before = self.cards@.take(i as int);
            v = v.with_card(self.cards[i]);
            assert(self.cards@.take(i as int + 1) =~= before.push(self.cards@[i as int]));
            i = i + 1;
        }
        assert(self.cards@.take(i as int) =~= self.cards@);
        v
    }
}

impl Clone for Hand {
    fn clone(&self) -> (h: Hand)
        ensures
            h.cards@ == self.cards@,
    {
        let mut cards: Vec<Card> = Vec::new();
        let mut i: usize = 0;
        while i < self.cards.len()
            invariant
                i <= self.cards.len(),
                cards@ =~= self.cards@.take(i as int),
            decreases self.cards.len() - i,
        {
            cards.push(self.cards[i]);
            i = i + 1;
        }
        Hand { cards }
    }
}

} // verus!
