//! The shoe: six decks, in order or shuffled.

use crate::cards::{Card, DeckId, Rank, Suit};
use crate::ids::fresh_ulid;
use vstd::prelude::*;

verus! {

broadcast use vstd::seq_lib::group_to_multiset_ensures, vstd::multiset::group_multiset_axioms;

/// Cards in a deck, and decks in the shoe.
pub const DECK_SIZE: usize = 52;
pub const DECKS: usize = 6;
pub const SHOE_SIZE: usize = 312;

pub open spec fn rank_at(k: int) -> Rank {
    if k == 0 { Rank::Ace }
    else if k == 1 { Rank::Two }
    else if k == 2 { Rank::Three }
    else if k == 3 { Rank::Four }
    else if k == 4 { Rank::Five }
    else if k == 5 { Rank::Six }
    else if k == 6 { Rank::Seven }
    else if k == 7 { Rank::Eight }
    else if k == 8 { Rank::Nine }
    else if k == 9 { Rank::Ten }
    else if k == 10 { Rank::Jack }
    else if k == 11 { Rank::Queen }
    else { Rank::King }
}

pub open spec fn suit_at(k: int) -> Suit {
    if k == 0 { Suit::Clubs }
    else if k == 1 { Suit::Diamonds }
    else if k == 2 { Suit::Hearts }
    else { Suit::Spades }
}

pub open spec fn deck_at(k: int) -> DeckId {
    if k == 0 { DeckId::One }
    else if k == 1 { DeckId::Two }
    else if k == 2 { DeckId::Three }
    else if k == 3 { DeckId::Four }
    else if k == 4 { DeckId::Five }
    else { DeckId::Six }
}

/// The `n`-th card of an unshuffled shoe: deck by deck, suit by suit, rank
/// by rank.
pub open spec fn card_at(n: int) -> Card {
    Card { deck_id: deck_at(n / 52), suit: suit_at((n % 52) / 13), rank: rank_at(n % 13) }
}

/// The unshuffled shoe.
pub open spec fn ordered_shoe() -> Seq<Card> {
    Seq::new(SHOE_SIZE as nat, |n: int| card_at(n))
}

fn rank_from(k: usize) -> (r: Rank)
    requires
        k < 13,
    ensures
        r == rank_at(k as int),
{
    if k == 0 { Rank::Ace }
    else if k == 1 { Rank::Two }
    else if k == 2 { Rank::Three }
    else if k == 3 { Rank::Four }
    else if k == 4 { Rank::Five }
    else if k == 5 { Rank::Six }
    else if k == 6 { Rank::Seven }
    else if k == 7 { Rank::Eight }
    else if k == 8 { Rank::Nine }
    else if k == 9 { Rank::Ten }
    else if k == 10 { Rank::Jack }
    else if k == 11 { Rank::Queen }
    else { Rank::King }
}

fn suit_from(k: usize) -> (s: Suit)
    requires
        k < 4,
    ensures
        s == suit_at(k as int),
{
    if k == 0 { Suit::Clubs }
    else if k == 1 { Suit::Diamonds }
    else if k == 2 { Suit::Hearts }
    else { Suit::Spades }
}

fn deck_from(k: usize) -> (d: DeckId)
    requires
        k < 6,
    ensures
        d == deck_at(k as int),
{
    if k == 0 { DeckId::One }
    else if k == 1 { DeckId::Two }
    else if k == 2 { DeckId::Three }
    else if k == 3 { DeckId::Four }
    else if k == 4 { DeckId::Five }
    else { DeckId::Six }
}

/// Replacing one element of a sequence replaces it in its multiset.
proof fn lemma_update_multiset<A>(s: Seq<A>, i: int, x: A)
    requires
        0 <= i < s.len(),
    ensures
        s.update(i, x).to_multiset() =~= s.to_multiset().remove(s[i]).insert(x),
{
    let u = s.update(i, x);
    assert(u.remove(i) =~= s.remove(i));
    assert(u.remove(i).to_multiset() =~= u.to_multiset().remove(u[i]));
    assert(s.remove(i).to_multiset() =~= s.to_multiset().remove(s[i]));
    assert(u.contains(x)) by {
        assert(u[i] == x);
    }
    assert(s.contains(s[i]));
    assert forall|v: A| #[trigger] u.to_multiset().count(v) == s.to_multiset().remove(s[i]).insert(x).count(v) by {
        if v == x {
            assert(u.to_multiset().count(x) > 0);
        }
    }
}

/// Swapping two elements keeps the multiset.
proof fn lemma_swap_multiset<A>(s: Seq<A>, i: int, j: int)
    requires
        0 <= i < s.len(),
        0 <= j < s.len(),
    ensures
        s.update(i, s[j]).update(j, s[i]).to_multiset() =~= s.to_multiset(),
{
    let a = s[i];
    let b = s[j];
    let s1 = s.update(i, b);
    lemma_update_multiset(s, i, b);
    lemma_update_multiset(s1, j, a);
    assert(s.contains(a));
    assert(s.to_multiset().count(a) > 0);
    if i == j {
        assert(s1.update(j, a) =~= s);
    } else {
        assert(s1[j] == b);
        assert forall|v: A| #[trigger] s1.update(j, a).to_multiset().count(v) == s.to_multiset().count(v) by {
        }
    }
}

pub struct Shoe;

impl Shoe {
    /// The six decks in order.
    pub fn ordered() -> (v: Vec<Card>)
        ensures
            v@ == ordered_shoe(),
    {
        let mut v: Vec<Card> = Vec::new();
        let mut n: usize = 0;
        while n < SHOE_SIZE
            invariant
                n <= SHOE_SIZE,
                v@ =~= ordered_shoe().take(n as int),
            decreases SHOE_SIZE - n,
        {
            let c = Card { deck_id: deck_from(n / 52), suit: suit_from((n % 52) / 13), rank: rank_from(n % 13) };
            v.push(c);
            n = n + 1;
        }
        v
    }

    /// The six decks shuffled: every card of the ordered shoe, each exactly
    /// as often, in an order drawn at random.
    pub fn shuffled() -> (v: Vec<Card>)
        ensures
            v@.len() == SHOE_SIZE,
            v@.to_multiset() =~= ordered_shoe().to_multiset(),
    {
        let mut v = Self::ordered();
        let mut i: usize = SHOE_SIZE;
        while i > 1
            invariant
                1 <= i <= SHOE_SIZE,
                v@.len() == SHOE_SIZE,
                v@.to_multiset() =~= ordered_shoe().to_multiset(),
            decreases i,
        {
            // The low bits of a fresh ULID are random.
            let r = fresh_ulid();
            let j = (r % (i as u128)) as usize;
            let k = i - 1;
            let a = v[k];
            let b = v[j];
            proof { lemma_swap_multiset(v@, k as int, j as int); }
            v.set(k, b);
            v.set(j, a);
            i = i - 1;
        }
        v
    }
}

} // verus!
