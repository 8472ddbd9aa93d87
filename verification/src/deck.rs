//! A deck of cards: built as every value of every suit, shuffled in place,
//! and dealt from the top.

use vstd::prelude::*;
use vstd::string::StringExecFns;

use rand::seq::SliceRandom;

verus! {

/// The four suit names, in construction order.
pub open spec fn suit_names() -> Seq<Seq<char>> {
    seq!["Hearts"@, "Diamonds"@, "Clubs"@, "Spades"@]
}

/// The three value names, in construction order.
pub open spec fn value_names() -> Seq<Seq<char>> {
    seq!["Ace"@, "Two"@, "Three"@]
}

/// The printed name of one card.
pub open spec fn card_name(value: Seq<char>, suit: Seq<char>) -> Seq<char> {
    value + " of "@ + suit
}

/// A deck of cards, top of the deck last.
#[derive(Debug)]
pub struct Deck {
    pub cards: Vec<String>,
}

/// Builds the printed name of one card from its value and suit.
fn card(value: &str, suit: &str) -> (name: String)
    ensures
        name@ == card_name(value@, suit@),
{
    let mut name = value.to_owned();
    name.append(" of ");
    name.append(suit);
    name
}

/// Relies on rand's `SliceRandom::shuffle`: a Fisher-Yates in-place
/// permutation, so the slice afterwards holds the same values, possibly
/// reordered.
#[verifier::external_body]
fn shuffle_in_place(cards: &mut Vec<String>)
    ensures
        final(cards)@.len() == old(cards)@.len(),
        final(cards)@.to_multiset() == old(cards)@.to_multiset(),
{
    let mut rng = rand::thread_rng();
    cards.shuffle(&mut rng);
}

impl Deck {
    /// The full deck: one card for every suit and value, grouped by suit in
    /// the order of `suit_names`, values in the order of `value_names`.
    pub fn new() -> (deck: Deck)
        ensures
            deck.cards@.len() == suit_names().len() * value_names().len(),
            forall|i: int, j: int|
                0 <= i < suit_names().len() && 0 <= j < value_names().len()
                    ==> #[trigger] deck.cards@[i * value_names().len() + j]@ == card_name(
                    value_names()[j],
                    suit_names()[i],
                ),
    {
        let mut suits: Vec<&str> = Vec::new();
        suits.push("Hearts");
        suits.push("Diamonds");
        suits.push("Clubs");
        suits.push("Spades");
        let mut values: Vec<&str> = Vec::new();
        values.push("Ace");
        values.push("Two");
        values.push("Three");
        proof {
            assert(forall|i: int| 0 <= i < 4 ==> suits@[i]@ == suit_names()[i]);
            assert(forall|j: int| 0 <= j < 3 ==> values@[j]@ == value_names()[j]);
        }

        let mut cards: Vec<String> = Vec::new();
        let mut i: usize = 0;
        while i < suits.len()
            invariant
                suits@.len() == 4,
                values@.len() == 3,
                forall|a: int| 0 <= a < 4 ==> suits@[a]@ == suit_names()[a],
                forall|b: int| 0 <= b < 3 ==> values@[b]@ == value_names()[b],
                i <= 4,
                cards@.len() == i * 3,
                forall|a: int, b: int|
                    0 <= a < i && 0 <= b < 3 ==> #[trigger] cards@[a * 3 + b]@ == card_name(
                        value_names()[b],
                        suit_names()[a],
                    ),
            decreases suits@.len() - i,
        {
            let mut j: usize = 0;
            while j < values.len()
                invariant
                    suits@.len() == 4,
                    values@.len() == 3,
                    forall|a: int| 0 <= a < 4 ==> suits@[a]@ == suit_names()[a],
                    forall|b: int| 0 <= b < 3 ==> values@[b]@ == value_names()[b],
                    i < 4,
                    j <= 3,
                    cards@.len() == i * 3 + j,
                    forall|a: int, b: int|
                        0 <= a < i && 0 <= b < 3 ==> #[trigger] cards@[a * 3 + b]@ == card_name(
                            value_names()[b],
                            suit_names()[a],
                        ),
                    forall|b: int|
                        0 <= b < j ==> #[trigger] cards@[i * 3 + b]@ == card_name(
                            value_names()[b],
                            suit_names()[i as int],
                        ),
                decreases values@.len() - j,
            {
                cards.push(card(values[j], suits[i]));
                j += 1;
            }
            i += 1;
        }
        Deck { cards }
    }

    /// Reorders the cards in place; afterwards the deck holds the same cards
    /// as before, as a multiset.
    pub fn shuffle(&mut self)
        ensures
            final(self).cards@.len() == old(self).cards@.len(),
            final(self).cards@.to_multiset() == old(self).cards@.to_multiset(),
    {
        shuffle_in_place(&mut self.cards);
    }

    /// Removes the top `num_cards_to_remove` cards and returns them, oldest
    /// of the removed cards first; the rest of the deck stays in order.
    pub fn deal(&mut self, num_cards_to_remove: usize) -> (hand: Vec<String>)
        requires
            num_cards_to_remove <= old(self).cards@.len(),
        ensures
            final(self).cards@ == old(self).cards@.subrange(
                0,
                old(self).cards@.len() - num_cards_to_remove,
            ),
            hand@ == old(self).cards@.subrange(
                old(self).cards@.len() - num_cards_to_remove,
                old(self).cards@.len() as int,
            ),
    {
        let removal_idx = self.cards.len() - num_cards_to_remove;
        self.cards.split_off(removal_idx)
    }
}

} // verus!
