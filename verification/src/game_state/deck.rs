//! A generic draw pile with a discard pile and automatic reshuffle.
//!
//! Drawing pops from the end of the draw pile ("the top"). When the draw
//! pile is empty, the whole discard pile is moved back into the draw pile
//! (keeping its order — the reshuffle does not randomise) before popping.
//! A draw fails only when both piles are empty.

use vstd::prelude::*;

use crate::error::GameError;

verus! {

/// The mathematical content of a deck: both piles as sequences, the last
/// element of `items` being the top of the draw pile.
#[verifier::ext_equal]
pub ghost struct DeckModel<T> {
    pub items: Seq<T>,
    pub discard: Seq<T>,
}

/// A draw pile plus a discard pile.
pub struct Deck<T> {
    items: Vec<T>,
    discard: Vec<T>,
}

/// What one draw does to the two piles, at the level of sequences:
/// the result is the new draw pile, the new discard pile and the item
/// drawn, or `None` when both piles are empty.
pub open spec fn spec_draw<T>(items: Seq<T>, discard: Seq<T>) -> Option<(Seq<T>, Seq<T>, T)> {
    if items.len() > 0 {
        Some((items.drop_last(), discard, items.last()))
    } else if discard.len() > 0 {
        Some((discard.drop_last(), Seq::<T>::empty(), discard.last()))
    } else {
        None
    }
}

/// The two piles after `n` draws, or `None` when some draw in the run
/// failed.
pub open spec fn spec_draw_n<T>(items: Seq<T>, discard: Seq<T>, n: nat) -> Option<
    (Seq<T>, Seq<T>),
>
    decreases n,
{
    if n == 0 {
        Some((items, discard))
    } else {
        match spec_draw(items, discard) {
            Some((items2, discard2, _)) => spec_draw_n(items2, discard2, (n - 1) as nat),
            None => None,
        }
    }
}

impl<T> Deck<T> {
    /// The current draw pile, top last.
    pub closed spec fn spec_items(&self) -> Seq<T> {
        self.items@
    }

    /// The current discard pile.
    pub closed spec fn spec_discard(&self) -> Seq<T> {
        self.discard@
    }

    /// How many items the deck holds across both piles.
    pub open spec fn spec_total(&self) -> nat {
        self.spec_items().len() + self.spec_discard().len()
    }

    /// A new deck drawing from `items`, with an empty discard pile.
    pub fn new(items: Vec<T>) -> (deck: Self)
        ensures
            deck.spec_items() == items@,
            deck.spec_discard() == Seq::<T>::empty(),
    {
        Deck { items, discard: Vec::new() }
    }

    /// Draws the top item, reshuffling the discard pile back in first if
    /// the draw pile is empty; fails only when both piles are empty.
    pub fn draw(&mut self) -> (r: Result<T, GameError>)
        ensures
            match r {
                Ok(item) => spec_draw(old(self).spec_items(), old(self).spec_discard())
                    == Some((final(self).spec_items(), final(self).spec_discard(), item)),
                Err(e) => {
                    &&& e == GameError::DeckExhausted
                    &&& old(self).spec_total() == 0
                    &&& *final(self) == *old(self)
                },
            },
    {
        if self.items.is_empty() {
            if self.discard.is_empty() {
                return Err(GameError::DeckExhausted);
            }
            self.items.append(&mut self.discard);
            proof {
                assert(self.items@ =~= old(self).discard@);
                assert(self.discard@ =~= Seq::<T>::empty());
            }
            let item = self.items.pop().unwrap();
            proof {
                assert(spec_draw(old(self).spec_items(), old(self).spec_discard()) =~= Some(
                    (self.spec_items(), self.spec_discard(), item),
                ));
            }
            Ok(item)
        } else {
            let item = self.items.pop().unwrap();
            proof {
                assert(spec_draw(old(self).spec_items(), old(self).spec_discard()) =~= Some(
                    (self.spec_items(), self.spec_discard(), item),
                ));
            }
            Ok(item)
        }
    }

    /// Appends an item to the discard pile; the draw pile is untouched and
    /// no reshuffle happens here.
    pub fn add_to_discard(&mut self, item: T)
        ensures
            final(self).spec_items() == old(self).spec_items(),
            final(self).spec_discard() == old(self).spec_discard().push(item),
    {
        self.discard.push(item);
    }

    /// Deck law: from piles holding `n` or more items in total, a run of
    /// `n` draws succeeds and leaves exactly `n` fewer items; when the
    /// piles held exactly `n` items, the draw after the run fails.
    pub proof fn lemma_draws_within_budget(items: Seq<T>, discard: Seq<T>, n: nat)
        requires
            n <= items.len() + discard.len(),
        ensures
            spec_draw_n(items, discard, n) matches Some((items2, discard2))
                && items2.len() + discard2.len() == items.len() + discard.len() - n,
            items.len() + discard.len() == n ==> (spec_draw_n(items, discard, n) matches Some(
                (items2, discard2),
            ) && spec_draw(items2, discard2) is None),
        decreases n,
    {
        if n > 0 {
            let (items2, discard2, _) = spec_draw(items, discard).unwrap();
            Self::lemma_draws_within_budget(items2, discard2, (n - 1) as nat);
        }
    }

    /// Deck law: a draw followed by discarding the drawn item restores the
    /// multiset of items held across both piles.
    pub proof fn lemma_draw_then_discard_round_trip(items: Seq<T>, discard: Seq<T>)
        requires
            spec_draw(items, discard) is Some,
        ensures
            spec_draw(items, discard) matches Some((items2, discard2, item))
                && (items2 + discard2.push(item)).to_multiset() == (items
                + discard).to_multiset(),
    {
        broadcast use vstd::seq_lib::group_to_multiset_ensures;

        let (items2, discard2, item) = spec_draw(items, discard).unwrap();
        vstd::seq_lib::lemma_multiset_commutative(items2, discard2.push(item));
        vstd::seq_lib::lemma_multiset_commutative(items, discard);
        if items.len() > 0 {
            assert(items =~= items.drop_last().push(items.last()));
            assert(items.to_multiset() =~= items.drop_last().to_multiset().insert(items.last()));
            assert((items2 + discard2.push(item)).to_multiset() =~= (items + discard).to_multiset());
        } else {
            assert(discard =~= discard.drop_last().push(discard.last()));
            assert(discard.to_multiset() =~= discard.drop_last().to_multiset().insert(
                discard.last(),
            ));
            assert((items2 + discard2.push(item)).to_multiset() =~= (items + discard).to_multiset());
        }
    }
}

impl<T: DeepView> DeepView for Deck<T> {
    type V = DeckModel<T::V>;

    open spec fn deep_view(&self) -> DeckModel<T::V> {
        DeckModel {
            items: Seq::new(self.spec_items().len(), |i: int| self.spec_items()[i].deep_view()),
            discard: Seq::new(
                self.spec_discard().len(),
                |i: int| self.spec_discard()[i].deep_view(),
            ),
        }
    }
}

impl<T: DeepView> View for Deck<T> {
    type V = DeckModel<T::V>;

    open spec fn view(&self) -> DeckModel<T::V> {
        self.deep_view()
    }
}

impl<T: Clone> Clone for Deck<T> {
    /// The clone holds clones of the items, pile for pile and slot for
    /// slot; what a cloned item guarantees is up to `T::clone`.
    fn clone(&self) -> (res: Self)
        ensures
            res.spec_items().len() == self.spec_items().len(),
            forall|i: int|
                0 <= i < self.spec_items().len() ==> cloned::<T>(
                    self.spec_items()[i],
                    #[trigger] res.spec_items()[i],
                ),
            res.spec_discard().len() == self.spec_discard().len(),
            forall|i: int|
                0 <= i < self.spec_discard().len() ==> cloned::<T>(
                    self.spec_discard()[i],
                    #[trigger] res.spec_discard()[i],
                ),
    {
        Deck { items: self.items.clone(), discard: self.discard.clone() }
    }
}

} // verus!
