//! Market cards: priced cards offered by traders.

use vstd::prelude::*;

use crate::game_state::deck::Deck;

verus! {

/// The adventure content a market card sells; no card carries any yet.
pub type AdventureCard = ();

/// One market card: its content, its price and its position in the
/// printed deck.
#[derive(Debug, Copy, PartialEq, Eq)]
pub struct MarketCard {
    pub card: AdventureCard,
    pub cost: u32,
    pub deck_ix: usize,
}

impl Clone for MarketCard {
    fn clone(&self) -> (r: Self)
        ensures
            r == *self,
    {
        *self
    }
}

impl View for MarketCard {
    type V = MarketCard;

    open spec fn view(&self) -> MarketCard {
        *self
    }
}

impl DeepView for MarketCard {
    type V = MarketCard;

    open spec fn deep_view(&self) -> MarketCard {
        *self
    }
}

/// The market cards the game starts with, bottom first.
pub open spec fn spec_starting_market_cards() -> Seq<MarketCard> {
    seq![
        MarketCard { card: (), cost: 6, deck_ix: 0 },
        MarketCard { card: (), cost: 1, deck_ix: 1 },
        MarketCard { card: (), cost: 11, deck_ix: 2 },
        MarketCard { card: (), cost: 1, deck_ix: 3 },
        MarketCard { card: (), cost: 5, deck_ix: 4 },
        MarketCard { card: (), cost: 3, deck_ix: 5 },
    ]
}

impl Default for Deck<MarketCard> {
    /// The market deck the game starts with.
    fn default() -> (r: Self)
        ensures
            r.spec_items() == spec_starting_market_cards(),
            r.spec_discard() == Seq::<MarketCard>::empty(),
    {
        let mut items: Vec<MarketCard> = Vec::new();
        items.push(MarketCard { card: (), cost: 6, deck_ix: 0 });
        items.push(MarketCard { card: (), cost: 1, deck_ix: 1 });
        items.push(MarketCard { card: (), cost: 11, deck_ix: 2 });
        items.push(MarketCard { card: (), cost: 1, deck_ix: 3 });
        items.push(MarketCard { card: (), cost: 5, deck_ix: 4 });
        items.push(MarketCard { card: (), cost: 3, deck_ix: 5 });
        proof {
            assert(items@ =~= spec_starting_market_cards());
        }
        Deck::new(items)
    }
}

} // verus!
