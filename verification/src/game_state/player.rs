//! Per-player records: command tokens and the hand of ability cards.

use vstd::prelude::*;

use crate::error::GameError;
use crate::game_state::ability_card_deck::{AbilityCard, AbilityCardModel};

verus! {

/// The mathematical content of a player.
#[verifier::ext_equal]
pub ghost struct PlayerModel {
    pub command_tokens: u32,
    pub hand: Seq<AbilityCardModel>,
}

/// One player.
#[verifier::ext_equal]
pub struct Player {
    pub command_tokens: u32,
    pub hand: Vec<AbilityCard>,
}

impl View for Player {
    type V = PlayerModel;

    open spec fn view(&self) -> PlayerModel {
        PlayerModel { command_tokens: self.command_tokens, hand: self.hand.deep_view() }
    }
}

impl DeepView for Player {
    type V = PlayerModel;

    open spec fn deep_view(&self) -> PlayerModel {
        self.view()
    }
}

impl Clone for Player {
    fn clone(&self) -> (r: Self)
        ensures
            r@ == self@,
    {
        let r = Player { command_tokens: self.command_tokens, hand: self.hand.clone() };
        proof {
            assert(r.hand.deep_view() =~= self.hand.deep_view());
            assert(r@ =~= self@);
        }
        r
    }
}

impl Default for Player {
    /// A player with no tokens and an empty hand.
    fn default() -> (r: Self)
        ensures
            r@ == (PlayerModel { command_tokens: 0, hand: Seq::<AbilityCardModel>::empty() }),
    {
        let r = Player { command_tokens: 0, hand: Vec::new() };
        proof {
            assert(r@ =~~= (PlayerModel {
                command_tokens: 0,
                hand: Seq::<AbilityCardModel>::empty(),
            }));
        }
        r
    }
}

impl Player {
    /// The player with `card` appended to the hand.
    pub fn add_card(&self, card: AbilityCard) -> (r: Result<Player, GameError>)
        ensures
            r matches Ok(p) && p@ == (PlayerModel { hand: self@.hand.push(card@), ..self@ }),
    {
        let mut player = self.clone();
        player.hand.push(card);
        proof {
            assert(player.hand.deep_view() =~= self@.hand.push(card@));
        }
        Ok(player)
    }

    /// Removes the card at `card_ix` from the hand and hands it back;
    /// fails when the index is out of range.
    pub fn discard_card(&self, card_ix: usize) -> (r: Result<(Player, AbilityCard), GameError>)
        ensures
            card_ix >= self@.hand.len() ==> r == Result::<(Player, AbilityCard), GameError>::Err(
                GameError::CardIndex,
            ),
            card_ix < self@.hand.len() ==> (r matches Ok((p, card)) && p@ == (PlayerModel {
                hand: self@.hand.remove(card_ix as int),
                ..self@
            }) && card@ == self@.hand[card_ix as int]),
    {
        if self.hand.len() <= card_ix {
            Err(GameError::CardIndex)
        } else {
            let mut player = self.clone();
            proof {
                assert(player.hand@.len() == player@.hand.len());
            }
            let card = player.hand.remove(card_ix);
            proof {
                assert(player.hand.deep_view() =~= self@.hand.remove(card_ix as int));
            }
            Ok((player, card))
        }
    }
}

} // verus!
