//! Drawing a search token during the deck action.

use vstd::prelude::*;

use crate::error::GameError;
use crate::game_state::action::Action;
use crate::game_state::deck::{spec_draw, DeckModel};
use crate::game_state::game_phase::{
    GamePhase, GamePhaseModel, ShipActionSubphase, ShipActionSubphaseModel,
};
use crate::game_state::{GameState, GameStateModel, SearchToken};
use crate::Update;

verus! {

/// Draw one search token into the deck action's buffer.
pub struct DrawForDeckAction {
    pub player_ix: usize,
}

impl Action for DrawForDeckAction {
    /// Valid only in the deck-action sub-step with fewer than three
    /// tokens already drawn; an exhausted token deck is reported.
    fn execute(&self, state: &GameState) -> (r: Update<GameState>)
        ensures
            match state@.phase_stack.last() {
                GamePhaseModel::ShipActionPhase(
                    Some(ShipActionSubphaseModel::DeckAction { search_tokens_drawn }),
                ) => {
                    if search_tokens_drawn.len() >= 3 {
                        r == Update::<GameState>::Err(GameError::TokenLimit)
                    } else {
                        match spec_draw(
                            state@.search_token_deck.items,
                            state@.search_token_deck.discard,
                        ) {
                            Some((items2, discard2, token)) => r matches Ok(g) && g@
                                == (GameStateModel {
                                search_token_deck: DeckModel { items: items2, discard: discard2 },
                                phase_stack: state@.phase_stack.drop_last().push(
                                    GamePhaseModel::ShipActionPhase(
                                        Some(
                                            ShipActionSubphaseModel::DeckAction {
                                                search_tokens_drawn: search_tokens_drawn.push(
                                                    token,
                                                ),
                                            },
                                        ),
                                    ),
                                ),
                                ..state@
                            }) && (state.wf() ==> g.wf()),
                            None => r == Update::<GameState>::Err(GameError::DeckExhausted),
                        }
                    }
                },
                _ => r == Update::<GameState>::Err(GameError::WrongPhase),
            },
    {
        match state.phase() {
            GamePhase::ShipActionPhase(Some(ShipActionSubphase::DeckAction { search_tokens_drawn })) => {
                if search_tokens_drawn.len() >= 3 {
                    proof {
                        assert(search_tokens_drawn@.len() >= 3);
                    }
                    return Err(GameError::TokenLimit);
                }
                let mut gs = state.clone();
                proof {
                    assert(gs.search_token_deck.deep_view() =~~= state@.search_token_deck);
                }
                let token = match gs.search_token_deck.draw() {
                    Ok(token) => token,
                    Err(e) => {
                        proof {
                            assert(spec_draw(
                                state@.search_token_deck.items,
                                state@.search_token_deck.discard,
                            ) is None);
                        }
                        return Err(e);
                    },
                };
                proof {
                    assert(spec_draw(
                        state@.search_token_deck.items,
                        state@.search_token_deck.discard,
                    ) matches Some((items2, discard2, drawn)) && items2
                        =~= gs.search_token_deck.deep_view().items && discard2
                        =~= gs.search_token_deck.deep_view().discard && drawn == token);
                }
                let mut drawn_buffer = search_tokens_drawn;
                drawn_buffer.push(token);
                let r = gs.set_phase(
                    GamePhase::ShipActionPhase(
                        Some(ShipActionSubphase::DeckAction { search_tokens_drawn: drawn_buffer }),
                    ),
                );
                proof {
                    assert(r.unwrap()@ =~~= (GameStateModel {
                        search_token_deck: gs.search_token_deck.deep_view(),
                        phase_stack: state@.phase_stack.drop_last().push(
                            r.unwrap()@.phase_stack.last(),
                        ),
                        ..state@
                    }));
                }
                r
            },
            _ => Err(GameError::WrongPhase),
        }
    }
}

} // verus!
