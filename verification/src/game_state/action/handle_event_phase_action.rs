//! Drawing the event card that opens the event phase.

use vstd::prelude::*;

use crate::error::GameError;
use crate::game_state::action::Action;
use crate::game_state::deck::{spec_draw, DeckModel};
use crate::game_state::game_phase::{GamePhase, GamePhaseModel};
use crate::game_state::{GameState, GameStateModel};
use crate::Update;

verus! {

/// Draw an event card into the event phase.
pub struct HandleEventPhaseAction {
    pub player_ix: u32,
}

impl Action for HandleEventPhaseAction {
    /// Valid only while the event phase awaits its card; an exhausted
    /// event deck is reported.
    fn execute(&self, state: &GameState) -> (r: Update<GameState>)
        ensures
            match state@.phase_stack.last() {
                GamePhaseModel::EventPhase(None) => {
                    match spec_draw(state@.event_card_deck.items, state@.event_card_deck.discard) {
                        Some((items2, discard2, card)) => r matches Ok(g) && g@
                            == (GameStateModel {
                            event_card_deck: DeckModel { items: items2, discard: discard2 },
                            phase_stack: state@.phase_stack.drop_last().push(
                                GamePhaseModel::EventPhase(Some(card)),
                            ),
                            ..state@
                        }) && (state.wf() ==> g.wf()),
                        None => r == Update::<GameState>::Err(GameError::DeckExhausted),
                    }
                },
                _ => r == Update::<GameState>::Err(GameError::WrongPhase),
            },
    {
        match state.phase() {
            GamePhase::EventPhase(None) => {
                let mut gs = state.clone();
                proof {
                    assert(gs.event_card_deck.deep_view() =~~= state@.event_card_deck);
                }
                let card = match gs.event_card_deck.draw() {
                    Ok(card) => card,
                    Err(e) => {
                        proof {
                            assert(spec_draw(
                                state@.event_card_deck.items,
                                state@.event_card_deck.discard,
                            ) is None);
                        }
                        return Err(e);
                    },
                };
                let ghost card_view = card@;
                proof {
                    assert(spec_draw(
                        state@.event_card_deck.items,
                        state@.event_card_deck.discard,
                    ) matches Some((items2, discard2, drawn)) && items2
                        =~= gs.event_card_deck.deep_view().items && discard2
                        =~= gs.event_card_deck.deep_view().discard && drawn == card_view);
                }
                let r = gs.set_phase(GamePhase::EventPhase(Some(card)));
                proof {
                    let m = (GameStateModel {
                        event_card_deck: gs.event_card_deck.deep_view(),
                        phase_stack: state@.phase_stack.drop_last().push(
                            GamePhaseModel::EventPhase(Some(card_view)),
                        ),
                        ..state@
                    });
                    assert(r.unwrap()@ =~~= m);
                }
                r
            },
            _ => Err(GameError::WrongPhase),
        }
    }
}

} // verus!
