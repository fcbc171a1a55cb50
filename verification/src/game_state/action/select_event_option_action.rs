//! Choosing how to answer the drawn event card.

use vstd::prelude::*;

use crate::error::GameError;
use crate::game_state::action::Action;
use crate::game_state::deck::DeckModel;
use crate::game_state::effect::{clone_effects, spec_resolve_effects, Effect};
use crate::game_state::game_phase::{GamePhase, GamePhaseModel};
use crate::game_state::{GameState, GameStateModel};
use crate::Update;

verus! {

/// Answer the drawn event card with one of its options, or accept the
/// card's own effects.
pub struct SelectEventOptionAction {
    pub option_ix: Option<usize>,
    pub player_ix: usize,
}

/// What answering the event does: the card is discarded, the main-action
/// phase opens with no action taken, and the chosen option's effects
/// (or the card's own) are folded into the state.
pub open spec fn spec_select_event_option(s: GameStateModel, option_ix: Option<usize>) -> Result<
    GameStateModel,
    GameError,
> {
    match s.phase_stack.last() {
        GamePhaseModel::EventPhase(Some(card)) => {
            let effects = match option_ix {
                Some(ix) => {
                    if ix < card.options.len() {
                        Ok(card.options[ix as int].effects)
                    } else {
                        Err(GameError::OptionIndex)
                    }
                },
                None => Ok(card.effects),
            };
            match effects {
                Err(e) => Err(e),
                Ok(effects) => {
                    let discarded = GameStateModel {
                        event_card_deck: DeckModel {
                            discard: s.event_card_deck.discard.push(card),
                            ..s.event_card_deck
                        },
                        phase_stack: s.phase_stack.drop_last().push(
                            GamePhaseModel::MainActionPhase(None, 0),
                        ),
                        ..s
                    };
                    spec_resolve_effects(discarded, effects)
                },
            }
        },
        _ => Err(GameError::WrongPhase),
    }
}

impl Action for SelectEventOptionAction {
    /// Valid only while the event phase holds its drawn card; an option
    /// index out of range is reported.
    fn execute(&self, state: &GameState) -> (r: Update<GameState>)
        ensures
            match spec_select_event_option(state@, self.option_ix) {
                Ok(m) => r matches Ok(g) && g@ == m && (state.wf() ==> g.wf()),
                Err(e) => r == Update::<GameState>::Err(e),
            },
    {
        match state.phase() {
            GamePhase::EventPhase(Some(card)) => {
                let effects: Vec<Effect> = match self.option_ix {
                    Some(ix) => {
                        if ix < card.options.len() {
                            proof {
                                assert(card.options@[ix as int]@ == card@.options[ix as int]);
                            }
                            clone_effects(&card.options[ix].effects)
                        } else {
                            proof {
                                assert(card@.options.len() == card.options@.len());
                            }
                            return Err(GameError::OptionIndex);
                        }
                    },
                    None => clone_effects(&card.effects),
                };
                let mut gs = state.clone();
                gs.event_card_deck.add_to_discard(card);
                let advanced = match gs.set_phase(GamePhase::MainActionPhase(None, 0)) {
                    Ok(g) => g,
                    Err(e) => {
                        return Err(e);
                    },
                };
                proof {
                    let m = spec_select_event_option(state@, self.option_ix);
                    let card_view = (state@.phase_stack.last()->EventPhase_0).unwrap();
                    assert(advanced@.event_card_deck.discard =~= state@.event_card_deck.discard.push(
                        card_view,
                    ));
                    assert(advanced@ =~~= (GameStateModel {
                        event_card_deck: DeckModel {
                            discard: state@.event_card_deck.discard.push(card_view),
                            ..state@.event_card_deck
                        },
                        phase_stack: state@.phase_stack.drop_last().push(
                            GamePhaseModel::MainActionPhase(None, 0),
                        ),
                        ..state@
                    }));
                }
                crate::game_state::effect::resolve_effects(&advanced, effects)
            },
            _ => Err(GameError::WrongPhase),
        }
    }
}

} // verus!
