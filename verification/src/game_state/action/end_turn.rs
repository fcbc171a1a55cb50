//! Ending the turn once both main actions are spent.

use vstd::prelude::*;

use crate::error::GameError;
use crate::game_state::action::Action;
use crate::game_state::game_phase::{GamePhase, GamePhaseModel};
use crate::game_state::modifier::ModifierLifetime;
use crate::game_state::{spec_keep_modifiers, spec_set_phase, GameState, GameStateModel};
use crate::Update;

verus! {

/// End the turn: purge the this-turn modifiers and return to the root
/// ship-action phase.
pub struct EndTurnAction {
    pub player_ix: usize,
}

impl Action for EndTurnAction {
    /// Valid only in the main-action phase once exactly two main actions
    /// were taken.
    fn execute(&self, state: &GameState) -> (r: Update<GameState>)
        ensures
            match state@.phase_stack.last() {
                GamePhaseModel::MainActionPhase(_, action_ct) => {
                    if action_ct == 2 {
                        r matches Ok(g) && g@ == (GameStateModel {
                            modifiers: spec_keep_modifiers(
                                state@.modifiers,
                                ModifierLifetime::ThisTurn,
                            ),
                            ..spec_set_phase(state@, GamePhaseModel::ShipActionPhase(None))
                        }) && (state.wf() ==> g.wf())
                    } else {
                        r == Update::<GameState>::Err(GameError::NotEnoughActions)
                    }
                },
                _ => r == Update::<GameState>::Err(GameError::CannotEndTurn),
            },
    {
        match state.phase() {
            GamePhase::MainActionPhase(_, action_ct) => {
                if action_ct == 2 {
                    let g = match state.set_phase(GamePhase::ShipActionPhase(None)) {
                        Ok(g) => g,
                        Err(e) => {
                            return Err(e);
                        },
                    };
                    g.filter_out_modifiers(ModifierLifetime::ThisTurn)
                } else {
                    Err(GameError::NotEnoughActions)
                }
            },
            _ => Err(GameError::CannotEndTurn),
        }
    }
}

} // verus!
