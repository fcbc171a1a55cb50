//! Committing to take one of the turn's main actions.

use vstd::prelude::*;

use crate::error::GameError;
use crate::game_state::action::Action;
use crate::game_state::game_phase::{GamePhase, GamePhaseModel, MainActionSubphase};
use crate::game_state::{spec_set_phase, GameState, GameStateModel};
use crate::Update;

verus! {

/// Start a main action; two are allowed per turn.
pub struct SelectMainAction {
    pub player_ix: u32,
}

/// The phase a main-action selection moves to: the travel sub-step with
/// the action counted, or back to the ship once both actions are spent.
pub open spec fn spec_next_main_phase(action_ct: u32) -> GamePhaseModel {
    if action_ct < 2 {
        GamePhaseModel::MainActionPhase(Some(MainActionSubphase::Travel), (action_ct + 1) as u32)
    } else {
        GamePhaseModel::ShipActionPhase(None)
    }
}

impl Action for SelectMainAction {
    /// Valid only while the main-action phase with no sub-step on top.
    fn execute(&self, state: &GameState) -> (r: Update<GameState>)
        ensures
            match state@.phase_stack.last() {
                GamePhaseModel::MainActionPhase(None, action_ct) => r matches Ok(g) && g@
                    == spec_set_phase(state@, spec_next_main_phase(action_ct)) && (state.wf()
                    ==> g.wf()),
                _ => r == Update::<GameState>::Err(GameError::WrongPhase),
            },
    {
        match state.phase() {
            GamePhase::MainActionPhase(None, action_ct) => {
                let phase = if action_ct < 2 {
                    GamePhase::MainActionPhase(Some(MainActionSubphase::Travel), action_ct + 1)
                } else {
                    GamePhase::ShipActionPhase(None)
                };
                state.set_phase(phase)
            },
            _ => Err(GameError::WrongPhase),
        }
    }
}

} // verus!
