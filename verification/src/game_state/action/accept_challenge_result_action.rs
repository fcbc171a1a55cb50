//! Accepting a resolved challenge and firing its effect branch.

use vstd::prelude::*;

use crate::error::GameError;
use crate::game_state::action::Action;
use crate::game_state::effect::{clone_effects, spec_resolve_effects};
use crate::game_state::game_phase::{GamePhase, GamePhaseModel};
use crate::game_state::{spec_pop_phase, GameState, GameStateModel};
use crate::Update;

verus! {

/// Accept the recorded challenge outcome: pop the challenge phase and
/// fold the success or failure branch into the state.
pub struct AcceptChallengeResultAction {
    pub player_ix: usize,
}

/// What accepting does: with a total recorded, the phase pops and the
/// branch the total earns (success when it reaches the threshold) is
/// folded into the state.
pub open spec fn spec_accept_challenge(s: GameStateModel) -> Result<GameStateModel, GameError> {
    match s.phase_stack.last() {
        GamePhaseModel::ChallengePhase { challenge, skill: Some(skill) } => {
            if s.phase_stack.len() < 2 {
                Err(GameError::NoPhaseToPop)
            } else {
                let popped = spec_pop_phase(s);
                let effects = if skill >= challenge.amount {
                    challenge.if_succeed
                } else {
                    challenge.if_fail
                };
                spec_resolve_effects(popped, effects)
            }
        },
        _ => Err(GameError::WrongPhase),
    }
}

impl Action for AcceptChallengeResultAction {
    /// Valid only in a challenge phase whose skill total is recorded.
    fn execute(&self, state: &GameState) -> (r: Update<GameState>)
        ensures
            match spec_accept_challenge(state@) {
                Ok(m) => r matches Ok(g) && g@ == m && (state.wf() ==> g.wf()),
                Err(e) => r == Update::<GameState>::Err(e),
            },
    {
        match state.phase() {
            GamePhase::ChallengePhase { challenge, skill: Some(skill) } => {
                let popped = match state.pop_phase() {
                    Ok(g) => g,
                    Err(e) => {
                        return Err(e);
                    },
                };
                let effects = if skill >= challenge.amount {
                    clone_effects(&challenge.if_succeed)
                } else {
                    clone_effects(&challenge.if_fail)
                };
                crate::game_state::effect::resolve_effects(&popped, effects)
            },
            _ => Err(GameError::WrongPhase),
        }
    }
}

} // verus!
