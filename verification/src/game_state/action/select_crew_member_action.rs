//! Choosing the crew member an interactive phase is waiting for.

use vstd::prelude::*;

use crate::error::GameError;
use crate::game_state::action::Action;
use crate::game_state::action::equip_ability_card_action::{
    spec_equip_action, EquipAbilityCardAction,
};
use crate::game_state::effect::{spec_take_status_action, TakeStatusAction};
use crate::game_state::game_phase::{CallbackCommand, GamePhase, GamePhaseModel};
use crate::game_state::{spec_pop_phase, spec_set_phase, GameState, GameStateModel};
use crate::Update;

verus! {

/// Choose a crew member (or cancel) for the pending crew-selection
/// phase; the stored callback runs against the choice, then the phase
/// pops.
pub struct SelectCrewMemberAction {
    pub crew_ix: Option<usize>,
    pub player_ix: usize,
}

/// What the stored callback does to the state once the choice is
/// recorded on the phase.
pub open spec fn spec_run_callback(s: GameStateModel, callback: CallbackCommand) -> Result<
    GameStateModel,
    GameError,
> {
    match callback {
        CallbackCommand::TakeStatus(status) => spec_take_status_action(s, status),
        CallbackCommand::EquipAbilityCard { hand_ix, .. } => spec_equip_action(s, hand_ix as int),
    }
}

/// What selecting a crew member does: the choice is recorded on the
/// phase, the stored callback runs, and the phase pops; cancelling just
/// pops.
pub open spec fn spec_select_crew_member(s: GameStateModel, choice: Option<usize>) -> Result<
    GameStateModel,
    GameError,
> {
    match s.phase_stack.last() {
        GamePhaseModel::SelectCrewMemberPhase { crew_ix: None, title, callback } => {
            match choice {
                Some(crew_ix) => {
                    let recorded = spec_set_phase(
                        s,
                        GamePhaseModel::SelectCrewMemberPhase {
                            crew_ix: Some(crew_ix),
                            title,
                            callback,
                        },
                    );
                    match spec_run_callback(recorded, callback) {
                        Ok(applied) => {
                            if applied.phase_stack.len() < 2 {
                                Err(GameError::NoPhaseToPop)
                            } else {
                                Ok(spec_pop_phase(applied))
                            }
                        },
                        Err(e) => Err(e),
                    }
                },
                None => {
                    if s.phase_stack.len() < 2 {
                        Err(GameError::NoPhaseToPop)
                    } else {
                        Ok(spec_pop_phase(s))
                    }
                },
            }
        },
        _ => Err(GameError::WrongPhase),
    }
}

impl Action for SelectCrewMemberAction {
    /// Valid only while the crew-selection phase awaits a choice.
    fn execute(&self, state: &GameState) -> (r: Update<GameState>)
        ensures
            match spec_select_crew_member(state@, self.crew_ix) {
                Ok(m) => r matches Ok(g) && g@ == m && (state.wf() ==> g.wf()),
                Err(e) => r == Update::<GameState>::Err(e),
            },
    {
        match state.phase() {
            GamePhase::SelectCrewMemberPhase { crew_ix: None, title, callback } => {
                match self.crew_ix {
                    Some(crew_ix) => {
                        let recorded = match state.set_phase(
                            GamePhase::SelectCrewMemberPhase {
                                crew_ix: Some(crew_ix),
                                title,
                                callback,
                            },
                        ) {
                            Ok(g) => g,
                            Err(e) => {
                                return Err(e);
                            },
                        };
                        let applied = match callback {
                            CallbackCommand::TakeStatus(status) => {
                                let action = TakeStatusAction { status };
                                match action.execute(&recorded) {
                                    Ok(g) => g,
                                    Err(e) => {
                                        return Err(e);
                                    },
                                }
                            },
                            CallbackCommand::EquipAbilityCard { hand_ix, player_ix } => {
                                let action = EquipAbilityCardAction { hand_ix, player_ix };
                                match action.execute(&recorded) {
                                    Ok(g) => g,
                                    Err(e) => {
                                        return Err(e);
                                    },
                                }
                            },
                        };
                        applied.pop_phase()
                    },
                    None => state.pop_phase(),
                }
            },
            _ => Err(GameError::WrongPhase),
        }
    }
}

} // verus!
