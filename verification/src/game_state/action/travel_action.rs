//! Travelling: sailing the ship to another area.

use vstd::prelude::*;

use crate::error::GameError;
use crate::game_state::action::Action;
use crate::game_state::game_phase::{GamePhase, GamePhaseModel, MainActionSubphase};
use crate::game_state::{
    spec_draw_fate, spec_set_phase, GameMapModel, GameState, GameStateModel,
};
use crate::Update;

verus! {

/// Sail to another area; a fate draw resolves before the move.
pub struct TravelAction {
    pub to_area: u32,
    pub player_ix: u32,
}

/// What a travel does: leave the travel sub-step, draw fate, then move
/// the ship.
pub open spec fn spec_travel(s: GameStateModel, to_area: u32, action_ct: u32) -> Result<
    GameStateModel,
    GameError,
> {
    let left = spec_set_phase(s, GamePhaseModel::MainActionPhase(None, action_ct));
    match spec_draw_fate(left) {
        Ok(after_fate) => Ok(
            GameStateModel { map: GameMapModel { ship_area: to_area, ..after_fate.map }, ..after_fate },
        ),
        Err(e) => Err(e),
    }
}

impl Action for TravelAction {
    /// Valid only in the travel sub-step, towards a different area.
    fn execute(&self, state: &GameState) -> (r: Update<GameState>)
        ensures
            match state@.phase_stack.last() {
                GamePhaseModel::MainActionPhase(Some(MainActionSubphase::Travel), action_ct) => {
                    if state@.map.ship_area == self.to_area {
                        r == Update::<GameState>::Err(GameError::SameArea)
                    } else {
                        match spec_travel(state@, self.to_area, action_ct) {
                            Ok(m) => r matches Ok(g) && g@ == m && (state.wf() ==> g.wf()),
                            Err(e) => r == Update::<GameState>::Err(e),
                        }
                    }
                },
                _ => r == Update::<GameState>::Err(GameError::WrongPhase),
            },
    {
        match state.phase() {
            GamePhase::MainActionPhase(Some(MainActionSubphase::Travel), action_ct) => {
                if state.map.ship_area == self.to_area {
                    return Err(GameError::SameArea);
                }
                let left = match state.set_phase(
                    GamePhase::MainActionPhase(None, action_ct),
                ) {
                    Ok(g) => g,
                    Err(e) => {
                        return Err(e);
                    },
                };
                let (after_fate, _result) = match left.draw_fate() {
                    Ok(pair) => pair,
                    Err(e) => {
                        return Err(e);
                    },
                };
                after_fate.move_ship(self.to_area)
            },
            _ => Err(GameError::WrongPhase),
        }
    }
}

} // verus!
