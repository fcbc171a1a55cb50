//! Exploring a port: entering its narrative node.

use vstd::prelude::*;

use crate::error::GameError;
use crate::game_state::action::Action;
use crate::game_state::game_phase::{GamePhase, GamePhaseModel, MainActionSubphase};
use crate::game_state::storybook::spec_lookup_story;
use crate::game_state::{spec_push_phase, GameState, GameStateModel};
use crate::Update;

verus! {

/// Enter the story a port leads to.
pub struct ExploreAction {
    pub port: u32,
    pub player_ix: usize,
}

impl Action for ExploreAction {
    /// Valid only in the explore sub-step of the main-action phase; an
    /// unwritten port story is reported.
    fn execute(&self, state: &GameState) -> (r: Update<GameState>)
        ensures
            match state@.phase_stack.last() {
                GamePhaseModel::MainActionPhase(Some(MainActionSubphase::Explore), _) => {
                    match spec_lookup_story(state@.map.storybook, self.port) {
                        Some(story) => r matches Ok(g) && g@ == spec_push_phase(
                            state@,
                            GamePhaseModel::ExplorePhase(story),
                        ) && (state.wf() ==> g.wf()),
                        None => r == Update::<GameState>::Err(GameError::StoryNotFound),
                    }
                },
                _ => r == Update::<GameState>::Err(GameError::WrongPhase),
            },
    {
        match state.phase() {
            GamePhase::MainActionPhase(Some(MainActionSubphase::Explore), _) => {
                let story = match state.map.storybook.port_story(self.port) {
                    Ok(story) => story.clone(),
                    Err(e) => {
                        return Err(e);
                    },
                };
                state.push_phase(GamePhase::ExplorePhase(story))
            },
            _ => Err(GameError::WrongPhase),
        }
    }
}

} // verus!
