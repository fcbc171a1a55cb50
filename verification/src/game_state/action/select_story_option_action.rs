//! Choosing how to answer the open narrative node.

use vstd::prelude::*;

use crate::error::GameError;
use crate::game_state::action::Action;
use crate::game_state::effect::{clone_effects, spec_resolve_effects, Effect};
use crate::game_state::game_phase::{GamePhase, GamePhaseModel};
use crate::game_state::{GameState, GameStateModel};
use crate::Update;

verus! {

/// Answer the open story with one of its options.
pub struct SelectStoryOptionAction {
    pub option_ix: usize,
    pub player_ix: usize,
}

/// What answering the story does: the story's own effects, followed by
/// the chosen option's (when the story has such an option), are folded
/// into the state.
pub open spec fn spec_select_story_option(s: GameStateModel, option_ix: int) -> Result<
    GameStateModel,
    GameError,
> {
    match s.phase_stack.last() {
        GamePhaseModel::ExplorePhase(story) => {
            let effects = if 0 <= option_ix < story.options.len() {
                story.effects + story.options[option_ix].effects
            } else {
                story.effects
            };
            spec_resolve_effects(s, effects)
        },
        _ => Err(GameError::WrongPhase),
    }
}

impl Action for SelectStoryOptionAction {
    /// Valid only inside a narrative node; a disabled option is
    /// reported.
    fn execute(&self, state: &GameState) -> (r: Update<GameState>)
        ensures
            match spec_select_story_option(state@, self.option_ix as int) {
                Ok(m) => r matches Ok(g) && g@ == m && (state.wf() ==> g.wf()),
                Err(e) => r == Update::<GameState>::Err(e),
            },
    {
        match state.phase() {
            GamePhase::ExplorePhase(story) => {
                let mut effects: Vec<Effect> = clone_effects(&story.effects);
                let ghost story_view = (state@.phase_stack.last()->ExplorePhase_0);
                proof {
                    assert(story@.options.len() == story.options@.len());
                }
                match story.get_option(self.option_ix) {
                    Some(option) => {
                        if option.disabled() {
                            return Err(GameError::OptionDisabled);
                        }
                        let mut option_effects = clone_effects(&option.effects);
                        let ghost front = effects@;
                        let ghost opt_seq = option_effects@;
                        effects.append(&mut option_effects);
                        proof {
                            crate::game_state::effect::lemma_effects_seq_view_concat(
                                front,
                                opt_seq,
                            );
                            assert(crate::game_state::effect::effects_seq_view(effects@)
                                =~= story_view.effects + story_view.options[
                                self.option_ix as int
                            ].effects);
                        }
                    },
                    None => {
                        proof {
                            assert(crate::game_state::effect::effects_seq_view(effects@)
                                =~= story_view.effects);
                        }
                    },
                }
                crate::game_state::effect::resolve_effects(state, effects)
            },
            _ => Err(GameError::WrongPhase),
        }
    }
}

} // verus!
