//! Commands: externally issued, named intents to change the state.
//!
//! Each command validates the current phase and its own input, then
//! produces a brand-new state; it never partially mutates one. The
//! decoding of wire messages into these typed values is the transport
//! layer's job, not the engine's.

use vstd::prelude::*;

pub mod accept_challenge_result_action;
pub mod accept_message_action;
pub mod choose_token_for_deck_action;
pub mod confirm_actions;
pub mod draw_for_deck_action;
pub mod end_turn;
pub mod equip_ability_card_action;
pub mod explore_action;
pub mod handle_event_phase_action;
pub mod resolve_challenge_action;
pub mod select_crew_member_action;
pub mod select_discard_for_galley_action;
pub mod select_event_option_action;
pub mod select_main_action;
pub mod select_story_option_action;
pub mod take_ship_action;
pub mod travel_action;


use crate::game_state::GameState;
use crate::Update;

verus! {

/// The capability every command offers: validate against the given
/// state and hand back either the next state or a descriptive error.
/// A failing command leaves the state it was given untouched — it only
/// ever holds a shared reference to it.
///
/// Whatever the command, a well-formed state can only turn into another
/// well-formed state: the stack stays non-empty, the crew counters stay
/// clamped, statuses stay unique, and at most two cards stay equipped.
pub trait Action {
    /// Validates the command against `state` and produces the next
    /// state snapshot, or the error that rejected it.
    fn execute(&self, state: &GameState) -> (r: Update<GameState>)
        requires
            state@.phase_stack.len() >= 1,
        ensures
            state.wf() ==> match r {
                Ok(g) => g.wf(),
                Err(_) => true,
            },
    ;
}

} // verus!
