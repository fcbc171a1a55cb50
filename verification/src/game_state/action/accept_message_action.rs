//! Acknowledging a pending notification.

use vstd::prelude::*;

use crate::game_state::action::Action;
use crate::game_state::{GameState, GameStateModel};
use crate::Update;

verus! {

/// Drop the most recently queued notification; valid in every phase,
/// and a no-op on an empty queue.
pub struct AcceptMessageAction {
    pub player_ix: usize,
}

impl Action for AcceptMessageAction {
    /// Drops the most recently queued notification, if any.
    fn execute(&self, state: &GameState) -> (r: Update<GameState>)
        ensures
            r matches Ok(g) && g@ == (GameStateModel {
                message_queue: if state@.message_queue.len() > 0 {
                    state@.message_queue.drop_last()
                } else {
                    state@.message_queue
                },
                ..state@
            }),
            r matches Ok(g) && (state.wf() ==> g.wf()),
    {
        state.dequeue_message()
    }
}

} // verus!
