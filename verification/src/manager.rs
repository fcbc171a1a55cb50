//! The single-writer owner of the session's state.

use vstd::prelude::*;

use crate::error::GameError;
use crate::game_state::action::Action;
use crate::game_state::{spec_init_state, GameState};
use crate::Update;

verus! {

/// Owns one state snapshot and processes commands against it, one at a
/// time.
pub struct GameManager {
    pub state: GameState,
}

impl GameManager {
    /// Runs one command against the held snapshot. When the command
    /// succeeds, the snapshot is replaced by the command's result and
    /// nothing is reported; when it fails, the held state is observably
    /// unchanged and the failing error's message is handed back for the
    /// client.
    pub fn execute_action<A: Action>(&mut self, action: &A) -> (r: Option<String>)
        requires
            old(self).state@.phase_stack.len() >= 1,
        ensures
            r is None ==> call_ensures(
                A::execute,
                (action, &old(self).state),
                Update::<GameState>::Ok(final(self).state),
            ),
            r matches Some(msg) ==> *final(self) == *old(self) && (exists|e: GameError|
                call_ensures(A::execute, (action, &old(self).state), Update::<GameState>::Err(e))
                    && msg@ == e.spec_message()),
    {
        match action.execute(&self.state) {
            Ok(gs) => {
                self.state = gs;
                None
            },
            Err(err) => Some(err.message()),
        }
    }

    /// Replaces the state wholesale with a freshly initialized one.
    pub fn restart(&mut self)
        ensures
            final(self).state@ == spec_init_state(),
            final(self).state.wf(),
    {
        self.state = GameState::init_state();
    }
}

} // verus!
