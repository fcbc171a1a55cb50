//! Time-scoped conditional side effects.
//!
//! A modifier waits for a triggering event (currently: a fate draw whose
//! value falls in an inclusive range), then queues its message and folds
//! its effect into the state before the primary event's own effect.

use vstd::prelude::*;

use crate::game_state::client_message::ClientMessage;
use crate::game_state::effect::{modifier_view, Effect, ModifierModel};

verus! {

/// When a modifier fires.
#[derive(Clone, Copy, Debug, PartialEq, Eq, Structural)]
pub enum ModifierTrigger {
    /// Fires when a fate draw produces a value in `[lo, hi]`.
    DrawFate { lo: u32, hi: u32 },
}

impl ModifierTrigger {
    /// Whether a fate draw of `value` fires this trigger.
    pub open spec fn spec_matches_fate(&self, value: u32) -> bool {
        match self {
            ModifierTrigger::DrawFate { lo, hi } => *lo <= value <= *hi,
        }
    }

    /// Whether a fate draw of `value` fires this trigger.
    #[verifier::when_used_as_spec(spec_matches_fate)]
    pub fn matches_fate(&self, value: u32) -> (r: bool)
        ensures
            r == self.spec_matches_fate(value),
    {
        match self {
            ModifierTrigger::DrawFate { lo, hi } => *lo <= value && value <= *hi,
        }
    }
}

/// How long a modifier stays registered.
#[derive(Clone, Copy, Debug, PartialEq, Eq, Structural)]
pub enum ModifierLifetime {
    /// Purged by the end-of-turn cleanup.
    ThisTurn,
}

/// A conditional, time-scoped side effect.
pub struct Modifier {
    pub lifetime: ModifierLifetime,
    pub trigger: ModifierTrigger,
    pub effect: Effect,
    /// The notification queued when the modifier fires.
    pub trigger_text: ClientMessage,
}

impl View for Modifier {
    type V = ModifierModel;

    open spec fn view(&self) -> ModifierModel {
        modifier_view(self)
    }
}

impl DeepView for Modifier {
    type V = ModifierModel;

    open spec fn deep_view(&self) -> ModifierModel {
        modifier_view(self)
    }
}

} // verus!
