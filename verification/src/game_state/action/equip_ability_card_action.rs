//! Equipping an ability card on a crew member.

use vstd::prelude::*;

use crate::error::GameError;
use crate::game_state::action::Action;
use crate::game_state::game_phase::{CallbackCommand, GamePhase, GamePhaseModel};
use crate::game_state::{spec_equip_card, spec_push_phase, GameState, GameStateModel};
use crate::Update;

verus! {

/// The follow-up once a crew member is chosen: equip the named hand
/// card on them.
pub struct EquipAbilityCardAction {
    pub hand_ix: usize,
    pub player_ix: usize,
}

/// What equipping does once a crew member is chosen.
pub open spec fn spec_equip_action(s: GameStateModel, hand_ix: int) -> Result<
    GameStateModel,
    GameError,
> {
    match s.phase_stack.last() {
        GamePhaseModel::SelectCrewMemberPhase { crew_ix: Some(crew_ix), .. } => spec_equip_card(
            s,
            hand_ix,
            crew_ix as int,
        ),
        _ => Err(GameError::WrongPhase),
    }
}

impl Action for EquipAbilityCardAction {
    /// Valid only while a crew member has been chosen in the
    /// crew-selection phase.
    fn execute(&self, state: &GameState) -> (r: Update<GameState>)
        ensures
            match spec_equip_action(state@, self.hand_ix as int) {
                Ok(m) => r matches Ok(g) && g@ == m && (state.wf() ==> g.wf()),
                Err(e) => r == Update::<GameState>::Err(e),
            },
    {
        match state.phase() {
            GamePhase::SelectCrewMemberPhase { crew_ix: Some(crew_ix), .. } => {
                state.equip_ability_card(self.hand_ix, crew_ix)
            },
            _ => Err(GameError::WrongPhase),
        }
    }
}

/// Choose a hand card to equip: opens the crew-selection phase whose
/// callback equips it.
pub struct SelectAbilityCardToEquipAction {
    pub hand_ix: usize,
    pub player_ix: usize,
}

/// The prompt shown while choosing who equips the card.
pub open spec fn spec_equip_prompt() -> Seq<char> {
    "Equip ability card:"@
}

impl Action for SelectAbilityCardToEquipAction {
    /// Opens the crew-selection phase storing the equip follow-up.
    fn execute(&self, state: &GameState) -> (r: Update<GameState>)
        ensures
            r matches Ok(g) && g@ == spec_push_phase(
                state@,
                GamePhaseModel::SelectCrewMemberPhase {
                    crew_ix: None,
                    title: spec_equip_prompt(),
                    callback: CallbackCommand::EquipAbilityCard {
                        hand_ix: self.hand_ix,
                        player_ix: self.player_ix,
                    },
                },
            ),
            r matches Ok(g) && (state.wf() ==> g.wf()),
    {
        state.push_phase(
            GamePhase::SelectCrewMemberPhase {
                crew_ix: None,
                title: "Equip ability card:".to_owned(),
                callback: CallbackCommand::EquipAbilityCard {
                    hand_ix: self.hand_ix,
                    player_ix: self.player_ix,
                },
            },
        )
    }
}

} // verus!
