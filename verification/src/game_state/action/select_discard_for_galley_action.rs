//! The galley follow-up: discarding a hand card to rest a crew member.

use vstd::prelude::*;

use crate::error::GameError;
use crate::game_state::action::Action;
use crate::game_state::crew::{CrewModel, MAX_FATIGUE};
use crate::game_state::deck::DeckModel;
use crate::game_state::game_phase::{GamePhase, GamePhaseModel, ShipActionSubphase, ShipActionSubphaseModel};
use crate::game_state::player::PlayerModel;
use crate::game_state::{spec_set_phase, GameState, GameStateModel};
use crate::utils::spec_change_and_clamp;
use crate::Update;

verus! {

/// Discard a hand card to reduce a crew member's fatigue, or decline;
/// either way the galley follow-up ends.
pub struct SelectDiscardForGalleyAction {
    pub decline: bool,
    pub discard_ix: usize,
    pub crew_ix: usize,
    pub player_ix: usize,
}

/// Whether the galley follow-up is on top of the stack.
pub fn validate(state: &GameState) -> (r: Update<GameState>)
    requires
        state@.phase_stack.len() >= 1,
    ensures
        match state@.phase_stack.last() {
            GamePhaseModel::ShipActionPhase(Some(ShipActionSubphaseModel::GalleyAction)) => r
                matches Ok(g) && g@ == state@,
            _ => r == Update::<GameState>::Err(GameError::WrongPhase),
        },
{
    match state.phase() {
        GamePhase::ShipActionPhase(Some(ShipActionSubphase::GalleyAction)) => {
            let g = state.clone();
            proof {
                assert(g@ =~= state@);
            }
            Ok(g)
        },
        _ => Err(GameError::WrongPhase),
    }
}

/// What accepting the galley discard does: the named hand card moves to
/// the ability discard pile and the named crew member rests one fatigue.
pub open spec fn spec_galley_discard(
    s: GameStateModel,
    player_ix: int,
    discard_ix: int,
    crew_ix: int,
) -> Result<GameStateModel, GameError> {
    if player_ix < 0 || player_ix >= s.players.len() {
        Err(GameError::PlayerIndex)
    } else if discard_ix < 0 || discard_ix >= s.players[player_ix].hand.len() {
        Err(GameError::CardIndex)
    } else {
        let discarded = GameStateModel {
            players: s.players.update(
                player_ix,
                PlayerModel { hand: s.players[player_ix].hand.remove(discard_ix), ..s.players[player_ix] },
            ),
            ability_deck: DeckModel {
                discard: s.ability_deck.discard.push(s.players[player_ix].hand[discard_ix]),
                ..s.ability_deck
            },
            ..s
        };
        if crew_ix < 0 || crew_ix >= discarded.crew.len() {
            Err(GameError::CrewIndex)
        } else {
            Ok(
                GameStateModel {
                    crew: discarded.crew.update(
                        crew_ix,
                        CrewModel {
                            fatigue: spec_change_and_clamp(
                                discarded.crew[crew_ix].fatigue,
                                (-1) as i32,
                                0,
                                MAX_FATIGUE,
                            ) as u32,
                            ..discarded.crew[crew_ix]
                        },
                    ),
                    ..discarded
                },
            )
        }
    }
}

impl Action for SelectDiscardForGalleyAction {
    /// Valid only in the galley follow-up; declining skips the discard,
    /// either way the event phase comes next.
    fn execute(&self, state: &GameState) -> (r: Update<GameState>)
        ensures
            match state@.phase_stack.last() {
                GamePhaseModel::ShipActionPhase(Some(ShipActionSubphaseModel::GalleyAction)) => {
                    let advanced = spec_set_phase(state@, GamePhaseModel::EventPhase(None));
                    if self.decline {
                        r matches Ok(g) && g@ == advanced && (state.wf() ==> g.wf())
                    } else {
                        match spec_galley_discard(
                            advanced,
                            self.player_ix as int,
                            self.discard_ix as int,
                            self.crew_ix as int,
                        ) {
                            Ok(m) => r matches Ok(g) && g@ == m && (state.wf() ==> g.wf()),
                            Err(e) => r == Update::<GameState>::Err(e),
                        }
                    }
                },
                _ => r == Update::<GameState>::Err(GameError::WrongPhase),
            },
    {
        let validated = match validate(state) {
            Ok(g) => g,
            Err(e) => {
                return Err(e);
            },
        };
        let advanced = match validated.set_phase(GamePhase::EventPhase(None)) {
            Ok(g) => g,
            Err(e) => {
                return Err(e);
            },
        };
        if self.decline {
            return Ok(advanced);
        }
        let discarded = match advanced.discard_card(self.player_ix, self.discard_ix) {
            Ok(g) => g,
            Err(e) => {
                return Err(e);
            },
        };
        if self.crew_ix >= discarded.crew.len() {
            proof {
                assert(discarded.crew@.len() == discarded@.crew.len());
            }
            return Err(GameError::CrewIndex);
        }
        proof {
            assert(discarded.crew@.len() == discarded@.crew.len());
            assert(discarded.crew@[self.crew_ix as int]@ == discarded@.crew[self.crew_ix as int]);
        }
        let rested = match discarded.crew[self.crew_ix].clone().change_fatigue(-1) {
            Ok(c) => c,
            Err(e) => {
                return Err(e);
            },
        };
        discarded.update_crew(self.crew_ix, rested)
    }
}

} // verus!
