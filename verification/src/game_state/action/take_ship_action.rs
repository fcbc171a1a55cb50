//! The ship action: visiting one of the ship's rooms.

use vstd::prelude::*;

use crate::error::GameError;
use crate::game_state::action::Action;
use crate::game_state::game_phase::{
    GamePhase, GamePhaseModel, ShipActionSubphase, ShipActionSubphaseModel,
};
use crate::game_state::{
    spec_draw_cards, spec_give_command_tokens, spec_set_phase, spec_set_room, GameState,
    GameStateModel, SearchToken, ShipRoom,
};
use crate::Update;

verus! {

/// Visit a room and take its action; a room cannot be visited twice in
/// a row.
pub struct TakeShipAction {
    pub room: ShipRoom,
    pub player_ix: usize,
}

/// What the bridge grants: three command tokens, one ability card, and
/// the transition to the event phase.
pub open spec fn spec_bridge_action(s: GameStateModel, player_ix: int) -> Result<
    GameStateModel,
    GameError,
> {
    if player_ix < 0 || player_ix >= s.players.len() {
        Err(GameError::PlayerIndex)
    } else {
        let with_tokens = spec_give_command_tokens(s, player_ix, 3);
        match spec_draw_cards(with_tokens, player_ix, 1) {
            None => Err(GameError::DeckExhausted),
            Some(with_cards) => Ok(
                spec_set_phase(
                    spec_set_room(with_cards, ShipRoom::Bridge),
                    GamePhaseModel::EventPhase(None),
                ),
            ),
        }
    }
}

/// Bridge law: visiting the bridge with a player whose token counter has
/// room and an ability deck that still holds a card grants exactly three
/// command tokens, grows the hand by exactly one card, moves the players
/// to the bridge, opens the event phase, and queues the two
/// notifications.
pub proof fn lemma_bridge_action_grants(s: GameStateModel, player_ix: int)
    requires
        0 <= player_ix < s.players.len(),
        s.players[player_ix].command_tokens <= u32::MAX - 3,
        s.ability_deck.items.len() + s.ability_deck.discard.len() >= 1,
    ensures
        spec_bridge_action(s, player_ix) matches Ok(g) && {
            &&& g.players.len() == s.players.len()
            &&& g.players[player_ix].command_tokens == s.players[player_ix].command_tokens + 3
            &&& g.players[player_ix].hand.len() == s.players[player_ix].hand.len() + 1
            &&& g.room == ShipRoom::Bridge
            &&& g.phase_stack.len() >= 1 && g.phase_stack.last() == GamePhaseModel::EventPhase(
                None,
            )
            &&& g.message_queue.len() == s.message_queue.len() + 2
        },
{
    reveal_with_fuel(crate::game_state::spec_draw_cards, 3);
    let with_tokens = spec_give_command_tokens(s, player_ix, 3);
    assert(spec_draw_cards(with_tokens, player_ix, 1) is Some);
}

/// What the deck offers: the token-drawing sub-step, opened with an
/// empty buffer.
pub open spec fn spec_deck_action(s: GameStateModel) -> GameStateModel {
    spec_set_phase(
        spec_set_room(s, ShipRoom::Deck),
        GamePhaseModel::ShipActionPhase(
            Some(ShipActionSubphaseModel::DeckAction { search_tokens_drawn: Seq::empty() }),
        ),
    )
}

/// What the galley grants: three command tokens, two ability cards, and
/// the forced discard follow-up.
pub open spec fn spec_galley_action(s: GameStateModel, player_ix: int) -> Result<
    GameStateModel,
    GameError,
> {
    if player_ix < 0 || player_ix >= s.players.len() {
        Err(GameError::PlayerIndex)
    } else {
        let with_tokens = spec_give_command_tokens(s, player_ix, 3);
        match spec_draw_cards(with_tokens, player_ix, 2) {
            None => Err(GameError::DeckExhausted),
            Some(with_cards) => Ok(
                spec_set_phase(
                    spec_set_room(with_cards, ShipRoom::Galley),
                    GamePhaseModel::ShipActionPhase(Some(ShipActionSubphaseModel::GalleyAction)),
                ),
            ),
        }
    }
}

/// What a ship action does, given that the root ship-action phase is on
/// top and the room differs from the current one.
pub open spec fn spec_take_ship_action(
    s: GameStateModel,
    room: ShipRoom,
    player_ix: int,
) -> Result<GameStateModel, GameError> {
    match room {
        ShipRoom::Bridge => spec_bridge_action(s, player_ix),
        ShipRoom::Galley => spec_galley_action(s, player_ix),
        ShipRoom::Deck => Ok(spec_deck_action(s)),
        _ => Err(GameError::RoomNotSupported),
    }
}

impl TakeShipAction {
    /// The bridge: three command tokens, one ability card, then the
    /// event phase.
    pub fn bridge_action(&self, state: &GameState) -> (r: Update<GameState>)
        requires
            state@.phase_stack.len() >= 1,
        ensures
            match spec_bridge_action(state@, self.player_ix as int) {
                Ok(m) => r matches Ok(g) && g@ == m && (state.wf() ==> g.wf()),
                Err(e) => r == Update::<GameState>::Err(e),
            },
    {
        let with_tokens = match state.give_command_tokens(self.player_ix, 3) {
            Ok(g) => g,
            Err(e) => {
                return Err(e);
            },
        };
        let with_cards = match with_tokens.draw_cards(self.player_ix, 1) {
            Ok(g) => g,
            Err(e) => {
                return Err(e);
            },
        };
        let in_room = match with_cards.set_room(&ShipRoom::Bridge) {
            Ok(g) => g,
            Err(e) => {
                return Err(e);
            },
        };
        in_room.set_phase(GamePhase::EventPhase(None))
    }

    /// The deck: open the token-drawing sub-step with an empty buffer.
    pub fn deck_action(&self, state: &GameState) -> (r: Update<GameState>)
        requires
            state@.phase_stack.len() >= 1,
        ensures
            r matches Ok(g) && g@ == spec_deck_action(state@),
            r matches Ok(g) && (state.wf() ==> g.wf()),
    {
        let in_room = match state.set_room(&ShipRoom::Deck) {
            Ok(g) => g,
            Err(e) => {
                return Err(e);
            },
        };
        let search_tokens_drawn: Vec<SearchToken> = Vec::new();
        proof {
            assert(search_tokens_drawn@ =~= Seq::<SearchToken>::empty());
        }
        let r = in_room.set_phase(
            GamePhase::ShipActionPhase(Some(ShipActionSubphase::DeckAction { search_tokens_drawn })),
        );
        proof {
            assert(r.unwrap()@ =~~= spec_deck_action(state@));
        }
        r
    }

    /// The galley: three command tokens, two ability cards, then the
    /// forced discard follow-up.
    pub fn galley_action(&self, state: &GameState) -> (r: Update<GameState>)
        requires
            state@.phase_stack.len() >= 1,
        ensures
            match spec_galley_action(state@, self.player_ix as int) {
                Ok(m) => r matches Ok(g) && g@ == m && (state.wf() ==> g.wf()),
                Err(e) => r == Update::<GameState>::Err(e),
            },
    {
        let with_tokens = match state.give_command_tokens(self.player_ix, 3) {
            Ok(g) => g,
            Err(e) => {
                return Err(e);
            },
        };
        let with_cards = match with_tokens.draw_cards(self.player_ix, 2) {
            Ok(g) => g,
            Err(e) => {
                return Err(e);
            },
        };
        let in_room = match with_cards.set_room(&ShipRoom::Galley) {
            Ok(g) => g,
            Err(e) => {
                return Err(e);
            },
        };
        in_room.set_phase(GamePhase::ShipActionPhase(Some(ShipActionSubphase::GalleyAction)))
    }
}

impl Action for TakeShipAction {
    /// Valid only while the root ship-action phase is on top and the
    /// room differs from the one just visited.
    fn execute(&self, state: &GameState) -> (r: Update<GameState>)
        ensures
            match state@.phase_stack.last() {
                GamePhaseModel::ShipActionPhase(None) => {
                    if state@.room == self.room {
                        r == Update::<GameState>::Err(GameError::SameRoom)
                    } else {
                        match spec_take_ship_action(state@, self.room, self.player_ix as int) {
                            Ok(m) => r matches Ok(g) && g@ == m && (state.wf() ==> g.wf()),
                            Err(e) => r == Update::<GameState>::Err(e),
                        }
                    }
                },
                _ => r == Update::<GameState>::Err(GameError::WrongPhase),
            },
    {
        let phase = state.phase();
        if let GamePhase::ShipActionPhase(None) = phase {
            if state.room == self.room {
                Err(GameError::SameRoom)
            } else {
                match self.room {
                    ShipRoom::Bridge => self.bridge_action(state),
                    ShipRoom::Galley => self.galley_action(state),
                    ShipRoom::Deck => self.deck_action(state),
                    _ => Err(GameError::RoomNotSupported),
                }
            }
        } else {
            Err(GameError::WrongPhase)
        }
    }
}

} // verus!
