use ship_game::game_state::ability_card_deck::AbilityCard;
use ship_game::game_state::action::choose_token_for_deck_action::ChooseTokenForDeckAction;
use ship_game::game_state::action::select_discard_for_galley_action::SelectDiscardForGalleyAction;
use ship_game::game_state::action::take_ship_action::TakeShipAction;
use ship_game::game_state::action::Action;
use ship_game::game_state::game_phase::{GamePhase, ShipActionSubphase};
use ship_game::game_state::{GameState, ShipRoom};

#[test]
fn test_bridge_action() {
    let gs = GameState::init_state();
    let action = TakeShipAction { room: ShipRoom::Bridge, player_ix: 0 };

    let result = action.execute(&gs);
    assert!(result.is_ok());

    let next = result.unwrap();
    assert!(matches!(next.room, ShipRoom::Bridge));
    assert_eq!(next.players[0].command_tokens, 3);
    assert_eq!(next.players[0].hand.len(), 1);
    assert!(matches!(next.phase_stack.last(), Some(GamePhase::EventPhase(None))));
}

#[test]
fn test_deck_action() {
    let gs = GameState::init_state();
    let action = TakeShipAction { room: ShipRoom::Deck, player_ix: 0 };

    let result = action.execute(&gs);
    assert!(result.is_ok());

    let next = result.unwrap();
    assert!(matches!(next.room, ShipRoom::Deck));
    match next.phase_stack.last() {
        Some(GamePhase::ShipActionPhase(Some(ShipActionSubphase::DeckAction {
            search_tokens_drawn,
        }))) => assert!(search_tokens_drawn.is_empty()),
        other => panic!("unexpected phase: {:?}", other.is_some()),
    }
}

#[test]
fn test_galley_action() {
    let gs = GameState::init_state();
    let action = TakeShipAction { room: ShipRoom::Galley, player_ix: 0 };

    let result = action.execute(&gs);
    assert!(result.is_ok());

    let next = result.unwrap();
    assert!(matches!(next.room, ShipRoom::Galley));
    assert_eq!(next.players[0].command_tokens, 3);
    assert_eq!(next.players[0].hand.len(), 2);
    assert!(matches!(
        next.phase_stack.last(),
        Some(GamePhase::ShipActionPhase(Some(ShipActionSubphase::GalleyAction)))
    ));
}

#[test]
fn test_action() {
    let mut gs = GameState::init_state()
        .set_phase(GamePhase::ShipActionPhase(Some(ShipActionSubphase::GalleyAction)))
        .unwrap();

    gs.players[0] = gs.players[0].add_card(AbilityCard::default()).unwrap();
    gs.crew[0].fatigue = 1;
    let action =
        SelectDiscardForGalleyAction { decline: false, discard_ix: 0, crew_ix: 0, player_ix: 0 };

    let result = action.execute(&gs);
    assert!(result.is_ok());

    let next = result.unwrap();
    assert_eq!(next.players[0].hand.len(), 0);
    assert_eq!(next.crew[0].fatigue, 0);
    assert!(matches!(next.phase_stack.last(), Some(GamePhase::EventPhase(None))));
}

#[test]
fn test_err_if_index_out_of_range() {
    let gs = GameState::init_state()
        .set_phase(GamePhase::ShipActionPhase(Some(ShipActionSubphase::GalleyAction)))
        .unwrap();

    assert!(gs.players[0].hand.len() < 1000);
    let action =
        SelectDiscardForGalleyAction { decline: false, discard_ix: 1000, crew_ix: 0, player_ix: 0 };

    let result = action.execute(&gs);
    assert!(result.is_err());
}

#[test]
fn same_room_twice_is_rejected() {
    let gs = GameState::init_state().set_room(&ShipRoom::Bridge).unwrap();
    let action = TakeShipAction { room: ShipRoom::Bridge, player_ix: 0 };

    let err = match action.execute(&gs) {
        Err(e) => e,
        Ok(_) => panic!("revisiting the same room must fail"),
    };
    assert_eq!(err.message(), "You cannot visit the same room twice");

    // The state handed to the failing handler is observably unchanged.
    assert!(matches!(gs.room, ShipRoom::Bridge));
    assert_eq!(gs.players[0].command_tokens, 0);
    assert_eq!(gs.players[0].hand.len(), 0);
    assert!(matches!(gs.phase_stack.last(), Some(GamePhase::ShipActionPhase(None))));
}

#[test]
fn wrong_phase_is_rejected() {
    let gs = GameState::init_state().set_phase(GamePhase::EventPhase(None)).unwrap();
    let action = TakeShipAction { room: ShipRoom::Bridge, player_ix: 0 };

    let err = match action.execute(&gs) {
        Err(e) => e,
        Ok(_) => panic!("a ship action outside its phase must fail"),
    };
    assert_eq!(err.message(), "Wrong phase");
}

#[test]
fn choosing_token_with_none_drawn_is_rejected() {
    let gs = GameState::init_state()
        .set_phase(GamePhase::ShipActionPhase(Some(ShipActionSubphase::DeckAction {
            search_tokens_drawn: Vec::new(),
        })))
        .unwrap();
    let action = ChooseTokenForDeckAction { token_id: 1, player_ix: 0 };

    let err = match action.execute(&gs) {
        Err(e) => e,
        Ok(_) => panic!("choosing with no token drawn must fail"),
    };
    assert_eq!(err.message(), "You must draw at least 1 token");
}
