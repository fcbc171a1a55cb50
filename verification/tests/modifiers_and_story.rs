use ship_game::game_state::action::end_turn::EndTurnAction;
use ship_game::game_state::action::explore_action::ExploreAction;
use ship_game::game_state::action::select_story_option_action::SelectStoryOptionAction;
use ship_game::game_state::action::travel_action::TravelAction;
use ship_game::game_state::action::Action;
use ship_game::game_state::client_message::{ClientMessage, SerialCard};
use ship_game::game_state::effect::Effect;
use ship_game::game_state::game_phase::{GamePhase, MainActionSubphase};
use ship_game::game_state::modifier::{Modifier, ModifierLifetime, ModifierTrigger};
use ship_game::game_state::{GameState, Resource};

fn coin_modifier() -> Modifier {
    Modifier {
        lifetime: ModifierLifetime::ThisTurn,
        trigger: ModifierTrigger::DrawFate { lo: 1, hi: 3 },
        effect: Effect::GainResource(Resource::Coin, 2),
        trigger_text: ClientMessage::ModifierTriggered {
            text: "A lucky draw pays out due to: ".to_owned(),
            card: SerialCard {
                label: "Test Card".to_owned(),
                deck: "event_deck".to_owned(),
                index: 0,
            },
        },
    }
}

#[test]
fn travel_triggers_matching_modifiers() {
    let gs = GameState::init_state()
        .set_phase(GamePhase::MainActionPhase(Some(MainActionSubphase::Travel), 1))
        .unwrap()
        .add_modifier(&coin_modifier())
        .unwrap();

    let action = TravelAction { to_area: 2, player_ix: 0 };
    let next = action.execute(&gs).unwrap();

    // The fate draw (a fixed 2) falls in the trigger's range: the
    // modifier's message is queued before the draw's own and its effect
    // is applied before the move completes.
    assert_eq!(next.map.ship_area, 2);
    assert_eq!(next.resources.coin, 2);
    assert_eq!(next.message_queue.len(), 2);
    assert!(matches!(next.message_queue[0], ClientMessage::ModifierTriggered { .. }));
    assert!(matches!(next.message_queue[1], ClientMessage::DrewFate { result: 2 }));
    assert!(matches!(
        next.phase_stack.last(),
        Some(GamePhase::MainActionPhase(None, 1))
    ));
}

#[test]
fn end_of_turn_purges_this_turn_modifiers() {
    let gs = GameState::init_state()
        .set_phase(GamePhase::MainActionPhase(None, 2))
        .unwrap()
        .add_modifier(&coin_modifier())
        .unwrap();
    assert_eq!(gs.modifiers.len(), 1);

    let next = EndTurnAction { player_ix: 0 }.execute(&gs).unwrap();
    assert_eq!(next.modifiers.len(), 0);
    assert!(matches!(next.phase_stack.last(), Some(GamePhase::ShipActionPhase(None))));
}

#[test]
fn ending_the_turn_early_is_rejected() {
    let gs = GameState::init_state()
        .set_phase(GamePhase::MainActionPhase(None, 1))
        .unwrap();
    let err = match (EndTurnAction { player_ix: 0 }).execute(&gs) {
        Err(e) => e,
        Ok(_) => panic!("ending the turn after one action must fail"),
    };
    assert_eq!(err.message(), "Haven't done 2 actions yet");
}

#[test]
fn leaving_a_story_returns_to_the_main_action() {
    let gs = GameState::init_state()
        .set_phase(GamePhase::MainActionPhase(Some(MainActionSubphase::Explore), 0))
        .unwrap();

    // Port 2 leads into the cave story.
    let explored = ExploreAction { port: 2, player_ix: 0 }.execute(&gs).unwrap();
    assert!(matches!(explored.phase_stack.last(), Some(GamePhase::ExplorePhase(_))));

    // Its second option leaves: the explore phase pops and the explore
    // sub-step ends.
    let back = SelectStoryOptionAction { option_ix: 1, player_ix: 0 }
        .execute(&explored)
        .unwrap();
    assert!(matches!(
        back.phase_stack.last(),
        Some(GamePhase::MainActionPhase(None, 0))
    ));
}

#[test]
fn an_unwritten_port_is_reported() {
    let gs = GameState::init_state()
        .set_phase(GamePhase::MainActionPhase(Some(MainActionSubphase::Explore), 0))
        .unwrap();
    let err = match (ExploreAction { port: 77, player_ix: 0 }).execute(&gs) {
        Err(e) => e,
        Ok(_) => panic!("an unwritten port story must be reported"),
    };
    assert_eq!(err.message(), "Story not implemented yet.");
}
