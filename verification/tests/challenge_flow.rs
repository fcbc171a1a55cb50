use ship_game::error::GameError;
use ship_game::game_state::action::accept_challenge_result_action::AcceptChallengeResultAction;
use ship_game::game_state::action::draw_for_deck_action::DrawForDeckAction;
use ship_game::game_state::action::resolve_challenge_action::ResolveChallengeAction;
use ship_game::game_state::action::Action;
use ship_game::game_state::challenge::Challenge;
use ship_game::game_state::effect::Effect;
use ship_game::game_state::game_phase::{GamePhase, ShipActionSubphase};
use ship_game::game_state::skill::Skill;
use ship_game::game_state::{GameState, Resource};
use ship_game::manager::GameManager;

fn craft_challenge() -> Challenge {
    Challenge {
        skill: Skill::Craft,
        amount: 8,
        label: String::new(),
        if_fail: vec![Effect::TakeHealthDamage(5)],
        if_succeed: vec![
            Effect::GainResource(Resource::Coin, 1),
            Effect::GainResource(Resource::Meat, 1),
        ],
    }
}

#[test]
fn craft_challenge_succeeds_and_tires_the_crew() {
    let mut gs = GameState::init_state();
    gs.crew[0].skills.craft = 4;
    gs.crew[1].skills.craft = 4;
    let gs = gs
        .push_phase(GamePhase::ChallengePhase { challenge: craft_challenge(), skill: None })
        .unwrap();

    let resolve = ResolveChallengeAction { selected_crew: vec![0, 1] };
    let resolved = resolve.execute(&gs).unwrap();

    // 4 + 4 skill plus the fixed bonus of 4 is recorded on the phase.
    match resolved.phase_stack.last() {
        Some(GamePhase::ChallengePhase { skill: Some(total), .. }) => assert_eq!(*total, 12),
        _ => panic!("challenge total was not recorded"),
    }
    // Both nominated crew members gained one fatigue.
    assert_eq!(resolved.crew[0].fatigue, 1);
    assert_eq!(resolved.crew[1].fatigue, 1);
    assert_eq!(resolved.crew[2].fatigue, 0);

    let accept = AcceptChallengeResultAction { player_ix: 0 };
    let done = accept.execute(&resolved).unwrap();
    // 12 >= 8: the success branch fires.
    assert_eq!(done.resources.coin, 1);
    assert_eq!(done.resources.meat, 1);
    assert!(matches!(done.phase_stack.last(), Some(GamePhase::ShipActionPhase(None))));
}

#[test]
fn failed_challenge_waits_for_damage_distribution() {
    let gs = GameState::init_state()
        .push_phase(GamePhase::ChallengePhase { challenge: craft_challenge(), skill: None })
        .unwrap();

    let resolve = ResolveChallengeAction { selected_crew: vec![0] };
    let resolved = resolve.execute(&gs).unwrap();
    // Crew zero's craft of 1 plus the bonus of 4 misses the threshold.
    match resolved.phase_stack.last() {
        Some(GamePhase::ChallengePhase { skill: Some(total), .. }) => assert_eq!(*total, 5),
        _ => panic!("challenge total was not recorded"),
    }

    let accept = AcceptChallengeResultAction { player_ix: 0 };
    let done = accept.execute(&resolved).unwrap();
    // The failure branch suspends into the damage-distribution phase.
    assert!(matches!(
        done.phase_stack.last(),
        Some(GamePhase::ResolveEffectPhase(Effect::TakeHealthDamage(5)))
    ));
}

#[test]
fn resolve_challenge_rejects_unknown_crew() {
    let gs = GameState::init_state()
        .push_phase(GamePhase::ChallengePhase { challenge: craft_challenge(), skill: None })
        .unwrap();
    let resolve = ResolveChallengeAction { selected_crew: vec![99] };
    assert!(matches!(resolve.execute(&gs), Err(GameError::CrewIndex)));
}

#[test]
fn manager_keeps_state_on_error() {
    let mut manager = GameManager { state: GameState::init_state() };
    // Drawing a deck token is invalid in the root ship-action phase.
    let err = manager.execute_action(&DrawForDeckAction { player_ix: 0 });
    assert_eq!(err, Some("Wrong phase".to_string()));
    assert!(matches!(manager.state.phase_stack.last(), Some(GamePhase::ShipActionPhase(None))));
    assert_eq!(manager.state.players[0].command_tokens, 0);
    assert_eq!(manager.state.resources.coin, 0);
}

#[test]
fn manager_restart_resets_the_session() {
    let mut manager = GameManager { state: GameState::init_state() };
    let err = manager.execute_action(&DrawForDeckAction { player_ix: 0 });
    assert!(err.is_some());
    manager.restart();
    assert_eq!(manager.state.crew.len(), 8);
    assert_eq!(manager.state.crew[0].name, "Rafael Vieira");
}

#[test]
fn deck_tokens_are_drawn_into_the_buffer() {
    let gs = GameState::init_state()
        .set_phase(GamePhase::ShipActionPhase(Some(ShipActionSubphase::DeckAction {
            search_tokens_drawn: Vec::new(),
        })))
        .unwrap();
    let draw = DrawForDeckAction { player_ix: 0 };
    let once = draw.execute(&gs).unwrap();
    match once.phase_stack.last() {
        Some(GamePhase::ShipActionPhase(Some(ShipActionSubphase::DeckAction {
            search_tokens_drawn,
        }))) => {
            // The token deck holds ids one to seven, drawn from the top.
            assert_eq!(search_tokens_drawn.len(), 1);
            assert_eq!(search_tokens_drawn[0].0, 7);
        },
        _ => panic!("deck action did not record the drawn token"),
    }
}
