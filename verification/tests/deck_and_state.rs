use ship_game::error::GameError;
use ship_game::game_state::action::choose_token_for_deck_action::ChooseTokenForDeckAction;
use ship_game::game_state::action::Action;
use ship_game::game_state::deck::Deck;
use ship_game::game_state::game_phase::{GamePhase, ShipActionSubphase};
use ship_game::game_state::map::SerialMap;
use ship_game::game_state::ability_card_deck::AbilityCard;
use ship_game::game_state::crew::{Crew, Status};
use ship_game::game_state::quest::get_quest;
use ship_game::game_state::{GameState, Resource, SearchToken, ShipRoom};
use ship_game::utils::change_and_clamp;

#[test]
fn deck_draws_until_both_piles_are_empty() {
    let mut deck: Deck<u32> = Deck::new(vec![10, 20]);
    deck.add_to_discard(30);

    // Three items across the piles: three draws succeed.
    assert_eq!(deck.draw().unwrap(), 20);
    assert_eq!(deck.draw().unwrap(), 10);
    // The draw pile is empty: the discard pile shuffles back in.
    assert_eq!(deck.draw().unwrap(), 30);
    // Both piles are empty: the fourth draw fails.
    let err = deck.draw().unwrap_err();
    assert!(matches!(err, GameError::DeckExhausted));
    assert_eq!(err.message(), "No items left in the deck");
}

#[test]
fn deck_draw_then_discard_restores_the_contents() {
    let mut deck: Deck<u32> = Deck::new(vec![1, 2, 3]);
    deck.add_to_discard(4);

    let drawn = deck.draw().unwrap();
    deck.add_to_discard(drawn);

    // The same four values are still held across the two piles.
    let mut seen = Vec::new();
    for _ in 0..4 {
        seen.push(deck.draw().unwrap());
    }
    seen.sort();
    assert_eq!(seen, vec![1, 2, 3, 4]);
    assert!(deck.draw().is_err());
}

#[test]
fn fresh_state_upholds_the_invariants() {
    let gs = GameState::init_state();
    assert!(!gs.phase_stack.is_empty());
    assert_eq!(gs.crew.len(), 8);
    for member in &gs.crew {
        assert!(member.fatigue <= 2);
        assert!(member.damage <= 8);
        assert!(member.equipped_ability_cards.len() <= 2);
    }
    assert_eq!(gs.resources.coin, 0);
    assert_eq!(gs.resources.meat, 0);
    assert!(matches!(gs.room, ShipRoom::NoRoom));
}

#[test]
fn losing_more_than_held_clamps_at_zero() {
    let gs = GameState::init_state().gain_resource(Resource::Coin, 2).unwrap();
    assert_eq!(gs.resources.coin, 2);
    let gs = gs.gain_resource(Resource::Coin, -5).unwrap();
    assert_eq!(gs.resources.coin, 0);
}

#[test]
fn change_and_clamp_respects_the_band() {
    assert_eq!(change_and_clamp(1, 1, (0, 2)), 2);
    assert_eq!(change_and_clamp(2, 1, (0, 2)), 2);
    assert_eq!(change_and_clamp(0, -1, (0, 2)), 0);
    assert_eq!(change_and_clamp(5, -2, (0, 8)), 3);
}

#[test]
fn statuses_are_unique_per_crew_member() {
    let crew = Crew::new("Test Sailor", 1, 1, 1, 1, 1);
    let crew = crew.add_status(Status::Venom).unwrap();
    let err = match crew.add_status(Status::Venom) {
        Err(e) => e,
        Ok(_) => panic!("a duplicate status must be refused"),
    };
    assert_eq!(err.message(), "You can't have more than one of that status");
}

#[test]
fn a_third_equipped_card_is_refused() {
    let crew = Crew::new("Test Sailor", 1, 1, 1, 1, 1);
    let crew = crew.equip_ability_card(AbilityCard::new("First", 1)).unwrap();
    let crew = crew.equip_ability_card(AbilityCard::new("Second", 2)).unwrap();
    let err = match crew.equip_ability_card(AbilityCard::new("Third", 3)) {
        Err(e) => e,
        Ok(_) => panic!("a third card must be refused"),
    };
    assert!(matches!(err, GameError::AbilityCardLimit));
}

#[test]
fn unknown_quests_are_reported() {
    assert_eq!(get_quest(155).unwrap(), "PINK");
    assert!(matches!(get_quest(7), Err(GameError::QuestNotFound)));
}

#[test]
fn unknown_stories_are_reported() {
    let gs = GameState::init_state();
    assert!(gs.map.storybook.story(2).is_ok());
    assert!(gs.map.storybook.story(133).is_ok());
    let err = match gs.map.storybook.story(999) {
        Err(e) => e,
        Ok(_) => panic!("an unwritten story must be reported"),
    };
    assert_eq!(err.message(), "Story not implemented yet.");
}

#[test]
fn the_visible_areas_are_listed_once_each() {
    let gs = GameState::init_state();
    let serial = SerialMap::from_map(&gs.map).unwrap();
    assert_eq!(serial.ship_area, 1);
    assert_eq!(serial.current_region, 1);
    assert_eq!(serial.adjacent_areas, vec![2, 4, 6]);
    // The region holds areas 1 to 4 and their routes also touch 6; each
    // is visible once, in first-seen order.
    assert_eq!(serial.visible_areas, vec![1, 2, 3, 4, 6]);
    assert_eq!(serial.adjacent_ports, vec![2, 174]);
    assert_eq!(serial.visible_ports, vec![2, 174, 18, 34, 186, 7, 30, 216, 130]);
}

#[test]
fn chosen_token_feeds_the_crew() {
    let gs = GameState::init_state()
        .set_phase(GamePhase::ShipActionPhase(Some(ShipActionSubphase::DeckAction {
            search_tokens_drawn: vec![SearchToken(7), SearchToken(6)],
        })))
        .unwrap();
    let action = ChooseTokenForDeckAction { token_id: 6, player_ix: 0 };
    let next = action.execute(&gs).unwrap();
    assert_eq!(next.resources.meat, 1);
    assert!(matches!(next.phase_stack.last(), Some(GamePhase::EventPhase(None))));

    let missing = ChooseTokenForDeckAction { token_id: 42, player_ix: 0 };
    let err = match missing.execute(&gs) {
        Err(e) => e,
        Ok(_) => panic!("an unknown token id must be reported"),
    };
    assert_eq!(err.message(), "Couldn't find token id");
}
