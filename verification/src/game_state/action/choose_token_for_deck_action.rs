//! Choosing which drawn search token to keep.

use vstd::prelude::*;

use crate::error::GameError;
use crate::game_state::action::Action;
use crate::game_state::deck::DeckModel;
use crate::game_state::game_phase::{
    GamePhase, GamePhaseModel, ShipActionSubphase, ShipActionSubphaseModel,
};
use crate::game_state::{spec_gain, GameState, GameStateModel, Resource, SearchToken};
use crate::Update;

verus! {

/// Choose the drawn token with this id; the rest (and, after use, the
/// chosen one) go onto the token discard pile.
pub struct ChooseTokenForDeckAction {
    pub token_id: u32,
    pub player_ix: usize,
}

/// The position of the first drawn token carrying `id`.
pub open spec fn spec_find_token(drawn: Seq<SearchToken>, id: u32) -> Option<int>
    decreases drawn.len(),
{
    if drawn.len() == 0 {
        None
    } else if drawn.first().0 == id {
        Some(0)
    } else {
        match spec_find_token(drawn.drop_first(), id) {
            Some(ix) => Some(ix + 1),
            None => None,
        }
    }
}

/// What choosing a token does: every other drawn token is discarded in
/// draw order, the chosen one is discarded after them, the deck action
/// ends into the event phase, and the token's find (a unit of meat) is
/// granted.
pub open spec fn spec_choose_token(s: GameStateModel, token_id: u32) -> Result<
    GameStateModel,
    GameError,
> {
    match s.phase_stack.last() {
        GamePhaseModel::ShipActionPhase(
            Some(ShipActionSubphaseModel::DeckAction { search_tokens_drawn }),
        ) => {
            if search_tokens_drawn.len() == 0 {
                Err(GameError::MustDrawToken)
            } else {
                match spec_find_token(search_tokens_drawn, token_id) {
                    None => Err(GameError::TokenNotFound),
                    Some(ix) => {
                        let token = search_tokens_drawn[ix];
                        let rest = search_tokens_drawn.remove(ix);
                        Ok(
                            GameStateModel {
                                search_token_deck: DeckModel {
                                    discard: (s.search_token_deck.discard + rest).push(token),
                                    ..s.search_token_deck
                                },
                                phase_stack: s.phase_stack.drop_last().push(
                                    GamePhaseModel::EventPhase(None),
                                ),
                                resources: spec_gain(s.resources, Resource::Meat, 1),
                                ..s
                            },
                        )
                    },
                }
            }
        },
        _ => Err(GameError::WrongPhase),
    }
}

/// The position of the first token carrying `id`, if any.
fn find_token(drawn: &Vec<SearchToken>, id: u32) -> (r: Option<usize>)
    ensures
        match r {
            Some(ix) => spec_find_token(drawn@, id) == Some(ix as int) && ix < drawn@.len()
                && drawn@[ix as int].0 == id,
            None => spec_find_token(drawn@, id) is None,
        },
{
    proof {
        assert(drawn@.skip(0) =~= drawn@);
    }
    let mut i: usize = 0;
    while i < drawn.len()
        invariant
            i <= drawn@.len(),
            match spec_find_token(drawn@.skip(i as int), id) {
                Some(ix) => spec_find_token(drawn@, id) == Some(ix + i),
                None => spec_find_token(drawn@, id) is None,
            },
        decreases drawn@.len() - i,
    {
        proof {
            assert(drawn@.skip(i as int).first() == drawn@[i as int]);
            assert(drawn@.skip(i as int).drop_first() =~= drawn@.skip(i as int + 1));
        }
        if drawn[i].0 == id {
            return Some(i);
        }
        i += 1;
    }
    proof {
        assert(drawn@.skip(i as int).len() == 0);
    }
    None
}

impl Action for ChooseTokenForDeckAction {
    /// Valid only in the deck-action sub-step with at least one token
    /// drawn; an id no drawn token carries is reported.
    #[verifier::loop_isolation(false)]
    fn execute(&self, state: &GameState) -> (r: Update<GameState>)
        ensures
            match spec_choose_token(state@, self.token_id) {
                Ok(m) => r matches Ok(g) && g@ == m && (state.wf() ==> g.wf()),
                Err(e) => r == Update::<GameState>::Err(e),
            },
    {
        match state.phase() {
            GamePhase::ShipActionPhase(Some(ShipActionSubphase::DeckAction { search_tokens_drawn })) => {
                if search_tokens_drawn.len() == 0 {
                    proof {
                        assert(search_tokens_drawn@.len() == 0);
                    }
                    return Err(GameError::MustDrawToken);
                }
                let ix = match find_token(&search_tokens_drawn, self.token_id) {
                    Some(ix) => ix,
                    None => {
                        return Err(GameError::TokenNotFound);
                    },
                };
                let token = search_tokens_drawn[ix];
                let ghost drawn_view = search_tokens_drawn@;
                let ghost rest = drawn_view.remove(ix as int);

                let mut gs = state.clone();
                proof {
                    assert(gs.search_token_deck.deep_view() =~~= state@.search_token_deck);
                }
                // Discard every other drawn token, in draw order.
                let mut j: usize = 0;
                while j < search_tokens_drawn.len()
                    invariant
                        j <= drawn_view.len(),
                        gs@ == (GameStateModel {
                            search_token_deck: DeckModel {
                                items: state@.search_token_deck.items,
                                discard: state@.search_token_deck.discard + rest.take(
                                    if j <= ix {
                                        j as int
                                    } else {
                                        j - 1
                                    },
                                ),
                            },
                            ..state@
                        }),
                    decreases drawn_view.len() - j,
                {
                    if j != ix {
                        let ghost before = gs.search_token_deck.deep_view().discard;
                        gs.search_token_deck.add_to_discard(search_tokens_drawn[j]);
                        proof {
                            let k = if j < ix { j as int } else { j - 1 };
                            assert(rest[k] == drawn_view[j as int]);
                            assert(rest.take(k + 1) =~= rest.take(k).push(rest[k]));
                            assert(state@.search_token_deck.discard + rest.take(k + 1) =~= (
                            state@.search_token_deck.discard + rest.take(k)).push(
                                drawn_view[j as int],
                            ));
                            assert(gs.search_token_deck.deep_view().discard =~= before.push(
                                drawn_view[j as int],
                            ));
                            assert(gs@ =~~= (GameStateModel {
                                search_token_deck: DeckModel {
                                    items: state@.search_token_deck.items,
                                    discard: state@.search_token_deck.discard + rest.take(k + 1),
                                },
                                ..state@
                            }));
                        }
                    }
                    j += 1;
                }
                proof {
                    assert(rest.take(rest.len() as int) =~= rest);
                }
                // The chosen token is used, then discarded after the rest.
                let ghost before = gs.search_token_deck.deep_view().discard;
                gs.search_token_deck.add_to_discard(token);
                proof {
                    assert(gs.search_token_deck.deep_view().discard =~= before.push(token));
                    assert(gs@ =~~= (GameStateModel {
                        search_token_deck: DeckModel {
                            items: state@.search_token_deck.items,
                            discard: (state@.search_token_deck.discard + rest).push(token),
                        },
                        ..state@
                    }));
                }
                let advanced = match gs.set_phase(GamePhase::EventPhase(None)) {
                    Ok(g) => g,
                    Err(e) => {
                        return Err(e);
                    },
                };
                let r = advanced.apply_search_tokens(&token);
                proof {
                    assert(r.unwrap()@ =~~= spec_choose_token(state@, self.token_id).unwrap());
                }
                r
            },
            _ => Err(GameError::WrongPhase),
        }
    }
}

} // verus!
