//! The phase values the state machine stacks up.
//!
//! The set of legal commands at any instant is determined solely by the
//! phase on top of the stack; every handler checks the top against the
//! phase it is valid in and fails with a wrong-phase error otherwise.

use vstd::prelude::*;

use crate::game_state::challenge::Challenge;
use crate::game_state::crew::Status;
use crate::game_state::effect::{
    challenge_view, effect_view, ChallengeModel, Effect, EffectModel,
};
use crate::game_state::event_deck::{EventCard, EventCardModel};
use crate::game_state::storybook::{Story, StoryModel};
use crate::game_state::SearchToken;

verus! {

/// The command run when a crew member has been selected.
#[derive(Clone, Copy, Debug, PartialEq, Eq, Structural)]
pub enum CallbackCommand {
    /// Give the chosen crew member a status condition.
    TakeStatus(Status),
    /// Equip the hand card at `hand_ix` on the chosen crew member.
    EquipAbilityCard { hand_ix: usize, player_ix: usize },
}

/// The sub-step a ship action can be suspended in.
pub enum ShipActionSubphase {
    /// A forced discard-with-fatigue-reduction follow-up is pending.
    GalleyAction,
    /// Search tokens are being drawn on deck.
    DeckAction { search_tokens_drawn: Vec<SearchToken> },
}

/// The mathematical content of a ship-action sub-step.
#[verifier::ext_equal]
pub ghost enum ShipActionSubphaseModel {
    GalleyAction,
    DeckAction { search_tokens_drawn: Seq<SearchToken> },
}

impl View for ShipActionSubphase {
    type V = ShipActionSubphaseModel;

    open spec fn view(&self) -> ShipActionSubphaseModel {
        match self {
            ShipActionSubphase::GalleyAction => ShipActionSubphaseModel::GalleyAction,
            ShipActionSubphase::DeckAction { search_tokens_drawn } => ShipActionSubphaseModel::DeckAction {
                search_tokens_drawn: search_tokens_drawn@,
            },
        }
    }
}

impl DeepView for ShipActionSubphase {
    type V = ShipActionSubphaseModel;

    open spec fn deep_view(&self) -> ShipActionSubphaseModel {
        self.view()
    }
}

impl Clone for ShipActionSubphase {
    fn clone(&self) -> (r: Self)
        ensures
            r@ == self@,
    {
        match self {
            ShipActionSubphase::GalleyAction => ShipActionSubphase::GalleyAction,
            ShipActionSubphase::DeckAction { search_tokens_drawn } => {
                let r = ShipActionSubphase::DeckAction {
                    search_tokens_drawn: search_tokens_drawn.clone(),
                };
                proof {
                    assert(r@ =~~= self@);
                }
                r
            },
        }
    }
}

impl Default for ShipActionSubphase {
    /// The galley follow-up step.
    fn default() -> (r: Self)
        ensures
            r@ == ShipActionSubphaseModel::GalleyAction,
    {
        ShipActionSubphase::GalleyAction
    }
}

/// The sub-step a main action can be suspended in.
#[derive(Clone, Copy, Debug, PartialEq, Eq, Structural)]
pub enum MainActionSubphase {
    Travel,
    Explore,
}

impl Default for MainActionSubphase {
    /// The travel step.
    fn default() -> (r: Self)
        ensures
            r == MainActionSubphase::Travel,
    {
        MainActionSubphase::Travel
    }
}

/// One legal-interaction context; the stack's top is the current one.
pub enum GamePhase {
    /// Taking one ship action, possibly suspended in a sub-step.
    ShipActionPhase(Option<ShipActionSubphase>),
    /// Resolving an event card, once one is drawn.
    EventPhase(Option<EventCard>),
    /// Taking main actions: the sub-step and how many actions were taken.
    MainActionPhase(Option<MainActionSubphase>, u32),
    /// A skill check: the challenge and the skill total once recorded.
    ChallengePhase { challenge: Challenge, skill: Option<u32> },
    /// Waiting for a crew member to be chosen for `callback`.
    SelectCrewMemberPhase { crew_ix: Option<usize>, title: String, callback: CallbackCommand },
    /// Inside a narrative node.
    ExplorePhase(Story),
    /// Waiting for the follow-up input an effect needs.
    ResolveEffectPhase(Effect),
}

/// The mathematical content of a phase.
#[verifier::ext_equal]
pub ghost enum GamePhaseModel {
    ShipActionPhase(Option<ShipActionSubphaseModel>),
    EventPhase(Option<EventCardModel>),
    MainActionPhase(Option<MainActionSubphase>, u32),
    ChallengePhase { challenge: ChallengeModel, skill: Option<u32> },
    SelectCrewMemberPhase { crew_ix: Option<usize>, title: Seq<char>, callback: CallbackCommand },
    ExplorePhase(StoryModel),
    ResolveEffectPhase(EffectModel),
}

impl View for GamePhase {
    type V = GamePhaseModel;

    open spec fn view(&self) -> GamePhaseModel {
        match self {
            GamePhase::ShipActionPhase(sub) => GamePhaseModel::ShipActionPhase(sub.deep_view()),
            GamePhase::EventPhase(card) => GamePhaseModel::EventPhase(card.deep_view()),
            GamePhase::MainActionPhase(sub, count) => GamePhaseModel::MainActionPhase(
                *sub,
                *count,
            ),
            GamePhase::ChallengePhase { challenge, skill } => GamePhaseModel::ChallengePhase {
                challenge: challenge_view(challenge),
                skill: *skill,
            },
            GamePhase::SelectCrewMemberPhase { crew_ix, title, callback } => GamePhaseModel::SelectCrewMemberPhase {
                crew_ix: *crew_ix,
                title: title@,
                callback: *callback,
            },
            GamePhase::ExplorePhase(story) => GamePhaseModel::ExplorePhase(story@),
            GamePhase::ResolveEffectPhase(effect) => GamePhaseModel::ResolveEffectPhase(
                effect_view(*effect),
            ),
        }
    }
}

impl DeepView for GamePhase {
    type V = GamePhaseModel;

    open spec fn deep_view(&self) -> GamePhaseModel {
        self.view()
    }
}

impl Clone for GamePhase {
    fn clone(&self) -> (r: Self)
        ensures
            r@ == self@,
    {
        match self {
            GamePhase::ShipActionPhase(sub) => {
                let r = GamePhase::ShipActionPhase(
                    match sub {
                        Some(s) => Some(s.clone()),
                        None => None,
                    },
                );
                proof {
                    assert(r@ =~~= self@);
                }
                r
            },
            GamePhase::EventPhase(card) => {
                let r = GamePhase::EventPhase(
                    match card {
                        Some(c) => Some(c.clone()),
                        None => None,
                    },
                );
                proof {
                    assert(r@ =~~= self@);
                }
                r
            },
            GamePhase::MainActionPhase(sub, count) => GamePhase::MainActionPhase(*sub, *count),
            GamePhase::ChallengePhase { challenge, skill } => {
                let r = GamePhase::ChallengePhase { challenge: challenge.clone(), skill: *skill };
                proof {
                    assert(r@ =~~= self@);
                }
                r
            },
            GamePhase::SelectCrewMemberPhase { crew_ix, title, callback } => {
                let r = GamePhase::SelectCrewMemberPhase {
                    crew_ix: *crew_ix,
                    title: title.clone(),
                    callback: *callback,
                };
                proof {
                    assert(r@ =~~= self@);
                }
                r
            },
            GamePhase::ExplorePhase(story) => {
                let r = GamePhase::ExplorePhase(story.clone());
                proof {
                    assert(r@ =~~= self@);
                }
                r
            },
            GamePhase::ResolveEffectPhase(effect) => {
                let r = GamePhase::ResolveEffectPhase(effect.clone());
                proof {
                    assert(r@ =~~= self@);
                }
                r
            },
        }
    }
}

} // verus!
