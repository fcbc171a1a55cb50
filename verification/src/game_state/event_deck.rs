//! Event cards: the deck drawn from at the start of each event phase.
//!
//! Only the shape of the cards matters to the engine: a card carries an
//! effect list of its own and a list of options, each with its effect
//! list.

use vstd::prelude::*;

use crate::game_state::challenge::Challenge;
use crate::game_state::client_message::{ClientMessage, ClientMessageModel, SerialCard, SerialCardModel};
use crate::game_state::crew::Status;
use crate::game_state::deck::Deck;
use crate::game_state::effect::{
    challenge_view, clone_effects, effect_view, effects_seq_view, ChallengeModel, Effect,
    EffectModel, ModifierModel,
};
use crate::game_state::modifier::{Modifier, ModifierLifetime, ModifierTrigger};
use crate::game_state::skill::Skill;
use crate::game_state::Resource;

verus! {

/// The mathematical content of an event option.
#[verifier::ext_equal]
pub ghost struct EventOptionModel {
    pub text: Seq<char>,
    pub effects: Seq<EffectModel>,
}

/// One option printed on an event card.
pub struct EventOption {
    pub text: String,
    pub effects: Vec<Effect>,
}

impl View for EventOption {
    type V = EventOptionModel;

    open spec fn view(&self) -> EventOptionModel {
        EventOptionModel { text: self.text@, effects: effects_seq_view(self.effects@) }
    }
}

impl DeepView for EventOption {
    type V = EventOptionModel;

    open spec fn deep_view(&self) -> EventOptionModel {
        self.view()
    }
}

impl Clone for EventOption {
    fn clone(&self) -> (r: Self)
        ensures
            r@ == self@,
    {
        let r = EventOption { text: self.text.clone(), effects: clone_effects(&self.effects) };
        proof {
            assert(r@ =~~= self@);
        }
        r
    }
}

/// The mathematical content of an event card.
#[verifier::ext_equal]
pub ghost struct EventCardModel {
    pub name: Seq<char>,
    pub effects: Seq<EffectModel>,
    pub options: Seq<EventOptionModel>,
    pub deck_index: u32,
}

/// One event card.
pub struct EventCard {
    pub name: String,
    pub effects: Vec<Effect>,
    pub options: Vec<EventOption>,
    pub deck_index: u32,
}

impl View for EventCard {
    type V = EventCardModel;

    open spec fn view(&self) -> EventCardModel {
        EventCardModel {
            name: self.name@,
            effects: effects_seq_view(self.effects@),
            options: self.options.deep_view(),
            deck_index: self.deck_index,
        }
    }
}

impl DeepView for EventCard {
    type V = EventCardModel;

    open spec fn deep_view(&self) -> EventCardModel {
        self.view()
    }
}

impl Clone for EventCard {
    fn clone(&self) -> (r: Self)
        ensures
            r@ == self@,
    {
        let mut options: Vec<EventOption> = Vec::new();
        let mut i: usize = 0;
        while i < self.options.len()
            invariant
                i <= self.options@.len(),
                options@.len() == i,
                forall|j: int| 0 <= j < i ==> (#[trigger] options@[j])@ == self.options@[j]@,
            decreases self.options@.len() - i,
        {
            options.push(self.options[i].clone());
            i += 1;
        }
        let r = EventCard {
            name: self.name.clone(),
            effects: clone_effects(&self.effects),
            options,
            deck_index: self.deck_index,
        };
        proof {
            assert(r.options.deep_view() =~= self.options.deep_view());
            assert(r@ =~~= self@);
        }
        r
    }
}

/// The mathematical content of the jellyfish card.
pub open spec fn spec_card0() -> EventCardModel {
    EventCardModel {
        name: "Floating Jellyfish"@,
        deck_index: 0,
        effects: Seq::empty(),
        options: seq![
            EventOptionModel {
                text: "Catch the jellyfish (SAVVY 8)"@,
                effects: seq![
                    EffectModel::TryChallenge(
                        ChallengeModel {
                            label: "Fail: -3 health. Gain 2 venom. <br> Succeed: Gain 2 meat."@,
                            skill: Skill::Savvy,
                            amount: 8,
                            if_fail: seq![
                                EffectModel::TakeHealthDamage(3),
                                EffectModel::TakeStatus(Status::Venom),
                                EffectModel::TakeStatus(Status::Venom),
                            ],
                            if_succeed: seq![EffectModel::GainResource(Resource::Meat, 2)],
                        },
                    ),
                ],
            },
            EventOptionModel {
                text: "Hit the jellyfish away"@,
                effects: seq![
                    EffectModel::GainModifier(
                        Box::new(
                            ModifierModel {
                                lifetime: ModifierLifetime::ThisTurn,
                                trigger: ModifierTrigger::DrawFate { lo: 1, hi: 3 },
                                effect: EffectModel::TakeHealthDamage(4),
                                trigger_text: ClientMessageModel::ModifierTriggered {
                                    text: "You drew a 1-3 on a fate draw. You take 4 damage due to: "@,
                                    card: SerialCardModel {
                                        label: "Floating Jellyfish"@,
                                        deck: "event_deck"@,
                                        index: 0,
                                    },
                                },
                            },
                        ),
                    ),
                ],
            },
        ],
    }
}

/// The jellyfish card.
#[verifier::rlimit(50)]
pub fn card0() -> (r: EventCard)
    ensures
        r@ == spec_card0(),
{
    let mut challenge_fail: Vec<Effect> = Vec::new();
    challenge_fail.push(Effect::TakeHealthDamage(3));
    challenge_fail.push(Effect::TakeStatus(Status::Venom));
    challenge_fail.push(Effect::TakeStatus(Status::Venom));
    let mut challenge_succeed: Vec<Effect> = Vec::new();
    challenge_succeed.push(Effect::GainResource(Resource::Meat, 2));

    let mut option1_effects: Vec<Effect> = Vec::new();
    option1_effects.push(
        Effect::TryChallenge(
            Challenge {
                label: "Fail: -3 health. Gain 2 venom. <br> Succeed: Gain 2 meat.".to_owned(),
                skill: Skill::Savvy,
                amount: 8,
                if_fail: challenge_fail,
                if_succeed: challenge_succeed,
            },
        ),
    );
    let option1 = EventOption {
        text: "Catch the jellyfish (SAVVY 8)".to_owned(),
        effects: option1_effects,
    };
    proof {
        reveal_with_fuel(effects_seq_view, 8);
        reveal_with_fuel(effect_view, 8);
        reveal_with_fuel(challenge_view, 8);
        let e0 = option1.effects@[0];
        let c0 = e0->TryChallenge_0;
        assert(effect_view(e0) == EffectModel::TryChallenge(challenge_view(&c0)));
        let cv = challenge_view(&c0);
        let sm = spec_card0().options[0].effects[0]->TryChallenge_0;
        assert(cv.label =~= sm.label);
        assert(cv.if_fail =~~= sm.if_fail);
        assert(cv.if_succeed =~~= sm.if_succeed);
        assert(cv =~~= sm);
        assert(option1@ =~~= spec_card0().options[0]);
    }

    let modifier = Modifier {
        lifetime: ModifierLifetime::ThisTurn,
        trigger: ModifierTrigger::DrawFate { lo: 1, hi: 3 },
        effect: Effect::TakeHealthDamage(4),
        trigger_text: ClientMessage::ModifierTriggered {
            text: "You drew a 1-3 on a fate draw. You take 4 damage due to: ".to_owned(),
            card: SerialCard {
                label: "Floating Jellyfish".to_owned(),
                deck: "event_deck".to_owned(),
                index: 0,
            },
        },
    };
    let mut option2_effects: Vec<Effect> = Vec::new();
    option2_effects.push(Effect::GainModifier(Box::new(modifier)));
    let option2 = EventOption {
        text: "Hit the jellyfish away".to_owned(),
        effects: option2_effects,
    };
    proof {
        reveal_with_fuel(effects_seq_view, 8);
        assert(option2@ =~~= spec_card0().options[1]);
    }

    let mut options: Vec<EventOption> = Vec::new();
    options.push(option1);
    options.push(option2);

    let r = EventCard {
        deck_index: 0,
        name: "Floating Jellyfish".to_owned(),
        effects: Vec::new(),
        options,
    };
    proof {
        assert(r@.options =~= spec_card0().options);
        assert(r@ =~~= spec_card0());
    }
    r
}

/// The mathematical content of the possessed-crew card.
pub open spec fn spec_card1() -> EventCardModel {
    EventCardModel {
        name: "Possessed Crew"@,
        deck_index: 1,
        effects: seq![
            EffectModel::TakeStatus(Status::Madness),
            EffectModel::GainModifier(
                Box::new(
                    ModifierModel {
                        lifetime: ModifierLifetime::ThisTurn,
                        trigger: ModifierTrigger::DrawFate { lo: 1, hi: 3 },
                        effect: EffectModel::TakeStatus(Status::Madness),
                        trigger_text: ClientMessageModel::ModifierTriggered {
                            text: "You drew a 1-3 on a fate draw. You must gain one madness due to: "@,
                            card: SerialCardModel {
                                label: "Possessed Crew"@,
                                deck: "event_deck"@,
                                index: 1,
                            },
                        },
                    },
                ),
            ),
        ],
        options: Seq::empty(),
    }
}

/// The possessed-crew card.
#[verifier::rlimit(50)]
pub fn card1() -> (r: EventCard)
    ensures
        r@ == spec_card1(),
{
    let modifier = Modifier {
        effect: Effect::TakeStatus(Status::Madness),
        lifetime: ModifierLifetime::ThisTurn,
        trigger: ModifierTrigger::DrawFate { lo: 1, hi: 3 },
        trigger_text: ClientMessage::ModifierTriggered {
            text: "You drew a 1-3 on a fate draw. You must gain one madness due to: ".to_owned(),
            card: SerialCard {
                label: "Possessed Crew".to_owned(),
                deck: "event_deck".to_owned(),
                index: 1,
            },
        },
    };
    let mut effects: Vec<Effect> = Vec::new();
    effects.push(Effect::TakeStatus(Status::Madness));
    effects.push(Effect::GainModifier(Box::new(modifier)));

    let r = EventCard {
        name: "Possessed Crew".to_owned(),
        deck_index: 1,
        effects,
        options: Vec::new(),
    };
    proof {
        reveal_with_fuel(effects_seq_view, 8);
        assert(r@.effects =~~= spec_card1().effects);
        assert(r@ =~~= spec_card1());
    }
    r
}

/// The mathematical content of the biplane card.
pub open spec fn spec_card11() -> EventCardModel {
    EventCardModel {
        name: "Broken Biplane"@,
        deck_index: 11,
        effects: Seq::empty(),
        options: seq![
            EventOptionModel {
                text: "Help repair the airplane (CRAFT 8)"@,
                effects: seq![
                    EffectModel::TryChallenge(
                        ChallengeModel {
                            label: "Fail: Lose 5 health. <br> Succeed: Gain 1 coin and 1 meat."@,
                            skill: Skill::Craft,
                            amount: 8,
                            if_fail: seq![EffectModel::TakeHealthDamage(5)],
                            if_succeed: seq![
                                EffectModel::GainResource(Resource::Coin, 1),
                                EffectModel::GainResource(Resource::Meat, 1),
                            ],
                        },
                    ),
                ],
            },
            EventOptionModel {
                text: "Ignore the plane"@,
                effects: seq![
                    EffectModel::TakeHealthDamage(1),
                    EffectModel::TakeStatus(Status::LowMorale),
                ],
            },
        ],
    }
}

/// The biplane card.
#[verifier::rlimit(50)]
pub fn card11() -> (r: EventCard)
    ensures
        r@ == spec_card11(),
{
    let mut challenge_fail: Vec<Effect> = Vec::new();
    challenge_fail.push(Effect::TakeHealthDamage(5));
    let mut challenge_succeed: Vec<Effect> = Vec::new();
    challenge_succeed.push(Effect::GainResource(Resource::Coin, 1));
    challenge_succeed.push(Effect::GainResource(Resource::Meat, 1));

    let mut option1_effects: Vec<Effect> = Vec::new();
    option1_effects.push(
        Effect::TryChallenge(
            Challenge {
                label: "Fail: Lose 5 health. <br> Succeed: Gain 1 coin and 1 meat.".to_owned(),
                skill: Skill::Craft,
                amount: 8,
                if_fail: challenge_fail,
                if_succeed: challenge_succeed,
            },
        ),
    );
    let option1 = EventOption {
        text: "Help repair the airplane (CRAFT 8)".to_owned(),
        effects: option1_effects,
    };
    proof {
        reveal_with_fuel(effects_seq_view, 8);
        reveal_with_fuel(effect_view, 8);
        reveal_with_fuel(challenge_view, 8);
        let e0 = option1.effects@[0];
        let c0 = e0->TryChallenge_0;
        assert(effect_view(e0) == EffectModel::TryChallenge(challenge_view(&c0)));
        let cv = challenge_view(&c0);
        let sm = spec_card11().options[0].effects[0]->TryChallenge_0;
        assert(cv.label =~= sm.label);
        assert(cv.if_fail =~~= sm.if_fail);
        assert(cv.if_succeed =~~= sm.if_succeed);
        assert(cv =~~= sm);
        assert(option1@ =~~= spec_card11().options[0]);
    }

    let mut option2_effects: Vec<Effect> = Vec::new();
    option2_effects.push(Effect::TakeHealthDamage(1));
    option2_effects.push(Effect::TakeStatus(Status::LowMorale));
    let option2 = EventOption { text: "Ignore the plane".to_owned(), effects: option2_effects };
    proof {
        reveal_with_fuel(effects_seq_view, 8);
        assert(option2@ =~~= spec_card11().options[1]);
    }

    let mut options: Vec<EventOption> = Vec::new();
    options.push(option1);
    options.push(option2);

    let r = EventCard {
        name: "Broken Biplane".to_owned(),
        deck_index: 11,
        effects: Vec::new(),
        options,
    };
    proof {
        assert(r@.options =~= spec_card11().options);
        assert(r@ =~~= spec_card11());
    }
    r
}

/// The views of the cards the event deck starts with, bottom first.
pub open spec fn spec_starting_event_cards() -> Seq<EventCardModel> {
    seq![spec_card0(), spec_card11(), spec_card1()]
}

impl Default for Deck<EventCard> {
    /// The event deck the game starts with.
    fn default() -> (r: Self)
        ensures
            r.deep_view().items == spec_starting_event_cards(),
            r.deep_view().discard == Seq::<EventCardModel>::empty(),
    {
        let mut items: Vec<EventCard> = Vec::new();
        items.push(card0());
        items.push(card11());
        items.push(card1());
        let r = Deck::new(items);
        proof {
            assert(r.deep_view().items =~= spec_starting_event_cards());
            assert(r.deep_view().discard =~= Seq::<EventCardModel>::empty());
        }
        r
    }
}

} // verus!
