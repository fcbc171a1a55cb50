//! Declarative, atomic state-change directives.
//!
//! An effect either completes synchronously (resource gain, a narrative
//! jump, returning to the ship) or suspends by pushing an interactive
//! phase and deferring completion to a follow-up command.

use vstd::prelude::*;

use crate::error::GameError;
use crate::game_state::action::Action;
use crate::game_state::challenge::Challenge;
use crate::game_state::crew::{CrewModel, Status};
use crate::game_state::game_phase::{CallbackCommand, GamePhase, GamePhaseModel, MainActionSubphase};
use crate::game_state::modifier::Modifier;
use crate::game_state::skill::Skill;
use crate::game_state::storybook::spec_lookup_story;
use crate::game_state::{spec_gain, GameState, GameStateModel, Resource};
use crate::Update;

verus! {

/// An atomic state-change directive.
pub enum Effect {
    /// Attempt a skill check; suspends into a challenge phase.
    TryChallenge(Challenge),
    /// Gain (or, negative, lose) an amount of a resource; losses clamp
    /// at zero.
    GainResource(Resource, i32),
    /// Damage that must be distributed over the crew; suspends into an
    /// effect-resolution phase.
    TakeHealthDamage(u32),
    /// A status that needs a target; suspends into a crew-selection
    /// phase.
    TakeStatus(Status),
    /// Jump to the story node with this index.
    TurnToStory(u32),
    /// Leave the narrative and return to the main-action phase.
    ReturnToShip,
    /// Register a modifier.
    GainModifier(Box<Modifier>),
}

/// The mathematical content of an effect.
#[verifier::ext_equal]
pub ghost enum EffectModel {
    TryChallenge(ChallengeModel),
    GainResource(Resource, i32),
    TakeHealthDamage(u32),
    TakeStatus(Status),
    TurnToStory(u32),
    ReturnToShip,
    GainModifier(Box<ModifierModel>),
}

/// The mathematical content of a challenge.
#[verifier::ext_equal]
pub ghost struct ChallengeModel {
    pub skill: Skill,
    pub amount: u32,
    pub label: Seq<char>,
    pub if_fail: Seq<EffectModel>,
    pub if_succeed: Seq<EffectModel>,
}

/// The mathematical content of a modifier.
#[verifier::ext_equal]
pub ghost struct ModifierModel {
    pub lifetime: crate::game_state::modifier::ModifierLifetime,
    pub trigger: crate::game_state::modifier::ModifierTrigger,
    pub effect: EffectModel,
    pub trigger_text: crate::game_state::client_message::ClientMessageModel,
}

/// The mathematical content of one effect.
pub open spec fn effect_view(e: Effect) -> EffectModel
    decreases e,
{
    match e {
        Effect::TryChallenge(c) => EffectModel::TryChallenge(challenge_view(&c)),
        Effect::GainResource(r, amount) => EffectModel::GainResource(r, amount),
        Effect::TakeHealthDamage(d) => EffectModel::TakeHealthDamage(d),
        Effect::TakeStatus(s) => EffectModel::TakeStatus(s),
        Effect::TurnToStory(ix) => EffectModel::TurnToStory(ix),
        Effect::ReturnToShip => EffectModel::ReturnToShip,
        Effect::GainModifier(m) => EffectModel::GainModifier(Box::new(modifier_view(&*m))),
    }
}

/// The mathematical content of a sequence of effects, in order.
pub open spec fn effects_seq_view(s: Seq<Effect>) -> Seq<EffectModel>
    decreases s,
{
    if s.len() == 0 {
        Seq::empty()
    } else {
        effects_seq_view(s.drop_last()).push(effect_view(s.last()))
    }
}

/// The content of a sequence of effects is the content of its elements,
/// slot for slot.
pub broadcast proof fn lemma_effects_seq_view_elts(s: Seq<Effect>)
    ensures
        (#[trigger] effects_seq_view(s)).len() == s.len(),
        forall|i: int| 0 <= i < s.len() ==> effects_seq_view(s)[i] == effect_view(s[i]),
    decreases s,
{
    if s.len() > 0 {
        lemma_effects_seq_view_elts(s.drop_last());
    }
}

/// The content of a concatenation is the concatenation of the contents.
pub proof fn lemma_effects_seq_view_concat(a: Seq<Effect>, b: Seq<Effect>)
    ensures
        effects_seq_view(a + b) == effects_seq_view(a) + effects_seq_view(b),
{
    lemma_effects_seq_view_elts(a + b);
    lemma_effects_seq_view_elts(a);
    lemma_effects_seq_view_elts(b);
    assert(effects_seq_view(a + b) =~= effects_seq_view(a) + effects_seq_view(b));
}

/// The mathematical content of a challenge.
pub open spec fn challenge_view(c: &Challenge) -> ChallengeModel
    decreases *c,
{
    ChallengeModel {
        skill: c.skill,
        amount: c.amount,
        label: c.label@,
        if_fail: effects_seq_view(c.if_fail@),
        if_succeed: effects_seq_view(c.if_succeed@),
    }
}

/// The mathematical content of a modifier.
pub open spec fn modifier_view(m: &Modifier) -> ModifierModel
    decreases *m,
{
    ModifierModel {
        lifetime: m.lifetime,
        trigger: m.trigger,
        effect: effect_view(m.effect),
        trigger_text: m.trigger_text@,
    }
}

impl View for Effect {
    type V = EffectModel;

    open spec fn view(&self) -> EffectModel {
        effect_view(*self)
    }
}

impl DeepView for Effect {
    type V = EffectModel;

    open spec fn deep_view(&self) -> EffectModel {
        effect_view(*self)
    }
}

impl Clone for Effect {
    fn clone(&self) -> (r: Self)
        ensures
            r@ == self@,
    {
        clone_effect(self)
    }
}

impl Clone for Challenge {
    fn clone(&self) -> (r: Self)
        ensures
            r@ == self@,
    {
        clone_challenge(self)
    }
}

impl Clone for Modifier {
    fn clone(&self) -> (r: Self)
        ensures
            r@ == self@,
    {
        clone_modifier(self)
    }
}

/// Clones an effect; the clone has the same mathematical content.
pub(crate) fn clone_one_effect(e: &Effect) -> (r: Effect)
    ensures
        r@ == e@,
{
    clone_effect(e)
}

/// Clones an effect; the clone has the same mathematical content.
fn clone_effect(e: &Effect) -> (r: Effect)
    ensures
        r@ == e@,
    decreases *e,
{
    match e {
        Effect::TryChallenge(c) => Effect::TryChallenge(clone_challenge(c)),
        Effect::GainResource(res, amount) => Effect::GainResource(*res, *amount),
        Effect::TakeHealthDamage(d) => Effect::TakeHealthDamage(*d),
        Effect::TakeStatus(s) => Effect::TakeStatus(*s),
        Effect::TurnToStory(ix) => Effect::TurnToStory(*ix),
        Effect::ReturnToShip => Effect::ReturnToShip,
        Effect::GainModifier(m) => Effect::GainModifier(Box::new(clone_modifier(&*m))),
    }
}

/// Clones a list of effects slot for slot.
pub(crate) fn clone_effects(v: &Vec<Effect>) -> (r: Vec<Effect>)
    ensures
        effects_seq_view(r@) == effects_seq_view(v@),
    decreases *v,
{
    let mut r: Vec<Effect> = Vec::new();
    let mut i: usize = 0;
    while i < v.len()
        invariant
            i <= v@.len(),
            r@.len() == i,
            forall|j: int| 0 <= j < i ==> (#[trigger] r@[j])@ == v@[j]@,
        decreases v@.len() - i,
    {
        r.push(clone_effect(&v[i]));
        i += 1;
    }
    proof {
        broadcast use lemma_effects_seq_view_elts;

        assert(effects_seq_view(r@) =~= effects_seq_view(v@));
    }
    r
}

/// Clones a challenge; the clone has the same mathematical content.
fn clone_challenge(c: &Challenge) -> (r: Challenge)
    ensures
        r@ == c@,
    decreases *c,
{
    let r = Challenge {
        skill: c.skill,
        amount: c.amount,
        label: c.label.clone(),
        if_fail: clone_effects(&c.if_fail),
        if_succeed: clone_effects(&c.if_succeed),
    };
    proof {
        assert(r@ =~~= c@);
    }
    r
}

/// Clones a modifier; the clone has the same mathematical content.
fn clone_modifier(m: &Modifier) -> (r: Modifier)
    ensures
        r@ == m@,
    decreases *m,
{
    Modifier {
        lifetime: m.lifetime,
        trigger: m.trigger,
        effect: clone_effect(&m.effect),
        trigger_text: m.trigger_text.clone(),
    }
}


/// The prompt shown when a status effect needs a target.
pub open spec fn spec_status_title(status: Status) -> Seq<char> {
    match status {
        Status::Venom => "Give Venom to"@,
        Status::Frightened => "Give Frightened to"@,
        Status::Weakend => "Give Weakend to"@,
        Status::Madness => "Give Madness to"@,
        Status::LowMorale => "Give LowMorale to"@,
    }
}

/// The prompt shown when a status effect needs a target.
fn status_title(status: Status) -> (r: String)
    ensures
        r@ == spec_status_title(status),
{
    match status {
        Status::Venom => "Give Venom to".to_owned(),
        Status::Frightened => "Give Frightened to".to_owned(),
        Status::Weakend => "Give Weakend to".to_owned(),
        Status::Madness => "Give Madness to".to_owned(),
        Status::LowMorale => "Give LowMorale to".to_owned(),
    }
}

/// What one effect does to the state.
///
/// Immediate effects (resource gain, a narrative jump, returning to the
/// ship, acquiring a modifier) complete here; effects that need player
/// input (a challenge, a status that needs a target, damage that must
/// be distributed) push the interactive phase that will collect it.
pub open spec fn spec_resolve_effect(s: GameStateModel, e: EffectModel) -> Result<
    GameStateModel,
    GameError,
> {
    match e {
        EffectModel::TurnToStory(story_ix) => match spec_lookup_story(s.map.storybook, story_ix) {
            Some(story) => Ok(
                GameStateModel {
                    phase_stack: s.phase_stack.drop_last().push(
                        GamePhaseModel::ExplorePhase(story),
                    ),
                    ..s
                },
            ),
            None => Err(GameError::StoryNotFound),
        },
        EffectModel::ReturnToShip => {
            if s.phase_stack.len() < 2 {
                Err(GameError::NoPhaseToPop)
            } else {
                match s.phase_stack[s.phase_stack.len() - 2] {
                    GamePhaseModel::MainActionPhase(sub, action_ct) => {
                        if sub == Some(MainActionSubphase::Explore) {
                            Ok(
                                GameStateModel {
                                    phase_stack: s.phase_stack.drop_last().drop_last().push(
                                        GamePhaseModel::MainActionPhase(None, action_ct),
                                    ),
                                    ..s
                                },
                            )
                        } else {
                            Err(GameError::WrongPhase)
                        }
                    },
                    _ => Err(GameError::WrongPhase),
                }
            }
        },
        EffectModel::GainResource(resource, amount) => Ok(
            GameStateModel { resources: spec_gain(s.resources, resource, amount), ..s },
        ),
        EffectModel::TryChallenge(challenge) => Ok(
            GameStateModel {
                phase_stack: s.phase_stack.push(
                    GamePhaseModel::ChallengePhase { challenge, skill: None },
                ),
                ..s
            },
        ),
        EffectModel::TakeStatus(status) => Ok(
            GameStateModel {
                phase_stack: s.phase_stack.push(
                    GamePhaseModel::SelectCrewMemberPhase {
                        crew_ix: None,
                        title: spec_status_title(status),
                        callback: CallbackCommand::TakeStatus(status),
                    },
                ),
                ..s
            },
        ),
        EffectModel::GainModifier(modifier) => Ok(
            GameStateModel { modifiers: s.modifiers.push(*modifier), ..s },
        ),
        EffectModel::TakeHealthDamage(_) => Ok(
            GameStateModel {
                phase_stack: s.phase_stack.push(GamePhaseModel::ResolveEffectPhase(e)),
                ..s
            },
        ),
    }
}

/// A list of effects folded over the state left to right; the first
/// failing effect stops the run with its error.
pub open spec fn spec_resolve_effects(s: GameStateModel, effects: Seq<EffectModel>) -> Result<
    GameStateModel,
    GameError,
>
    decreases effects.len(),
{
    if effects.len() == 0 {
        Ok(s)
    } else {
        match spec_resolve_effect(s, effects.first()) {
            Ok(s2) => spec_resolve_effects(s2, effects.drop_first()),
            Err(e) => Err(e),
        }
    }
}

impl Effect {
    /// Applies this effect to the state, completing it or suspending
    /// into the interactive phase it needs.
    pub fn resolve(&self, state: &GameState) -> (r: Update<GameState>)
        requires
            state@.phase_stack.len() >= 1,
        ensures
            match spec_resolve_effect(state@, self@) {
                Ok(m) => r matches Ok(g) && g@ == m && g@.phase_stack.len() >= 1 && (state.wf()
                    ==> g.wf()),
                Err(e) => r == Update::<GameState>::Err(e),
            },
    {
        match self {
            Effect::TurnToStory(story_ix) => {
                let story = match state.map.storybook.story(*story_ix) {
                    Ok(story) => story.clone(),
                    Err(e) => {
                        return Err(e);
                    },
                };
                let r = state.set_phase(GamePhase::ExplorePhase(story));
                proof {
                    let m = spec_resolve_effect(state@, self@).unwrap();
                    assert(r.unwrap()@ =~= m);
                }
                r
            },
            Effect::ReturnToShip => {
                let popped = match state.pop_phase() {
                    Ok(g) => g,
                    Err(e) => {
                        return Err(e);
                    },
                };
                match popped.phase() {
                    GamePhase::MainActionPhase(Some(MainActionSubphase::Explore), action_ct) => {
                        let r = popped.set_phase(GamePhase::MainActionPhase(None, action_ct));
                        proof {
                            let m = spec_resolve_effect(state@, self@).unwrap();
                            assert(popped@.phase_stack.last() == state@.phase_stack[
                                state@.phase_stack.len() - 2
                            ]);
                            assert(popped@.phase_stack.drop_last() =~= state@.phase_stack.drop_last().drop_last());
                            assert(r.unwrap()@ =~= m);
                        }
                        r
                    },
                    _ => Err(GameError::WrongPhase),
                }
            },
            Effect::GainResource(resource, amount) => {
                let r = state.gain_resource(*resource, *amount);
                proof {
                    assert(r.unwrap()@ =~= spec_resolve_effect(state@, self@).unwrap());
                }
                r
            },
            Effect::TryChallenge(challenge) => {
                let r = state.challenge(challenge.clone());
                proof {
                    assert(r.unwrap()@ =~= spec_resolve_effect(state@, self@).unwrap());
                }
                r
            },
            Effect::TakeStatus(status) => {
                let r = state.push_phase(
                    GamePhase::SelectCrewMemberPhase {
                        crew_ix: None,
                        title: status_title(*status),
                        callback: CallbackCommand::TakeStatus(*status),
                    },
                );
                proof {
                    assert(r.unwrap()@ =~= spec_resolve_effect(state@, self@).unwrap());
                }
                r
            },
            Effect::GainModifier(modifier) => {
                let r = state.add_modifier(&*modifier);
                proof {
                    assert(r.unwrap()@ =~= spec_resolve_effect(state@, self@).unwrap());
                }
                r
            },
            Effect::TakeHealthDamage(_) => {
                let r = state.push_phase(GamePhase::ResolveEffectPhase(self.clone()));
                proof {
                    assert(r.unwrap()@ =~= spec_resolve_effect(state@, self@).unwrap());
                }
                r
            },
        }
    }
}

/// Folds a list of effects over the state left to right; the first
/// failing effect stops the run and its error is returned, the
/// original state staying with the caller.
#[verifier::loop_isolation(false)]
pub fn resolve_effects(state: &GameState, effects: Vec<Effect>) -> (r: Update<GameState>)
    requires
        state@.phase_stack.len() >= 1,
    ensures
        match spec_resolve_effects(state@, effects_seq_view(effects@)) {
            Ok(m) => r matches Ok(g) && g@ == m && g@.phase_stack.len() >= 1 && (state.wf()
                ==> g.wf()),
            Err(e) => r == Update::<GameState>::Err(e),
        },
{
    broadcast use lemma_effects_seq_view_elts;

    let ghost ev = effects_seq_view(effects@);
    let mut cur = state.clone();
    let mut i: usize = 0;
    proof {
        assert(ev.skip(0) =~= ev);
        assert(cur@ =~= state@);
    }
    while i < effects.len()
        invariant
            i <= effects@.len(),
            ev == effects_seq_view(effects@),
            ev.len() == effects@.len(),
            spec_resolve_effects(state@, ev) == spec_resolve_effects(cur@, ev.skip(i as int)),
            cur@.phase_stack.len() >= 1,
            state.wf() ==> cur.wf(),
        decreases effects@.len() - i,
    {
        proof {
            assert(ev.skip(i as int).first() == effect_view(effects@[i as int]));
            assert(ev.skip(i as int).drop_first() =~= ev.skip(i as int + 1));
        }
        cur = match effects[i].resolve(&cur) {
            Ok(g) => g,
            Err(e) => {
                return Err(e);
            },
        };
        i += 1;
    }
    proof {
        assert(ev.skip(i as int).len() == 0);
    }
    Ok(cur)
}

/// The follow-up command a status effect stores: once a crew member is
/// chosen, it gives them the status.
pub struct TakeStatusAction {
    pub status: Status,
}

/// What taking a status does once a crew member is chosen: the chosen
/// crew member gains the status, a duplicate is rejected.
pub open spec fn spec_take_status_action(s: GameStateModel, status: Status) -> Result<
    GameStateModel,
    GameError,
> {
    match s.phase_stack.last() {
        GamePhaseModel::SelectCrewMemberPhase { crew_ix: Some(crew_ix), .. } => {
            if crew_ix < s.crew.len() {
                if s.crew[crew_ix as int].status.contains(status) {
                    Err(GameError::DuplicateStatus)
                } else {
                    Ok(
                        GameStateModel {
                            crew: s.crew.update(
                                crew_ix as int,
                                CrewModel {
                                    status: s.crew[crew_ix as int].status.push(status),
                                    ..s.crew[crew_ix as int]
                                },
                            ),
                            ..s
                        },
                    )
                }
            } else {
                Err(GameError::CrewIndex)
            }
        },
        _ => Err(GameError::WrongPhase),
    }
}

impl Action for TakeStatusAction {
    /// Valid only while a crew member has been chosen in the
    /// crew-selection phase; gives the chosen crew member the status.
    fn execute(&self, state: &GameState) -> (r: Update<GameState>)
        ensures
            match spec_take_status_action(state@, self.status) {
                Ok(m) => r matches Ok(g) && g@ == m && (state.wf() ==> g.wf()),
                Err(e) => r == Update::<GameState>::Err(e),
            },
    {
        let phase = state.phase();
        match phase {
            GamePhase::SelectCrewMemberPhase { crew_ix: Some(crew_ix), .. } => {
                if crew_ix >= state.crew.len() {
                    proof {
                        assert(state.crew@.len() == state@.crew.len());
                    }
                    return Err(GameError::CrewIndex);
                }
                proof {
                    assert(state.crew@.len() == state@.crew.len());
                    assert(state.crew@[crew_ix as int]@ == state@.crew[crew_ix as int]);
                }
                let member = match state.crew[crew_ix].clone().add_status(self.status) {
                    Ok(c) => c,
                    Err(e) => {
                        return Err(e);
                    },
                };
                state.update_crew(crew_ix, member)
            },
            _ => Err(GameError::WrongPhase),
        }
    }
}


} // verus!
