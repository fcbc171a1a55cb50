//! Attempting a challenge with a nominated set of crew members.

use vstd::prelude::*;

use crate::error::GameError;
use crate::game_state::action::Action;
use crate::game_state::crew::{Crew, CrewModel, MAX_FATIGUE};
use crate::game_state::game_phase::{GamePhase, GamePhaseModel};
use crate::game_state::skill::Skill;
use crate::game_state::{GameState, GameStateModel};
use crate::utils::spec_change_and_clamp;
use crate::Update;

verus! {

/// The fixed situational bonus every challenge attempt adds to the
/// crew's summed skill.
pub const CHALLENGE_BONUS: u32 = 4;

/// Attempt the open challenge with these crew members.
pub struct ResolveChallengeAction {
    pub selected_crew: Vec<usize>,
}

/// The nominated crew's summed skill value, saturating at the counter's
/// width.
pub open spec fn spec_sum_skills(crew: Seq<CrewModel>, selected: Seq<usize>, skill: Skill) -> u32
    decreases selected.len(),
{
    if selected.len() == 0 {
        0
    } else {
        let front = spec_sum_skills(crew, selected.drop_last(), skill);
        let value = crew[selected.last() as int].skills.spec_get(skill);
        if front + value > u32::MAX {
            u32::MAX
        } else {
            (front + value) as u32
        }
    }
}

/// The crew after every nominated member gained one fatigue, applied in
/// nomination order.
pub open spec fn spec_fatigue_selected(crew: Seq<CrewModel>, selected: Seq<usize>) -> Seq<
    CrewModel,
>
    decreases selected.len(),
{
    if selected.len() == 0 {
        crew
    } else {
        let front = spec_fatigue_selected(crew, selected.drop_last());
        let ix = selected.last() as int;
        front.update(
            ix,
            CrewModel {
                fatigue: spec_change_and_clamp(front[ix].fatigue, 1, 0, MAX_FATIGUE) as u32,
                ..front[ix]
            },
        )
    }
}

/// Whether every nominated index names a crew member.
pub open spec fn spec_selected_in_range(crew_len: nat, selected: Seq<usize>) -> bool {
    forall|i: int| 0 <= i < selected.len() ==> (#[trigger] selected[i]) < crew_len
}

/// What attempting the challenge does: the summed skill plus the fixed
/// bonus is recorded on the phase and every nominated crew member gains
/// one fatigue.
pub open spec fn spec_resolve_challenge(s: GameStateModel, selected: Seq<usize>) -> Result<
    GameStateModel,
    GameError,
> {
    match s.phase_stack.last() {
        GamePhaseModel::ChallengePhase { challenge, skill: None } => {
            if !spec_selected_in_range(s.crew.len(), selected) {
                Err(GameError::CrewIndex)
            } else {
                let sum = spec_sum_skills(s.crew, selected, challenge.skill);
                let total = if sum + CHALLENGE_BONUS > u32::MAX {
                    u32::MAX
                } else {
                    (sum + CHALLENGE_BONUS) as u32
                };
                Ok(
                    GameStateModel {
                        crew: spec_fatigue_selected(s.crew, selected),
                        phase_stack: s.phase_stack.drop_last().push(
                            GamePhaseModel::ChallengePhase { challenge, skill: Some(total) },
                        ),
                        ..s
                    },
                )
            }
        },
        _ => Err(GameError::WrongPhase),
    }
}

impl ResolveChallengeAction {
    /// The nominated crew's summed value of the challenged skill,
    /// saturating at the counter's width; every index must be in range.
    pub fn crew_skill(&self, state: &GameState, skill: Skill) -> (r: u32)
        requires
            spec_selected_in_range(state@.crew.len(), self.selected_crew@),
        ensures
            r == spec_sum_skills(state@.crew, self.selected_crew@, skill),
    {
        let mut total: u32 = 0;
        let mut i: usize = 0;
        proof {
            assert(self.selected_crew@.take(0) =~= Seq::<usize>::empty());
            assert(state.crew@.len() == state@.crew.len());
        }
        while i < self.selected_crew.len()
            invariant
                i <= self.selected_crew@.len(),
                state.crew@.len() == state@.crew.len(),
                spec_selected_in_range(state@.crew.len(), self.selected_crew@),
                total == spec_sum_skills(state@.crew, self.selected_crew@.take(i as int), skill),
            decreases self.selected_crew@.len() - i,
        {
            proof {
                assert(self.selected_crew@.take(i as int + 1).drop_last()
                    =~= self.selected_crew@.take(i as int));
                assert(self.selected_crew@.take(i as int + 1).last()
                    == self.selected_crew@[i as int]);
                assert(self.selected_crew@[i as int] < state@.crew.len());
                assert(state.crew@[self.selected_crew@[i as int] as int]@ == state@.crew[
                    self.selected_crew@[i as int] as int
                ]);
            }
            let crew_ix = self.selected_crew[i];
            let value = state.crew[crew_ix].skills.get(skill);
            total = if total > u32::MAX - value {
                u32::MAX
            } else {
                total + value
            };
            i += 1;
        }
        proof {
            assert(self.selected_crew@.take(self.selected_crew@.len() as int)
                =~= self.selected_crew@);
        }
        total
    }
}

impl Action for ResolveChallengeAction {
    /// Valid only in a challenge phase with no skill total recorded yet;
    /// a nominated index out of range is reported.
    #[verifier::loop_isolation(false)]
    fn execute(&self, state: &GameState) -> (r: Update<GameState>)
        ensures
            match spec_resolve_challenge(state@, self.selected_crew@) {
                Ok(m) => r matches Ok(g) && g@ == m && (state.wf() ==> g.wf()),
                Err(e) => r == Update::<GameState>::Err(e),
            },
    {
        match state.phase() {
            GamePhase::ChallengePhase { challenge, skill: None } => {
                // Every nominated index must name a crew member.
                let mut i: usize = 0;
                proof {
                    assert(state.crew@.len() == state@.crew.len());
                }
                while i < self.selected_crew.len()
                    invariant
                        i <= self.selected_crew@.len(),
                        forall|j: int|
                            0 <= j < i ==> (#[trigger] self.selected_crew@[j])
                                < state@.crew.len(),
                    decreases self.selected_crew@.len() - i,
                {
                    if self.selected_crew[i] >= state.crew.len() {
                        proof {
                            assert(!spec_selected_in_range(
                                state@.crew.len(),
                                self.selected_crew@,
                            ));
                        }
                        return Err(GameError::CrewIndex);
                    }
                    i += 1;
                }
                proof {
                    assert(spec_selected_in_range(state@.crew.len(), self.selected_crew@));
                }

                let sum = self.crew_skill(state, challenge.skill);
                let total = if sum > u32::MAX - CHALLENGE_BONUS {
                    u32::MAX
                } else {
                    sum + CHALLENGE_BONUS
                };
                proof {
                    assert(challenge@ == (state@.phase_stack.last()->ChallengePhase_challenge));
                }

                // Every nominated crew member gains one fatigue.
                let mut gs = state.clone();
                let mut k: usize = 0;
                proof {
                    assert(self.selected_crew@.take(0) =~= Seq::<usize>::empty());
                    assert(gs@.crew =~= spec_fatigue_selected(
                        state@.crew,
                        self.selected_crew@.take(0),
                    ));
                }
                while k < self.selected_crew.len()
                    invariant
                        k <= self.selected_crew@.len(),
                        gs@ == (GameStateModel { crew: gs@.crew, ..state@ }),
                        gs@.crew == spec_fatigue_selected(
                            state@.crew,
                            self.selected_crew@.take(k as int),
                        ),
                        gs@.crew.len() == state@.crew.len(),
                        state.wf() ==> gs.wf(),
                    decreases self.selected_crew@.len() - k,
                {
                    proof {
                        assert(self.selected_crew@.take(k as int + 1).drop_last()
                            =~= self.selected_crew@.take(k as int));
                        assert(self.selected_crew@.take(k as int + 1).last()
                            == self.selected_crew@[k as int]);
                        assert(gs.crew@.len() == gs@.crew.len());
                        assert(gs.crew@[self.selected_crew@[k as int] as int]@ == gs@.crew[
                            self.selected_crew@[k as int] as int
                        ]);
                    }
                    let crew_ix = self.selected_crew[k];
                    let tired = match gs.crew[crew_ix].clone().change_fatigue(1) {
                        Ok(c) => c,
                        Err(e) => {
                            return Err(e);
                        },
                    };
                    gs = match gs.update_crew(crew_ix, tired) {
                        Ok(g) => g,
                        Err(e) => {
                            return Err(e);
                        },
                    };
                    proof {
                        assert(gs@.crew =~= spec_fatigue_selected(
                            state@.crew,
                            self.selected_crew@.take(k as int + 1),
                        ));
                        assert(gs@ =~= (GameStateModel { crew: gs@.crew, ..state@ }));
                    }
                    k += 1;
                }
                proof {
                    assert(self.selected_crew@.take(self.selected_crew@.len() as int)
                        =~= self.selected_crew@);
                }

                let r = gs.set_phase(
                    GamePhase::ChallengePhase { challenge, skill: Some(total) },
                );
                proof {
                    assert(r.unwrap()@ =~= spec_resolve_challenge(
                        state@,
                        self.selected_crew@,
                    ).unwrap());
                }
                r
            },
            _ => Err(GameError::WrongPhase),
        }
    }
}

} // verus!
