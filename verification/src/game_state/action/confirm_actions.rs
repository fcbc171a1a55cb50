//! Confirming how pending damage is distributed over the crew.

use vstd::prelude::*;

use crate::error::GameError;
use crate::game_state::action::Action;
use crate::game_state::crew::{CrewModel, MAX_DAMAGE};
use crate::game_state::effect::{Effect, EffectModel};
use crate::game_state::game_phase::{GamePhase, GamePhaseModel};
use crate::game_state::{spec_pop_phase, GameState, GameStateModel};
use crate::utils::spec_change_and_clamp;
use crate::Update;

verus! {

/// Distribute pending health damage over the crew, one amount per crew
/// member, and close the effect-resolution phase.
pub struct ConfirmHealthDistributionAction {
    pub crew_damage: Vec<u32>,
    pub player_ix: usize,
}

/// The sum of the distributed amounts.
pub open spec fn spec_sum_damage(damages: Seq<u32>) -> int
    decreases damages.len(),
{
    if damages.len() == 0 {
        0
    } else {
        spec_sum_damage(damages.drop_last()) + damages.last()
    }
}

/// Every prefix of the distributed amounts sums to no more than the
/// whole.
proof fn lemma_sum_damage_prefix(damages: Seq<u32>, i: int)
    requires
        0 <= i <= damages.len(),
    ensures
        spec_sum_damage(damages.take(i)) <= spec_sum_damage(damages),
    decreases damages.len() - i,
{
    if i == damages.len() {
        assert(damages.take(i) =~= damages);
    } else {
        lemma_sum_damage_prefix(damages, i + 1);
        assert(damages.take(i + 1).drop_last() =~= damages.take(i));
        assert(damages.take(i + 1).last() == damages[i]);
    }
}

/// The crew after each member took its distributed amount, clamped into
/// the damage band.
pub open spec fn spec_distribute_damage(crew: Seq<CrewModel>, damages: Seq<u32>) -> Seq<CrewModel> {
    Seq::new(
        crew.len(),
        |i: int|
            CrewModel {
                damage: spec_clamped_damage(crew[i].damage, damages[i]),
                ..crew[i]
            },
    )
}

/// A damage counter after taking `amount` more, clamped into its band.
pub open spec fn spec_clamped_damage(damage: u32, amount: u32) -> u32 {
    if damage + amount > MAX_DAMAGE {
        MAX_DAMAGE
    } else {
        (damage + amount) as u32
    }
}

/// What confirming does: with an amount for every crew member that adds
/// up to the pending damage, each member takes its amount and the
/// effect-resolution phase pops.
pub open spec fn spec_confirm_health_distribution(s: GameStateModel, damages: Seq<u32>) -> Result<
    GameStateModel,
    GameError,
> {
    match s.phase_stack.last() {
        GamePhaseModel::ResolveEffectPhase(EffectModel::TakeHealthDamage(damage)) => {
            if damages.len() != s.crew.len() {
                Err(GameError::CrewIndex)
            } else if spec_sum_damage(damages) != damage {
                Err(GameError::DamageMismatch)
            } else if s.phase_stack.len() < 2 {
                Err(GameError::NoPhaseToPop)
            } else {
                Ok(
                    spec_pop_phase(
                        GameStateModel { crew: spec_distribute_damage(s.crew, damages), ..s },
                    ),
                )
            }
        },
        _ => Err(GameError::WrongPhase),
    }
}

impl Action for ConfirmHealthDistributionAction {
    /// Valid only while a take-damage effect awaits its distribution;
    /// the amounts must cover the crew and add up to the damage taken.
    #[verifier::loop_isolation(false)]
    fn execute(&self, state: &GameState) -> (r: Update<GameState>)
        ensures
            match spec_confirm_health_distribution(state@, self.crew_damage@) {
                Ok(m) => r matches Ok(g) && g@ == m && (state.wf() ==> g.wf()),
                Err(e) => r == Update::<GameState>::Err(e),
            },
    {
        match state.phase() {
            GamePhase::ResolveEffectPhase(Effect::TakeHealthDamage(damage)) => {
                if self.crew_damage.len() != state.crew.len() {
                    proof {
                        assert(state.crew@.len() == state@.crew.len());
                    }
                    return Err(GameError::CrewIndex);
                }
                proof {
                    assert(state.crew@.len() == state@.crew.len());
                }

                // The amounts must add up to the pending damage.
                let mut total: u64 = 0;
                let mut i: usize = 0;
                proof {
                    assert(self.crew_damage@.take(0) =~= Seq::<u32>::empty());
                }
                while i < self.crew_damage.len()
                    invariant
                        i <= self.crew_damage@.len(),
                        total == spec_sum_damage(self.crew_damage@.take(i as int)),
                        total <= u32::MAX as u64,
                    decreases self.crew_damage@.len() - i,
                {
                    proof {
                        assert(self.crew_damage@.take(i as int + 1).drop_last()
                            =~= self.crew_damage@.take(i as int));
                        assert(self.crew_damage@.take(i as int + 1).last()
                            == self.crew_damage@[i as int]);
                    }
                    total = total + self.crew_damage[i] as u64;
                    i += 1;
                    if total > u32::MAX as u64 {
                        proof {
                            lemma_sum_damage_prefix(self.crew_damage@, i as int);
                        }
                        return Err(GameError::DamageMismatch);
                    }
                }
                proof {
                    assert(self.crew_damage@.take(self.crew_damage@.len() as int)
                        =~= self.crew_damage@);
                }
                if total != damage as u64 {
                    return Err(GameError::DamageMismatch);
                }

                // Each crew member takes its amount.
                let mut gs = state.clone();
                let mut k: usize = 0;
                while k < self.crew_damage.len()
                    invariant
                        k <= self.crew_damage@.len(),
                        gs@.crew.len() == state@.crew.len(),
                        gs@ == (GameStateModel { crew: gs@.crew, ..state@ }),
                        forall|j: int|
                            0 <= j < k ==> gs@.crew[j] == (CrewModel {
                                damage: spec_clamped_damage(
                                    state@.crew[j].damage,
                                    self.crew_damage@[j],
                                ),
                                ..state@.crew[j]
                            }),
                        forall|j: int| k <= j < gs@.crew.len() ==> gs@.crew[j] == state@.crew[j],
                        state.wf() ==> gs.wf(),
                    decreases self.crew_damage@.len() - k,
                {
                    proof {
                        assert(gs.crew@.len() == gs@.crew.len());
                        assert(gs.crew@[k as int]@ == gs@.crew[k as int]);
                    }
                    let amount = self.crew_damage[k];
                    let capped: i32 = if amount > i32::MAX as u32 {
                        i32::MAX
                    } else {
                        amount as i32
                    };
                    let hurt = match gs.crew[k].clone().change_damage(capped) {
                        Ok(c) => c,
                        Err(e) => {
                            return Err(e);
                        },
                    };
                    proof {
                        assert(hurt@.damage == spec_clamped_damage(
                            state@.crew[k as int].damage,
                            amount,
                        ));
                    }
                    gs = match gs.update_crew(k, hurt) {
                        Ok(g) => g,
                        Err(e) => {
                            return Err(e);
                        },
                    };
                    k += 1;
                }
                proof {
                    assert(gs@.crew =~= spec_distribute_damage(state@.crew, self.crew_damage@));
                }
                let r = gs.pop_phase();
                proof {
                    if state@.phase_stack.len() >= 2 {
                        assert(r.unwrap()@ =~= spec_confirm_health_distribution(
                            state@,
                            self.crew_damage@,
                        ).unwrap());
                    }
                }
                r
            },
            _ => Err(GameError::WrongPhase),
        }
    }
}

} // verus!
