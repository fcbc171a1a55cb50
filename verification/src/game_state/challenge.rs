//! A skill check with success and failure effect branches.

use vstd::prelude::*;

use crate::game_state::effect::{challenge_view, ChallengeModel, Effect};
use crate::game_state::skill::Skill;

verus! {

/// A skill check: the crew's summed skill value (plus a situational
/// bonus) must reach `amount` for the success branch to fire.
pub struct Challenge {
    pub skill: Skill,
    pub amount: u32,
    pub label: String,
    pub if_fail: Vec<Effect>,
    pub if_succeed: Vec<Effect>,
}

impl View for Challenge {
    type V = ChallengeModel;

    open spec fn view(&self) -> ChallengeModel {
        challenge_view(self)
    }
}

impl DeepView for Challenge {
    type V = ChallengeModel;

    open spec fn deep_view(&self) -> ChallengeModel {
        challenge_view(self)
    }
}

impl Default for Challenge {
    /// A trivial craft check with no effects attached.
    fn default() -> (r: Self)
        ensures
            r@ == (ChallengeModel {
                skill: Skill::Craft,
                amount: 0,
                label: Seq::<char>::empty(),
                if_fail: Seq::empty(),
                if_succeed: Seq::empty(),
            }),
    {
        let r = Challenge {
            skill: Skill::Craft,
            amount: 0,
            label: String::new(),
            if_fail: Vec::new(),
            if_succeed: Vec::new(),
        };
        proof {
            assert(r@ =~~= (ChallengeModel {
                skill: Skill::Craft,
                amount: 0,
                label: Seq::<char>::empty(),
                if_fail: Seq::empty(),
                if_succeed: Seq::empty(),
            }));
        }
        r
    }
}

} // verus!
