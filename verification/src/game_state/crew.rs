//! Per-crew-member records: skills, fatigue, damage, statuses and
//! equipped ability cards.

use vstd::prelude::*;

use crate::error::GameError;
use crate::game_state::ability_card_deck::{AbilityCard, AbilityCardModel};
use crate::game_state::skill::Skill;
use crate::utils::{change_and_clamp, spec_change_and_clamp};

verus! {

/// Fatigue is clamped into `[0, MAX_FATIGUE]`.
pub const MAX_FATIGUE: u32 = 2;

/// Damage is clamped into `[0, MAX_DAMAGE]`.
pub const MAX_DAMAGE: u32 = 8;

/// A crew member may hold at most this many equipped ability cards.
pub const MAX_EQUIPPED_CARDS: usize = 2;

/// A condition tag; a crew member holds each at most once.
#[derive(Debug, Copy, PartialEq, Eq, Hash, Structural)]
pub enum Status {
    Venom,
    Frightened,
    Weakend,
    Madness,
    LowMorale,
}

impl Clone for Status {
    fn clone(&self) -> (r: Self)
        ensures
            r == *self,
    {
        *self
    }
}

/// The skill values of one crew member, one per skill kind.
#[derive(Clone, Copy, Debug, PartialEq, Eq, Structural)]
pub struct Skills {
    pub savvy: u32,
    pub craft: u32,
    pub strength: u32,
    pub wits: u32,
    pub perception: u32,
}

impl Skills {
    /// The value held for one skill kind.
    pub open spec fn spec_get(&self, skill: Skill) -> u32 {
        match skill {
            Skill::Savvy => self.savvy,
            Skill::Craft => self.craft,
            Skill::Strength => self.strength,
            Skill::Wits => self.wits,
            Skill::Perception => self.perception,
        }
    }

    /// The value held for one skill kind.
    #[verifier::when_used_as_spec(spec_get)]
    pub fn get(&self, skill: Skill) -> (r: u32)
        ensures
            r == self.spec_get(skill),
    {
        match skill {
            Skill::Savvy => self.savvy,
            Skill::Craft => self.craft,
            Skill::Strength => self.strength,
            Skill::Wits => self.wits,
            Skill::Perception => self.perception,
        }
    }
}

/// The mathematical content of a crew member.
#[verifier::ext_equal]
pub ghost struct CrewModel {
    pub name: Seq<char>,
    pub fatigue: u32,
    pub damage: u32,
    pub skills: Skills,
    pub status: Seq<Status>,
    pub equipped_ability_cards: Seq<AbilityCardModel>,
}

impl CrewModel {
    /// The record is well formed: both counters sit inside their clamped
    /// bands, no status is held twice, and at most two cards are equipped.
    pub open spec fn wf(&self) -> bool {
        &&& self.fatigue <= MAX_FATIGUE
        &&& self.damage <= MAX_DAMAGE
        &&& forall|i: int, j: int|
            #![trigger self.status[i], self.status[j]]
            0 <= i < j < self.status.len() ==> self.status[i] != self.status[j]
        &&& self.equipped_ability_cards.len() <= MAX_EQUIPPED_CARDS
    }
}

/// One crew member.
#[verifier::ext_equal]
pub struct Crew {
    pub name: String,
    pub fatigue: u32,
    pub damage: u32,
    pub skills: Skills,
    pub status: Vec<Status>,
    pub equipped_ability_cards: Vec<AbilityCard>,
}

impl View for Crew {
    type V = CrewModel;

    open spec fn view(&self) -> CrewModel {
        CrewModel {
            name: self.name@,
            fatigue: self.fatigue,
            damage: self.damage,
            skills: self.skills,
            status: self.status@,
            equipped_ability_cards: self.equipped_ability_cards.deep_view(),
        }
    }
}

impl DeepView for Crew {
    type V = CrewModel;

    open spec fn deep_view(&self) -> CrewModel {
        self.view()
    }
}

impl Clone for Crew {
    fn clone(&self) -> (r: Self)
        ensures
            r@ == self@,
    {
        let r = Crew {
            name: self.name.clone(),
            fatigue: self.fatigue,
            damage: self.damage,
            skills: self.skills,
            status: self.status.clone(),
            equipped_ability_cards: self.equipped_ability_cards.clone(),
        };
        proof {
            assert(r.status@ =~= self.status@);
            assert(r.equipped_ability_cards.deep_view() =~= self.equipped_ability_cards.deep_view());
            assert(r@ =~= self@);
        }
        r
    }
}

impl Crew {
    /// Whether the record is well formed (see [`CrewModel::wf`]).
    pub open spec fn wf(&self) -> bool {
        self@.wf()
    }

    /// A fresh, rested crew member with the given skill values.
    pub fn new(
        name: &str,
        savvy: u32,
        craft: u32,
        strength: u32,
        wits: u32,
        perception: u32,
    ) -> (r: Crew)
        ensures
            r@ == (CrewModel {
                name: name@,
                fatigue: 0,
                damage: 0,
                skills: Skills { savvy, craft, strength, wits, perception },
                status: Seq::<Status>::empty(),
                equipped_ability_cards: Seq::<AbilityCardModel>::empty(),
            }),
            r.wf(),
    {
        let r = Crew {
            name: name.to_owned(),
            fatigue: 0,
            damage: 0,
            skills: Skills { savvy, craft, strength, wits, perception },
            status: Vec::new(),
            equipped_ability_cards: Vec::new(),
        };
        proof {
            assert(r.equipped_ability_cards.deep_view() =~= Seq::<AbilityCardModel>::empty());
            assert(r@ =~= (CrewModel {
                name: name@,
                fatigue: 0,
                damage: 0,
                skills: Skills { savvy, craft, strength, wits, perception },
                status: Seq::<Status>::empty(),
                equipped_ability_cards: Seq::<AbilityCardModel>::empty(),
            }));
        }
        r
    }

    /// Adds a signed amount to the fatigue counter, clamped into
    /// `[0, MAX_FATIGUE]`; everything else is kept.
    pub fn change_fatigue(self, amount: i32) -> (r: Result<Crew, GameError>)
        ensures
            r matches Ok(c) && c@ == (CrewModel {
                fatigue: spec_change_and_clamp(self.fatigue, amount, 0, MAX_FATIGUE) as u32,
                ..self@
            }),
            r matches Ok(c) && (self.wf() ==> c.wf()),
    {
        let mut crew = self;
        crew.fatigue = change_and_clamp(crew.fatigue, amount, (0, MAX_FATIGUE));
        Ok(crew)
    }

    /// Adds a signed amount to the damage counter, clamped into
    /// `[0, MAX_DAMAGE]`; everything else is kept.
    pub fn change_damage(self, amount: i32) -> (r: Result<Crew, GameError>)
        ensures
            r matches Ok(c) && c@ == (CrewModel {
                damage: spec_change_and_clamp(self.damage, amount, 0, MAX_DAMAGE) as u32,
                ..self@
            }),
            r matches Ok(c) && (self.wf() ==> c.wf()),
    {
        let mut crew = self;
        crew.damage = change_and_clamp(crew.damage, amount, (0, MAX_DAMAGE));
        Ok(crew)
    }

    /// Equips an ability card; a third card is refused.
    pub fn equip_ability_card(self, card: AbilityCard) -> (r: Result<Crew, GameError>)
        ensures
            self.equipped_ability_cards@.len() >= MAX_EQUIPPED_CARDS ==> r == Result::<
                Crew,
                GameError,
            >::Err(GameError::AbilityCardLimit),
            self.equipped_ability_cards@.len() < MAX_EQUIPPED_CARDS ==> (r matches Ok(c) && c@
                == (CrewModel {
                equipped_ability_cards: self@.equipped_ability_cards.push(card@),
                ..self@
            })),
            match r {
                Ok(c) => self.wf() ==> c.wf(),
                Err(_) => true,
            },
    {
        let ghost orig = self;
        if self.equipped_ability_cards.len() >= MAX_EQUIPPED_CARDS {
            Err(GameError::AbilityCardLimit)
        } else {
            let mut crew = self;
            crew.equipped_ability_cards.push(card);
            proof {
                assert(crew.equipped_ability_cards.deep_view() =~= orig@.equipped_ability_cards.push(
                    card@,
                ));
            }
            Ok(crew)
        }
    }

    /// Adds a status condition; holding the same status twice is refused.
    pub fn add_status(self, status: Status) -> (r: Result<Crew, GameError>)
        ensures
            self.status@.contains(status) ==> r == Result::<Crew, GameError>::Err(
                GameError::DuplicateStatus,
            ),
            !self.status@.contains(status) ==> (r matches Ok(c) && c@ == (CrewModel {
                status: self@.status.push(status),
                ..self@
            })),
            match r {
                Ok(c) => self.wf() ==> c.wf(),
                Err(_) => true,
            },
    {
        if contains_status(&self.status, status) {
            Err(GameError::DuplicateStatus)
        } else {
            let mut crew = self;
            crew.status.push(status);
            Ok(crew)
        }
    }
}

/// Whether `status` already occurs in the list.
fn contains_status(list: &Vec<Status>, status: Status) -> (r: bool)
    ensures
        r == list@.contains(status),
{
    let mut i: usize = 0;
    while i < list.len()
        invariant
            0 <= i <= list@.len(),
            forall|j: int| 0 <= j < i ==> list@[j] != status,
        decreases list@.len() - i,
    {
        if list[i] == status {
            proof {
                assert(list@.contains(status));
            }
            return true;
        }
        i += 1;
    }
    false
}

} // verus!
