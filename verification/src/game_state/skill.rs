//! The skill kinds a crew member can be tested on.

use vstd::prelude::*;

verus! {

/// A skill kind; every crew member holds a value for each kind.
#[derive(Clone, Copy, Debug, PartialEq, Eq, Hash, Structural)]
pub enum Skill {
    Savvy,
    Craft,
    Perception,
    Strength,
    Wits,
}

impl Skill {
    /// The name of the skill, as shown to the client.
    pub fn label(&self) -> String {
        match self {
            Skill::Savvy => "Savvy".to_owned(),
            Skill::Craft => "Craft".to_owned(),
            Skill::Perception => "Perception".to_owned(),
            Skill::Strength => "Strength".to_owned(),
            Skill::Wits => "Wits".to_owned(),
        }
    }
}

} // verus!
