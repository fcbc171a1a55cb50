//! Quest keywords handed out by story effects.

use vstd::prelude::*;

use crate::error::GameError;

verus! {

/// The mathematical content of an acquired quest.
#[verifier::ext_equal]
pub ghost struct QuestModel {
    pub index: u32,
    pub keyword: Seq<char>,
}

/// A quest the players acquired: its index and its keyword.
#[verifier::ext_equal]
pub struct Quest {
    pub index: u32,
    pub keyword: String,
}

impl View for Quest {
    type V = QuestModel;

    open spec fn view(&self) -> QuestModel {
        QuestModel { index: self.index, keyword: self.keyword@ }
    }
}

impl DeepView for Quest {
    type V = QuestModel;

    open spec fn deep_view(&self) -> QuestModel {
        self.view()
    }
}

impl Clone for Quest {
    fn clone(&self) -> (r: Self)
        ensures
            r == *self,
    {
        Quest { index: self.index, keyword: self.keyword.clone() }
    }
}

/// The keyword of the quest at `index`, when one exists.
pub open spec fn spec_quest(index: u32) -> Option<Seq<char>> {
    if index == 155 {
        Some("PINK"@)
    } else {
        None
    }
}

/// The keyword of the quest at `index`; unknown indices are reported
/// rather than trusted to exist.
pub fn get_quest(index: u32) -> (r: Result<String, GameError>)
    ensures
        match r {
            Ok(keyword) => spec_quest(index) == Some(keyword@),
            Err(e) => e == GameError::QuestNotFound && spec_quest(index) is None,
        },
{
    if index == 155 {
        Ok("PINK".to_owned())
    } else {
        Err(GameError::QuestNotFound)
    }
}

} // verus!
