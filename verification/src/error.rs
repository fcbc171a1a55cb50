//! The error taxonomy of the engine.
//!
//! Every failure is terminal and reported to the caller; nothing is
//! retried inside the engine and no error partially mutates a state.

use vstd::prelude::*;

verus! {

/// Why a command or a state-update helper was rejected.
#[derive(Clone, Copy, Debug, PartialEq, Eq, Structural)]
pub enum GameError {
    /// The command was issued while the top of the phase stack does not
    /// match the phase the command is valid in.
    WrongPhase,
    /// A ship room cannot be visited twice in a row.
    SameRoom,
    /// The chosen ship room has no action attached to it.
    RoomNotSupported,
    /// A player index was out of range.
    PlayerIndex,
    /// A crew index was out of range.
    CrewIndex,
    /// A hand-card index was out of range.
    CardIndex,
    /// A crew member may hold at most two equipped ability cards.
    AbilityCardLimit,
    /// A status condition may be held at most once per crew member.
    DuplicateStatus,
    /// A draw was attempted while both the draw and the discard pile
    /// were empty.
    DeckExhausted,
    /// Popping the phase stack would leave it empty.
    NoPhaseToPop,
    /// The requested story node does not exist in the storybook.
    StoryNotFound,
    /// The requested area does not exist in the map data.
    AreaNotFound,
    /// The requested quest keyword does not exist.
    QuestNotFound,
    /// No drawn search token carries the requested id.
    TokenNotFound,
    /// Choosing a token requires at least one token drawn beforehand.
    MustDrawToken,
    /// At most three search tokens may be drawn.
    TokenLimit,
    /// The turn cannot end before both main actions were taken.
    NotEnoughActions,
    /// The distributed damage does not add up to the damage taken.
    DamageMismatch,
    /// A ship cannot travel to the area it already lies in.
    SameArea,
    /// The turn cannot end while another phase is being resolved.
    CannotEndTurn,
    /// An option index was out of range.
    OptionIndex,
    /// The chosen story option is currently disabled.
    OptionDisabled,
}

impl GameError {
    /// The human-readable message relayed to the client.
    pub open spec fn spec_message(&self) -> Seq<char> {
        match self {
            GameError::WrongPhase => "Wrong phase"@,
            GameError::SameRoom => "You cannot visit the same room twice"@,
            GameError::RoomNotSupported => "Not implemented"@,
            GameError::PlayerIndex => "Player does not exist"@,
            GameError::CrewIndex => "invalid crew ix"@,
            GameError::CardIndex => "this card does not exist in the players hand"@,
            GameError::AbilityCardLimit => "Ability card limit"@,
            GameError::DuplicateStatus => "You can't have more than one of that status"@,
            GameError::DeckExhausted => "No items left in the deck"@,
            GameError::NoPhaseToPop => "No phase to pop"@,
            GameError::StoryNotFound => "Story not implemented yet."@,
            GameError::AreaNotFound => "Area not found"@,
            GameError::QuestNotFound => "Quest not found"@,
            GameError::TokenNotFound => "Couldn't find token id"@,
            GameError::MustDrawToken => "You must draw at least 1 token"@,
            GameError::TokenLimit => "You may only draw 3 tokens"@,
            GameError::NotEnoughActions => "Haven't done 2 actions yet"@,
            GameError::DamageMismatch => "You must allocate all damage"@,
            GameError::SameArea => "You can't move to the same area"@,
            GameError::CannotEndTurn => "You can't end the turn yet"@,
            GameError::OptionIndex => "Option does not exist"@,
            GameError::OptionDisabled => "Option is disabled"@,
        }
    }

    /// The human-readable message relayed to the client.
    pub fn message(&self) -> (r: String)
        ensures
            r@ == self.spec_message(),
    {
        match self {
            GameError::WrongPhase => "Wrong phase".to_owned(),
            GameError::SameRoom => "You cannot visit the same room twice".to_owned(),
            GameError::RoomNotSupported => "Not implemented".to_owned(),
            GameError::PlayerIndex => "Player does not exist".to_owned(),
            GameError::CrewIndex => "invalid crew ix".to_owned(),
            GameError::CardIndex => "this card does not exist in the players hand".to_owned(),
            GameError::AbilityCardLimit => "Ability card limit".to_owned(),
            GameError::DuplicateStatus => {
                "You can't have more than one of that status".to_owned()
            },
            GameError::DeckExhausted => "No items left in the deck".to_owned(),
            GameError::NoPhaseToPop => "No phase to pop".to_owned(),
            GameError::StoryNotFound => "Story not implemented yet.".to_owned(),
            GameError::AreaNotFound => "Area not found".to_owned(),
            GameError::QuestNotFound => "Quest not found".to_owned(),
            GameError::TokenNotFound => "Couldn't find token id".to_owned(),
            GameError::MustDrawToken => "You must draw at least 1 token".to_owned(),
            GameError::TokenLimit => "You may only draw 3 tokens".to_owned(),
            GameError::NotEnoughActions => "Haven't done 2 actions yet".to_owned(),
            GameError::DamageMismatch => "You must allocate all damage".to_owned(),
            GameError::SameArea => "You can't move to the same area".to_owned(),
            GameError::CannotEndTurn => "You can't end the turn yet".to_owned(),
            GameError::OptionIndex => "Option does not exist".to_owned(),
            GameError::OptionDisabled => "Option is disabled".to_owned(),
        }
    }
}

} // verus!
