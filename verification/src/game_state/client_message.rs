//! One-shot notifications queued for the client.

use vstd::prelude::*;

verus! {

/// The mathematical content of a card reference sent to the client.
#[verifier::ext_equal]
pub ghost struct SerialCardModel {
    pub label: Seq<char>,
    pub deck: Seq<char>,
    pub index: u32,
}

/// A card reference as shown to the client: its label, which deck it
/// came from, and its position in that printed deck.
#[verifier::ext_equal]
pub struct SerialCard {
    pub label: String,
    pub deck: String,
    pub index: u32,
}

impl View for SerialCard {
    type V = SerialCardModel;

    open spec fn view(&self) -> SerialCardModel {
        SerialCardModel { label: self.label@, deck: self.deck@, index: self.index }
    }
}

impl DeepView for SerialCard {
    type V = SerialCardModel;

    open spec fn deep_view(&self) -> SerialCardModel {
        self.view()
    }
}

impl Clone for SerialCard {
    fn clone(&self) -> (r: Self)
        ensures
            r == *self,
    {
        SerialCard { label: self.label.clone(), deck: self.deck.clone(), index: self.index }
    }
}

/// The mathematical content of a pending notification.
#[verifier::ext_equal]
pub ghost enum ClientMessageModel {
    GainCommandPoints { amount: u32 },
    DrewAbilityCard { card: SerialCardModel },
    DrewFate { result: u32 },
    ModifierTriggered { text: Seq<char>, card: SerialCardModel },
}

/// A pending one-shot notification, consumed by an explicit accept
/// command.
pub enum ClientMessage {
    GainCommandPoints { amount: u32 },
    DrewAbilityCard { card: SerialCard },
    DrewFate { result: u32 },
    ModifierTriggered { text: String, card: SerialCard },
}

impl View for ClientMessage {
    type V = ClientMessageModel;

    open spec fn view(&self) -> ClientMessageModel {
        match self {
            ClientMessage::GainCommandPoints { amount } => ClientMessageModel::GainCommandPoints {
                amount: *amount,
            },
            ClientMessage::DrewAbilityCard { card } => ClientMessageModel::DrewAbilityCard {
                card: card@,
            },
            ClientMessage::DrewFate { result } => ClientMessageModel::DrewFate { result: *result },
            ClientMessage::ModifierTriggered { text, card } => ClientMessageModel::ModifierTriggered {
                text: text@,
                card: card@,
            },
        }
    }
}

impl DeepView for ClientMessage {
    type V = ClientMessageModel;

    open spec fn deep_view(&self) -> ClientMessageModel {
        self.view()
    }
}

impl Clone for ClientMessage {
    fn clone(&self) -> (r: Self)
        ensures
            r@ == self@,
    {
        match self {
            ClientMessage::GainCommandPoints { amount } => ClientMessage::GainCommandPoints {
                amount: *amount,
            },
            ClientMessage::DrewAbilityCard { card } => ClientMessage::DrewAbilityCard {
                card: card.clone(),
            },
            ClientMessage::DrewFate { result } => ClientMessage::DrewFate { result: *result },
            ClientMessage::ModifierTriggered { text, card } => ClientMessage::ModifierTriggered {
                text: text.clone(),
                card: card.clone(),
            },
        }
    }
}

} // verus!
