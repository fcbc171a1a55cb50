//! Ability cards and the pile the game starts with.

use vstd::prelude::*;

verus! {

/// The mathematical content of an ability card.
#[verifier::ext_equal]
pub ghost struct AbilityCardModel {
    pub name: Seq<char>,
    pub deck_ix: u32,
}

/// A card a player can hold in hand and a crew member can equip.
#[verifier::ext_equal]
pub struct AbilityCard {
    pub name: String,
    pub deck_ix: u32,
}

impl View for AbilityCard {
    type V = AbilityCardModel;

    open spec fn view(&self) -> AbilityCardModel {
        AbilityCardModel { name: self.name@, deck_ix: self.deck_ix }
    }
}

impl DeepView for AbilityCard {
    type V = AbilityCardModel;

    open spec fn deep_view(&self) -> AbilityCardModel {
        self.view()
    }
}

impl Clone for AbilityCard {
    fn clone(&self) -> (r: Self)
        ensures
            r == *self,
    {
        AbilityCard { name: self.name.clone(), deck_ix: self.deck_ix }
    }
}

impl Default for AbilityCard {
    /// A blank card.
    fn default() -> (r: Self)
        ensures
            r@ == (AbilityCardModel { name: Seq::<char>::empty(), deck_ix: 0 }),
    {
        AbilityCard { name: String::new(), deck_ix: 0 }
    }
}

impl AbilityCard {
    /// A named card with its position in the printed deck.
    pub fn new(name: &str, deck_ix: u32) -> (r: Self)
        ensures
            r@ == (AbilityCardModel { name: name@, deck_ix }),
    {
        AbilityCard { name: name.to_owned(), deck_ix }
    }
}

/// The view of the filler card the starting pile is padded with.
pub open spec fn spec_filler_card() -> AbilityCardModel {
    AbilityCardModel { name: "SomeCard"@, deck_ix: 1 }
}

/// The views of the cards the starting ability pile holds, bottom first:
/// one hundred filler cards below the three named cards.
pub open spec fn spec_starting_ability_cards() -> Seq<AbilityCardModel> {
    Seq::new(100, |i: int| spec_filler_card()).push(
        AbilityCardModel { name: "Triage"@, deck_ix: 1 },
    ).push(AbilityCardModel { name: "Focused Mind"@, deck_ix: 2 }).push(
        AbilityCardModel { name: "Counsel"@, deck_ix: 3 },
    )
}

/// The pile of ability cards the game starts with.
pub fn ability_card_deck() -> (r: Vec<AbilityCard>)
    ensures
        r.deep_view() == spec_starting_ability_cards(),
{
    let mut deck: Vec<AbilityCard> = Vec::new();
    let mut i: usize = 0;
    while i < 100
        invariant
            i <= 100,
            deck@.len() == i,
            forall|j: int| 0 <= j < i ==> (#[trigger] deck@[j])@ == spec_filler_card(),
        decreases 100 - i,
    {
        deck.push(AbilityCard::new("SomeCard", 1));
        i += 1;
    }
    deck.push(AbilityCard::new("Triage", 1));
    deck.push(AbilityCard::new("Focused Mind", 2));
    deck.push(AbilityCard::new("Counsel", 3));
    proof {
        assert(deck.deep_view() =~= spec_starting_ability_cards());
    }
    deck
}

} // verus!
