//! Narrative nodes ("stories") and the book that maps node indices to
//! them.
//!
//! Only the shape of a story matters to the engine: its text, its
//! keyword links, its options and the effect lists hanging off them.

use vstd::prelude::*;

use crate::error::GameError;
use crate::game_state::effect::{clone_effects, effects_seq_view, Effect, EffectModel};

verus! {

/// The mathematical content of a story option.
#[verifier::ext_equal]
pub ghost struct StoryOptionModel {
    pub text: Seq<char>,
    pub effects: Seq<EffectModel>,
}

/// One option offered at a narrative node.
pub struct StoryOption {
    pub text: String,
    pub effects: Vec<Effect>,
}

impl View for StoryOption {
    type V = StoryOptionModel;

    open spec fn view(&self) -> StoryOptionModel {
        StoryOptionModel { text: self.text@, effects: effects_seq_view(self.effects@) }
    }
}

impl DeepView for StoryOption {
    type V = StoryOptionModel;

    open spec fn deep_view(&self) -> StoryOptionModel {
        self.view()
    }
}

impl Clone for StoryOption {
    fn clone(&self) -> (r: Self)
        ensures
            r@ == self@,
    {
        let r = StoryOption { text: self.text.clone(), effects: clone_effects(&self.effects) };
        proof {
            assert(r@ =~~= self@);
        }
        r
    }
}

impl StoryOption {
    /// Whether the option is currently closed to the players; a hook for
    /// content that gates options, which no present story uses.
    pub fn disabled(&self) -> (r: bool)
        ensures
            r == false,
    {
        false
    }
}

/// The mathematical content of a story.
#[verifier::ext_equal]
pub ghost struct StoryModel {
    pub main_text: Seq<char>,
    pub keyword_links: Seq<(Seq<char>, Seq<char>)>,
    pub options: Seq<StoryOptionModel>,
    pub effects: Seq<EffectModel>,
}

/// One narrative node.
pub struct Story {
    pub main_text: String,
    /// Keyword to follow-up node labels, as printed in the book.
    pub keyword_links: Vec<(String, String)>,
    pub options: Vec<StoryOption>,
    pub effects: Vec<Effect>,
}

impl View for Story {
    type V = StoryModel;

    open spec fn view(&self) -> StoryModel {
        StoryModel {
            main_text: self.main_text@,
            keyword_links: self.keyword_links.deep_view(),
            options: self.options.deep_view(),
            effects: effects_seq_view(self.effects@),
        }
    }
}

impl DeepView for Story {
    type V = StoryModel;

    open spec fn deep_view(&self) -> StoryModel {
        self.view()
    }
}

impl Clone for Story {
    fn clone(&self) -> (r: Self)
        ensures
            r@ == self@,
    {
        let mut keyword_links: Vec<(String, String)> = Vec::new();
        let mut i: usize = 0;
        while i < self.keyword_links.len()
            invariant
                i <= self.keyword_links@.len(),
                keyword_links@.len() == i,
                forall|j: int|
                    0 <= j < i ==> (#[trigger] keyword_links@[j]).deep_view()
                        == self.keyword_links@[j].deep_view(),
            decreases self.keyword_links@.len() - i,
        {
            let link = &self.keyword_links[i];
            keyword_links.push((link.0.clone(), link.1.clone()));
            i += 1;
        }
        let mut options: Vec<StoryOption> = Vec::new();
        let mut i: usize = 0;
        while i < self.options.len()
            invariant
                i <= self.options@.len(),
                options@.len() == i,
                forall|j: int| 0 <= j < i ==> (#[trigger] options@[j])@ == self.options@[j]@,
            decreases self.options@.len() - i,
        {
            options.push(self.options[i].clone());
            i += 1;
        }
        let r = Story {
            main_text: self.main_text.clone(),
            keyword_links,
            options,
            effects: clone_effects(&self.effects),
        };
        proof {
            assert(r.keyword_links.deep_view() =~= self.keyword_links.deep_view());
            assert(r.options.deep_view() =~= self.options.deep_view());
            assert(r@ =~~= self@);
        }
        r
    }
}

impl Story {
    /// The option at `ix`, or `None` when the story has no such option.
    pub fn get_option(&self, ix: usize) -> (r: Option<&StoryOption>)
        ensures
            ix < self@.options.len() ==> (r matches Some(option) && option@ == self@.options[
                ix as int
            ]),
            ix >= self@.options.len() ==> r is None,
    {
        if ix < self.options.len() {
            Some(&self.options[ix])
        } else {
            None
        }
    }
}

/// Looks a story index up among the book's entries, front to back.
pub open spec fn spec_lookup_story(stories: Seq<(u32, StoryModel)>, ix: u32) -> Option<StoryModel>
    decreases stories.len(),
{
    if stories.len() == 0 {
        None
    } else if stories.first().0 == ix {
        Some(stories.first().1)
    } else {
        spec_lookup_story(stories.drop_first(), ix)
    }
}

/// The book of narrative nodes, keyed by story index.
pub struct Storybook {
    pub stories: Vec<(u32, Story)>,
}

impl View for Storybook {
    type V = Seq<(u32, StoryModel)>;

    open spec fn view(&self) -> Seq<(u32, StoryModel)> {
        self.stories.deep_view()
    }
}

impl DeepView for Storybook {
    type V = Seq<(u32, StoryModel)>;

    open spec fn deep_view(&self) -> Seq<(u32, StoryModel)> {
        self.stories.deep_view()
    }
}

impl Clone for Storybook {
    fn clone(&self) -> (r: Self)
        ensures
            r@ == self@,
    {
        let mut stories: Vec<(u32, Story)> = Vec::new();
        let mut i: usize = 0;
        while i < self.stories.len()
            invariant
                i <= self.stories@.len(),
                stories@.len() == i,
                forall|j: int|
                    0 <= j < i ==> (#[trigger] stories@[j]).deep_view()
                        == self.stories@[j].deep_view(),
            decreases self.stories@.len() - i,
        {
            let entry = &self.stories[i];
            stories.push((entry.0, entry.1.clone()));
            i += 1;
        }
        let r = Storybook { stories };
        proof {
            assert(r@ =~= self@);
        }
        r
    }
}

impl Storybook {
    /// The story a port leads to; ports share the index space of story
    /// nodes.
    pub fn port_story(&self, port: u32) -> (r: Result<&Story, GameError>)
        ensures
            match r {
                Ok(story) => spec_lookup_story(self@, port) == Some(story@),
                Err(e) => e == GameError::StoryNotFound && spec_lookup_story(self@, port)
                    is None,
            },
    {
        self.story(port)
    }

    /// The story at a node index, or a not-found error.
    pub fn story(&self, story_ix: u32) -> (r: Result<&Story, GameError>)
        ensures
            match r {
                Ok(story) => spec_lookup_story(self@, story_ix) == Some(story@),
                Err(e) => e == GameError::StoryNotFound && spec_lookup_story(self@, story_ix)
                    is None,
            },
    {
        proof {
            assert(self@.skip(0) =~= self@);
        }
        let mut i: usize = 0;
        while i < self.stories.len()
            invariant
                i <= self.stories@.len(),
                self@.len() == self.stories@.len(),
                spec_lookup_story(self@, story_ix) == spec_lookup_story(
                    self@.skip(i as int),
                    story_ix,
                ),
            decreases self.stories@.len() - i,
        {
            proof {
                assert(self@.skip(i as int).first() == self@[i as int]);
                assert(self@.skip(i as int).drop_first() =~= self@.skip(i as int + 1));
            }
            if self.stories[i].0 == story_ix {
                return Ok(&self.stories[i].1);
            }
            i += 1;
        }
        proof {
            assert(self@.skip(i as int).len() == 0);
        }
        Err(GameError::StoryNotFound)
    }
}


/// The mathematical content of the cave story.
pub open spec fn spec_story2() -> StoryModel {
    StoryModel {
        main_text: " Seafoam winds through a maze of mossy rocks on the cave floor. They brush the heel of a smiling skeleton which sits reclined against an old iron door, blood red with rust. <br> <span class='storybook_bold'>You find a skeleton against an iron door at the back of a cave.</span> "@,
        keyword_links: Seq::empty(),
        options: seq![
            StoryOptionModel {
                text: "Search the skeleton."@,
                effects: seq![EffectModel::TurnToStory(133)],
            },
            StoryOptionModel { text: "Leave"@, effects: seq![EffectModel::ReturnToShip] },
        ],
        effects: Seq::empty(),
    }
}

/// The cave story: a skeleton against an iron door.
pub fn story2() -> (r: Story)
    ensures
        r@ == spec_story2(),
{
    let mut option_a_effects: Vec<Effect> = Vec::new();
    option_a_effects.push(Effect::TurnToStory(133));
    let a = StoryOption { text: "Search the skeleton.".to_owned(), effects: option_a_effects };
    let mut option_c_effects: Vec<Effect> = Vec::new();
    option_c_effects.push(Effect::ReturnToShip);
    let c = StoryOption { text: "Leave".to_owned(), effects: option_c_effects };

    let mut options: Vec<StoryOption> = Vec::new();
    options.push(a);
    options.push(c);

    let r = Story {
        main_text:
            " Seafoam winds through a maze of mossy rocks on the cave floor. They brush the heel of a smiling skeleton which sits reclined against an old iron door, blood red with rust. <br> <span class='storybook_bold'>You find a skeleton against an iron door at the back of a cave.</span> ".to_owned(),
        keyword_links: Vec::new(),
        options,
        effects: Vec::new(),
    };
    proof {
        reveal_with_fuel(effects_seq_view, 4);
        assert(r.keyword_links.deep_view() =~= Seq::<(Seq<char>, Seq<char>)>::empty());
        assert(r@ =~~= spec_story2());
    }
    r
}

/// The mathematical content of the trader-camp story.
pub open spec fn spec_story3() -> StoryModel {
    StoryModel {
        main_text: "The quiet shore is lined with fir trees, their border thick but penetrable. Within the forest lies an encampment of Pann traders with hair like polished Platinum<br> <span class='storybook_bold'>You find a camp of Pann traders.</span> <i>Draw 7 market cards. You may buy any of them. You may use material as coins when you are purchasing these cards. Return to the ship."@,
        keyword_links: seq![("SHELL"@, "3.11"@), ("MIGHT"@, "3.12"@)],
        options: Seq::empty(),
        effects: seq![EffectModel::ReturnToShip],
    }
}

/// The trader-camp story.
pub fn story3() -> (r: Story)
    ensures
        r@ == spec_story3(),
{
    let mut links: Vec<(String, String)> = Vec::new();
    links.push(("SHELL".to_owned(), "3.11".to_owned()));
    links.push(("MIGHT".to_owned(), "3.12".to_owned()));

    let mut effects: Vec<Effect> = Vec::new();
    effects.push(Effect::ReturnToShip);

    let r = Story {
        main_text:
            "The quiet shore is lined with fir trees, their border thick but penetrable. Within the forest lies an encampment of Pann traders with hair like polished Platinum<br> <span class='storybook_bold'>You find a camp of Pann traders.</span> <i>Draw 7 market cards. You may buy any of them. You may use material as coins when you are purchasing these cards. Return to the ship.".to_owned(),
        keyword_links: links,
        options: Vec::new(),
        effects,
    };
    proof {
        reveal_with_fuel(effects_seq_view, 4);
        assert(r.keyword_links.deep_view() =~= spec_story3().keyword_links);
        assert(r@ =~~= spec_story3());
    }
    r
}

/// The mathematical content of the snake story.
pub open spec fn spec_story133() -> StoryModel {
    StoryModel {
        main_text: "A bag falls slack from the skeleton's fingers. You expect to collect it easily, but a snake with a milk-pink mouth hisses out and fastens to your hand. You whip it by the tail against the wet wall of the cave. <span class='storybook_bold'>A snake attacks you as you take the skeleton's bag.</span> <i> -1 health. Gain 4 coins and 1 venom. Gain quest 155. Return to the ship </i> "@,
        keyword_links: Seq::empty(),
        options: Seq::empty(),
        effects: seq![
            EffectModel::ReturnToShip,
            EffectModel::TakeHealthDamage(1),
            EffectModel::TakeStatus(crate::game_state::crew::Status::Venom),
            EffectModel::GainResource(crate::game_state::Resource::Coin, 4),
        ],
    }
}

/// The snake story: looting the skeleton costs health and venom.
pub fn story133() -> (r: Story)
    ensures
        r@ == spec_story133(),
{
    let mut effects: Vec<Effect> = Vec::new();
    effects.push(Effect::ReturnToShip);
    effects.push(Effect::TakeHealthDamage(1));
    effects.push(Effect::TakeStatus(crate::game_state::crew::Status::Venom));
    effects.push(Effect::GainResource(crate::game_state::Resource::Coin, 4));

    let r = Story {
        main_text:
            "A bag falls slack from the skeleton's fingers. You expect to collect it easily, but a snake with a milk-pink mouth hisses out and fastens to your hand. You whip it by the tail against the wet wall of the cave. <span class='storybook_bold'>A snake attacks you as you take the skeleton's bag.</span> <i> -1 health. Gain 4 coins and 1 venom. Gain quest 155. Return to the ship </i> ".to_owned(),
        keyword_links: Vec::new(),
        options: Vec::new(),
        effects,
    };
    proof {
        reveal_with_fuel(effects_seq_view, 6);
        assert(r.keyword_links.deep_view() =~= Seq::<(Seq<char>, Seq<char>)>::empty());
        assert(r@ =~~= spec_story133());
    }
    r
}

/// The views of the book's entries the game starts with.
pub open spec fn spec_default_storybook() -> Seq<(u32, StoryModel)> {
    seq![(2u32, spec_story2()), (133u32, spec_story133())]
}

impl Default for Storybook {
    /// The storybook the game starts with.
    fn default() -> (r: Self)
        ensures
            r@ == spec_default_storybook(),
    {
        let mut stories: Vec<(u32, Story)> = Vec::new();
        stories.push((2, story2()));
        stories.push((133, story133()));
        let r = Storybook { stories };
        proof {
            assert(r@ =~~= spec_default_storybook());
        }
        r
    }
}

} // verus!
