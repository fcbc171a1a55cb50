//! The aggregate game state and its update helpers.
//!
//! Every transition produces a brand-new state snapshot; a handler that
//! fails returns an error and the caller keeps the original snapshot.

use vstd::prelude::*;

pub mod ability_card_deck;
pub mod action;
pub mod challenge;
pub mod client_message;
pub mod crew;
pub mod deck;
pub mod effect;
pub mod event_deck;
pub mod game_phase;
pub mod map;
pub mod market;
pub mod modifier;
pub mod player;
pub mod quest;
pub mod skill;
pub mod storybook;

use crate::error::GameError;
use crate::Update;

use self::ability_card_deck::{
    ability_card_deck, spec_starting_ability_cards, AbilityCard, AbilityCardModel,
};
use self::challenge::Challenge;
use self::client_message::{ClientMessage, ClientMessageModel, SerialCard, SerialCardModel};
use self::crew::{Crew, CrewModel, Skills};
use self::deck::{spec_draw, Deck, DeckModel};
use self::effect::{
    clone_one_effect, effect_view, effects_seq_view, resolve_effects, spec_resolve_effects,
    Effect, EffectModel, ModifierModel,
};
use self::event_deck::{spec_starting_event_cards, EventCard, EventCardModel};
use self::game_phase::{GamePhase, GamePhaseModel};
use self::map::{spec_default_map_data, GameMap, GameMapModel, MapData};
use self::market::{spec_starting_market_cards, MarketCard};
use self::modifier::{Modifier, ModifierLifetime};
use self::player::{Player, PlayerModel};
use self::quest::{get_quest, spec_quest, Quest, QuestModel};
use self::storybook::{spec_default_storybook, Storybook};

verus! {

/// A resource kind tracked by the ship's ledger.
#[derive(Clone, Copy, Debug, PartialEq, Eq, Hash, Structural)]
pub enum Resource {
    Coin,
    Meat,
}

/// A room of the ship a ship action can be taken in.
#[derive(Clone, Copy, Debug, PartialEq, Eq, Structural)]
pub enum ShipRoom {
    Galley,
    Bridge,
    Deck,
    Quarters,
    Sickbay,
    NoRoom,
}

/// A search token drawn during the deck action, carrying its printed id.
#[derive(Debug, Copy, PartialEq, Eq, Structural)]
pub struct SearchToken(pub u32);

impl Clone for SearchToken {
    fn clone(&self) -> (r: Self)
        ensures
            r == *self,
    {
        *self
    }
}

impl View for SearchToken {
    type V = SearchToken;

    open spec fn view(&self) -> SearchToken {
        *self
    }
}

impl DeepView for SearchToken {
    type V = SearchToken;

    open spec fn deep_view(&self) -> SearchToken {
        *self
    }
}

/// The ship's ledger: one non-negative count per resource kind.
#[derive(Clone, Copy, Debug, PartialEq, Eq, Structural)]
pub struct Resources {
    pub coin: u32,
    pub meat: u32,
}

impl Resources {
    /// The count held of one resource kind.
    pub open spec fn spec_get(&self, resource: Resource) -> u32 {
        match resource {
            Resource::Coin => self.coin,
            Resource::Meat => self.meat,
        }
    }

    /// The count held of one resource kind.
    #[verifier::when_used_as_spec(spec_get)]
    pub fn get(&self, resource: Resource) -> (r: u32)
        ensures
            r == self.spec_get(resource),
    {
        match resource {
            Resource::Coin => self.coin,
            Resource::Meat => self.meat,
        }
    }

    /// The ledger with one count replaced.
    pub open spec fn spec_set(&self, resource: Resource, count: u32) -> Resources {
        match resource {
            Resource::Coin => Resources { coin: count, ..*self },
            Resource::Meat => Resources { meat: count, ..*self },
        }
    }
}

/// The ledger after gaining (or, negative, losing) an amount of one
/// resource: a loss clamps at zero rather than failing, a gain saturates
/// at the counter's width.
pub open spec fn spec_gain(r: Resources, resource: Resource, amount: i32) -> Resources {
    let changed = r.spec_get(resource) + amount;
    let clamped = if changed < 0 {
        0
    } else if changed > u32::MAX {
        u32::MAX as int
    } else {
        changed
    };
    r.spec_set(resource, clamped as u32)
}

/// A `u32` sum that saturates at the counter's width.
pub open spec fn spec_saturating_add(a: u32, b: u32) -> u32 {
    if a + b > u32::MAX {
        u32::MAX
    } else {
        (a + b) as u32
    }
}


/// One card drawn into a player's hand: the top of the ability deck
/// moves into the hand and the notification is queued; `None` when the
/// deck is exhausted.
pub open spec fn spec_draw_one_card(s: GameStateModel, player_ix: int) -> Option<GameStateModel> {
    match spec_draw(s.ability_deck.items, s.ability_deck.discard) {
        None => None,
        Some((items2, discard2, card)) => Some(
            GameStateModel {
                ability_deck: DeckModel { items: items2, discard: discard2 },
                players: s.players.update(
                    player_ix,
                    PlayerModel {
                        hand: s.players[player_ix].hand.push(card),
                        ..s.players[player_ix]
                    },
                ),
                message_queue: s.message_queue.push(
                    ClientMessageModel::DrewAbilityCard {
                        card: SerialCardModel {
                            label: card.name,
                            deck: "ability_card_deck"@,
                            index: card.deck_ix,
                        },
                    },
                ),
                ..s
            },
        ),
    }
}

/// `amount` cards drawn one after the other; `None` when the deck runs
/// out during the run.
pub open spec fn spec_draw_cards(s: GameStateModel, player_ix: int, amount: nat) -> Option<
    GameStateModel,
>
    decreases amount,
{
    if amount == 0 {
        Some(s)
    } else {
        match spec_draw_one_card(s, player_ix) {
            None => None,
            Some(s2) => spec_draw_cards(s2, player_ix, (amount - 1) as nat),
        }
    }
}


/// The value every fate draw currently produces; the rules text leaves
/// true randomness open, so the draw is a fixed stub.
pub const FATE_RESULT: u32 = 2;

/// The modifiers that fire on a fate draw of `value`, in registration
/// order.
pub open spec fn spec_triggered_modifiers(
    modifiers: Seq<ModifierModel>,
    value: u32,
) -> Seq<ModifierModel>
    decreases modifiers.len(),
{
    if modifiers.len() == 0 {
        Seq::empty()
    } else {
        let front = spec_triggered_modifiers(modifiers.drop_last(), value);
        if modifiers.last().trigger.spec_matches_fate(value) {
            front.push(modifiers.last())
        } else {
            front
        }
    }
}

/// The trigger messages of a run of modifiers, in order.
pub open spec fn spec_trigger_texts(modifiers: Seq<ModifierModel>) -> Seq<ClientMessageModel>
    decreases modifiers.len(),
{
    if modifiers.len() == 0 {
        Seq::empty()
    } else {
        spec_trigger_texts(modifiers.drop_last()).push(modifiers.last().trigger_text)
    }
}

/// The effects of a run of modifiers, in order.
pub open spec fn spec_modifier_effects(modifiers: Seq<ModifierModel>) -> Seq<EffectModel>
    decreases modifiers.len(),
{
    if modifiers.len() == 0 {
        Seq::empty()
    } else {
        spec_modifier_effects(modifiers.drop_last()).push(modifiers.last().effect)
    }
}

/// What a fate draw does: every triggered modifier queues its message
/// (in registration order), the draw's own message is queued after
/// them, and the triggered modifiers' effects are folded into the
/// state before the primary action goes on.
pub open spec fn spec_draw_fate(s: GameStateModel) -> Result<GameStateModel, GameError> {
    let triggered = spec_triggered_modifiers(s.modifiers, FATE_RESULT);
    let with_messages = GameStateModel {
        message_queue: (s.message_queue + spec_trigger_texts(triggered)).push(
            ClientMessageModel::DrewFate { result: FATE_RESULT },
        ),
        ..s
    };
    spec_resolve_effects(with_messages, spec_modifier_effects(triggered))
}


/// The state with the top of the phase stack replaced.
pub open spec fn spec_set_phase(s: GameStateModel, phase: GamePhaseModel) -> GameStateModel {
    GameStateModel { phase_stack: s.phase_stack.drop_last().push(phase), ..s }
}

/// The state with a nested phase pushed.
pub open spec fn spec_push_phase(s: GameStateModel, phase: GamePhaseModel) -> GameStateModel {
    GameStateModel { phase_stack: s.phase_stack.push(phase), ..s }
}

/// The state with the top phase popped.
pub open spec fn spec_pop_phase(s: GameStateModel) -> GameStateModel {
    GameStateModel { phase_stack: s.phase_stack.drop_last(), ..s }
}

/// The state with the players moved into a room.
pub open spec fn spec_set_room(s: GameStateModel, room: ShipRoom) -> GameStateModel {
    GameStateModel { room, ..s }
}

/// The state after a player was given command tokens and the
/// notification was queued (the index must be in range).
pub open spec fn spec_give_command_tokens(
    s: GameStateModel,
    player_ix: int,
    amount: u32,
) -> GameStateModel {
    GameStateModel {
        players: s.players.update(
            player_ix,
            PlayerModel {
                command_tokens: spec_saturating_add(s.players[player_ix].command_tokens, amount),
                ..s.players[player_ix]
            },
        ),
        message_queue: s.message_queue.push(ClientMessageModel::GainCommandPoints { amount }),
        ..s
    }
}


/// What equipping a hand card on a crew member does, at the level of
/// models, with the error each bad input is rejected with.
pub open spec fn spec_equip_card(s: GameStateModel, hand_ix: int, crew_ix: int) -> Result<
    GameStateModel,
    GameError,
> {
    if s.players.len() == 0 {
        Err(GameError::PlayerIndex)
    } else if hand_ix < 0 || hand_ix >= s.players[0].hand.len() {
        Err(GameError::CardIndex)
    } else if crew_ix < 0 || crew_ix >= s.crew.len() {
        Err(GameError::CrewIndex)
    } else if s.crew[crew_ix].equipped_ability_cards.len() >= 2 {
        Err(GameError::AbilityCardLimit)
    } else {
        Ok(
            GameStateModel {
                players: s.players.update(
                    0,
                    PlayerModel { hand: s.players[0].hand.remove(hand_ix), ..s.players[0] },
                ),
                crew: s.crew.update(
                    crew_ix,
                    CrewModel {
                        equipped_ability_cards: s.crew[crew_ix].equipped_ability_cards.push(
                            s.players[0].hand[hand_ix],
                        ),
                        ..s.crew[crew_ix]
                    },
                ),
                ..s
            },
        )
    }
}

/// The modifiers kept by an end-of-turn style sweep: those whose
/// lifetime differs from the one being purged, in order.
pub open spec fn spec_keep_modifiers(
    modifiers: Seq<ModifierModel>,
    lifetime: ModifierLifetime,
) -> Seq<ModifierModel>
    decreases modifiers.len(),
{
    if modifiers.len() == 0 {
        Seq::empty()
    } else {
        let front = spec_keep_modifiers(modifiers.drop_last(), lifetime);
        if modifiers.last().lifetime != lifetime {
            front.push(modifiers.last())
        } else {
            front
        }
    }
}

/// Whether a quest with this index was already acquired.
pub open spec fn spec_has_quest(quests: Seq<QuestModel>, index: u32) -> bool {
    exists|i: int| 0 <= i < quests.len() && (#[trigger] quests[i]).index == index
}

/// Whether a quest with this index is in the list.
fn has_quest(quests: &Vec<Quest>, index: u32) -> (r: bool)
    ensures
        r == spec_has_quest(quests.deep_view(), index),
{
    let mut i: usize = 0;
    while i < quests.len()
        invariant
            i <= quests@.len(),
            forall|j: int| 0 <= j < i ==> (#[trigger] quests.deep_view()[j]).index != index,
        decreases quests@.len() - i,
    {
        if quests[i].index == index {
            proof {
                assert(quests.deep_view()[i as int].index == index);
            }
            return true;
        }
        i += 1;
    }
    false
}

/// The mathematical content of the whole game state.
#[verifier::ext_equal]
pub ghost struct GameStateModel {
    pub phase_stack: Seq<GamePhaseModel>,
    pub players: Seq<PlayerModel>,
    pub crew: Seq<CrewModel>,
    pub map: GameMapModel,
    pub room: ShipRoom,
    pub resources: Resources,
    pub message_queue: Seq<ClientMessageModel>,
    pub quests: Seq<QuestModel>,
    pub ability_deck: DeckModel<AbilityCardModel>,
    pub search_token_deck: DeckModel<SearchToken>,
    pub event_card_deck: DeckModel<EventCardModel>,
    pub market_deck: DeckModel<MarketCard>,
    pub modifiers: Seq<ModifierModel>,
}

impl GameStateModel {
    /// The state invariant: the phase stack is never empty and every
    /// crew record is well formed (clamped counters, unique statuses,
    /// at most two equipped cards).
    pub open spec fn wf(&self) -> bool {
        &&& self.phase_stack.len() >= 1
        &&& forall|i: int| 0 <= i < self.crew.len() ==> (#[trigger] self.crew[i]).wf()
    }
}

/// The aggregate game state; the root of every transition.
#[verifier::ext_equal]
pub struct GameState {
    pub phase_stack: Vec<GamePhase>,
    pub players: Vec<Player>,
    pub crew: Vec<Crew>,
    pub map: GameMap,
    pub room: ShipRoom,
    pub resources: Resources,
    pub message_queue: Vec<ClientMessage>,
    pub quests: Vec<Quest>,
    pub ability_deck: Deck<AbilityCard>,
    pub search_token_deck: Deck<SearchToken>,
    pub event_card_deck: Deck<EventCard>,
    pub market_deck: Deck<MarketCard>,
    pub modifiers: Vec<Modifier>,
}

impl View for GameState {
    type V = GameStateModel;

    open spec fn view(&self) -> GameStateModel {
        GameStateModel {
            phase_stack: self.phase_stack.deep_view(),
            players: self.players.deep_view(),
            crew: self.crew.deep_view(),
            map: self.map@,
            room: self.room,
            resources: self.resources,
            message_queue: self.message_queue.deep_view(),
            quests: self.quests.deep_view(),
            ability_deck: self.ability_deck.deep_view(),
            search_token_deck: self.search_token_deck.deep_view(),
            event_card_deck: self.event_card_deck.deep_view(),
            market_deck: self.market_deck.deep_view(),
            modifiers: self.modifiers.deep_view(),
        }
    }
}

impl DeepView for GameState {
    type V = GameStateModel;

    open spec fn deep_view(&self) -> GameStateModel {
        self.view()
    }
}

impl Clone for GameState {
    fn clone(&self) -> (r: Self)
        ensures
            r@ == self@,
    {
        let r = GameState {
            phase_stack: self.phase_stack.clone(),
            players: self.players.clone(),
            crew: self.crew.clone(),
            map: self.map.clone(),
            room: self.room,
            resources: self.resources,
            message_queue: self.message_queue.clone(),
            quests: self.quests.clone(),
            ability_deck: self.ability_deck.clone(),
            search_token_deck: self.search_token_deck.clone(),
            event_card_deck: self.event_card_deck.clone(),
            market_deck: self.market_deck.clone(),
            modifiers: self.modifiers.clone(),
        };
        proof {
            assert(r.phase_stack.deep_view() =~= self.phase_stack.deep_view());
            assert(r.players.deep_view() =~= self.players.deep_view());
            assert(r.crew.deep_view() =~= self.crew.deep_view());
            assert(r.message_queue.deep_view() =~= self.message_queue.deep_view());
            assert(r.quests.deep_view() =~= self.quests.deep_view());
            assert(r.modifiers.deep_view() =~= self.modifiers.deep_view());
            assert(r.ability_deck.deep_view() =~~= self.ability_deck.deep_view());
            assert(r.search_token_deck.deep_view() =~~= self.search_token_deck.deep_view());
            assert(r.event_card_deck.deep_view() =~~= self.event_card_deck.deep_view());
            assert(r.market_deck.deep_view() =~~= self.market_deck.deep_view());
            assert(r@ =~= self@);
        }
        r
    }
}

/// A rested crew member with the given name and skill values.
pub open spec fn spec_fresh_crew(
    name: Seq<char>,
    savvy: u32,
    craft: u32,
    strength: u32,
    wits: u32,
    perception: u32,
) -> CrewModel {
    CrewModel {
        name,
        fatigue: 0,
        damage: 0,
        skills: Skills { savvy, craft, strength, wits, perception },
        status: Seq::empty(),
        equipped_ability_cards: Seq::empty(),
    }
}

/// The views of the eight crew members the game starts with.
pub open spec fn spec_starting_crew() -> Seq<CrewModel> {
    seq![
        spec_fresh_crew("Rafael Vieira"@, 0, 1, 1, 0, 0),
        spec_fresh_crew("Audrie Williams"@, 0, 1, 0, 0, 1),
        spec_fresh_crew("Katsumi Aoshima"@, 1, 0, 0, 1, 1),
        spec_fresh_crew("Kannan Sharma"@, 1, 0, 1, 1, 0),
        spec_fresh_crew("Sofi Odessa"@, 1, 1, 1, 1, 1),
        spec_fresh_crew("Gregory Little"@, 1, 0, 1, 0, 0),
        spec_fresh_crew("Laurant Lapointe"@, 1, 1, 1, 0, 1),
        spec_fresh_crew("Marco Reyes"@, 0, 0, 1, 1, 0),
    ]
}

/// The views of the search tokens the game starts with: ids one to
/// seven, in order.
pub open spec fn spec_starting_search_tokens() -> Seq<SearchToken> {
    Seq::new(7, |i: int| SearchToken((i + 1) as u32))
}

/// The state a fresh session starts from.
pub open spec fn spec_init_state() -> GameStateModel {
    GameStateModel {
        phase_stack: seq![GamePhaseModel::ShipActionPhase(None)],
        players: seq![PlayerModel { command_tokens: 0, hand: Seq::empty() }],
        crew: spec_starting_crew(),
        map: GameMapModel {
            ship_area: 1,
            map_data: spec_default_map_data(),
            storybook: spec_default_storybook(),
        },
        room: ShipRoom::NoRoom,
        resources: Resources { coin: 0, meat: 0 },
        message_queue: Seq::empty(),
        quests: Seq::empty(),
        ability_deck: DeckModel { items: spec_starting_ability_cards(), discard: Seq::empty() },
        search_token_deck: DeckModel {
            items: spec_starting_search_tokens(),
            discard: Seq::empty(),
        },
        event_card_deck: DeckModel { items: spec_starting_event_cards(), discard: Seq::empty() },
        market_deck: DeckModel { items: spec_starting_market_cards(), discard: Seq::empty() },
        modifiers: Seq::empty(),
    }
}

impl GameState {
    /// The state invariant (see [`GameStateModel::wf`]).
    pub open spec fn wf(&self) -> bool {
        self@.wf()
    }

    /// A fresh session: seeded decks, the starting crew roster, and the
    /// root ship-action phase.
    pub fn init_state() -> (r: GameState)
        ensures
            r@ == spec_init_state(),
            r.wf(),
    {
        let mut phase_stack: Vec<GamePhase> = Vec::new();
        phase_stack.push(GamePhase::ShipActionPhase(None));

        let mut players: Vec<Player> = Vec::new();
        players.push(Player::default());

        let mut crew: Vec<Crew> = Vec::new();
        crew.push(Crew::new("Rafael Vieira", 0, 1, 1, 0, 0));
        crew.push(Crew::new("Audrie Williams", 0, 1, 0, 0, 1));
        crew.push(Crew::new("Katsumi Aoshima", 1, 0, 0, 1, 1));
        crew.push(Crew::new("Kannan Sharma", 1, 0, 1, 1, 0));
        crew.push(Crew::new("Sofi Odessa", 1, 1, 1, 1, 1));
        crew.push(Crew::new("Gregory Little", 1, 0, 1, 0, 0));
        crew.push(Crew::new("Laurant Lapointe", 1, 1, 1, 0, 1));
        crew.push(Crew::new("Marco Reyes", 0, 0, 1, 1, 0));

        let mut search_tokens: Vec<SearchToken> = Vec::new();
        let mut id: u32 = 1;
        while id < 8
            invariant
                1 <= id <= 8,
                search_tokens@.len() == id - 1,
                forall|j: int|
                    0 <= j < id - 1 ==> search_tokens@[j] == SearchToken((j + 1) as u32),
            decreases 8 - id,
        {
            search_tokens.push(SearchToken(id));
            id += 1;
        }

        let r = GameState {
            phase_stack,
            players,
            crew,
            map: GameMap {
                ship_area: 1,
                map_data: MapData::default(),
                storybook: Storybook::default(),
            },
            room: ShipRoom::NoRoom,
            resources: Resources { coin: 0, meat: 0 },
            message_queue: Vec::new(),
            quests: Vec::new(),
            ability_deck: Deck::new(ability_card_deck()),
            search_token_deck: Deck::new(search_tokens),
            event_card_deck: Deck::default(),
            market_deck: Deck::default(),
            modifiers: Vec::new(),
        };
        proof {
            assert(r.phase_stack.deep_view() =~= seq![GamePhaseModel::ShipActionPhase(None)]);
            assert(r.players.deep_view() =~= seq![
                PlayerModel { command_tokens: 0, hand: Seq::empty() },
            ]);
            assert(r.crew.deep_view() =~= spec_starting_crew());
            assert(r.message_queue.deep_view() =~= Seq::<ClientMessageModel>::empty());
            assert(r.quests.deep_view() =~= Seq::<QuestModel>::empty());
            assert(r.modifiers.deep_view() =~= Seq::<ModifierModel>::empty());
            assert(r.ability_deck.deep_view() =~~= spec_init_state().ability_deck);
            assert(r.search_token_deck.deep_view() =~~= spec_init_state().search_token_deck);
            assert(r.event_card_deck.deep_view() =~~= spec_init_state().event_card_deck);
            assert(r.market_deck.deep_view() =~~= spec_init_state().market_deck);
            assert(r@ =~= spec_init_state());
        }
        r
    }


    /// Draws one ability card into a player's hand, queueing the
    /// notification; fails when the ability deck is exhausted.
    fn draw_one_card(&self, player_ix: usize) -> (r: Update<GameState>)
        requires
            player_ix < self@.players.len(),
        ensures
            match r {
                Ok(g) => spec_draw_one_card(self@, player_ix as int) == Some(g@)
                    && g@.phase_stack == self@.phase_stack && (self.wf() ==> g.wf()),
                Err(e) => e == GameError::DeckExhausted && spec_draw_one_card(
                    self@,
                    player_ix as int,
                ) is None,
            },
    {
        let mut gs = self.clone();
        proof {
            assert(gs.players@.len() == self@.players.len());
            assert(gs.ability_deck.spec_items().len() == self@.ability_deck.items.len());
            assert(gs.ability_deck.spec_discard().len() == self@.ability_deck.discard.len());
        }
        let card = match gs.ability_deck.draw() {
            Ok(card) => card,
            Err(e) => {
                proof {
                    assert(spec_draw(self@.ability_deck.items, self@.ability_deck.discard)
                        is None);
                }
                return Err(e);
            },
        };
        let ghost card_view = card@;
        proof {
            assert(spec_draw(self@.ability_deck.items, self@.ability_deck.discard) matches Some(
                (items2, discard2, drawn),
            ) && items2 =~= gs.ability_deck.deep_view().items && discard2
                =~= gs.ability_deck.deep_view().discard && drawn == card_view);
        }
        let serial_card = SerialCard {
            label: card.name.clone(),
            deck: "ability_card_deck".to_owned(),
            index: card.deck_ix,
        };
        let message = ClientMessage::DrewAbilityCard { card: serial_card };

        let mut player = gs.players[player_ix].clone();
        player = match player.add_card(card) {
            Ok(p) => p,
            Err(e) => {
                return Err(e);
            },
        };
        gs.players[player_ix] = player;
        gs.message_queue.push(message);
        proof {
            let expected = spec_draw_one_card(self@, player_ix as int).unwrap();
            assert(gs.players.deep_view() =~= expected.players);
            assert(gs.message_queue.deep_view() =~= expected.message_queue);
            assert(gs.ability_deck.deep_view() =~~= expected.ability_deck);
            assert(gs@ =~= expected);
        }
        Ok(gs)
    }

    /// Draws `amount` ability cards into a player's hand, one at a time;
    /// an unknown player is reported and an exhausted deck stops the run.
    pub fn draw_cards(&self, player_ix: usize, amount: u32) -> (r: Update<GameState>)
        ensures
            match r {
                Ok(g) => {
                    &&& player_ix < self@.players.len()
                    &&& spec_draw_cards(self@, player_ix as int, amount as nat) == Some(g@)
                    &&& g@.phase_stack == self@.phase_stack
                    &&& (self.wf() ==> g.wf())
                },
                Err(e) => {
                    &&& (player_ix >= self@.players.len() ==> e == GameError::PlayerIndex)
                    &&& (player_ix < self@.players.len() ==> e == GameError::DeckExhausted
                        && spec_draw_cards(self@, player_ix as int, amount as nat) is None)
                },
            },
        decreases amount,
    {
        if player_ix >= self.players.len() {
            return Err(GameError::PlayerIndex);
        }
        if amount == 0 {
            let gs = self.clone();
            proof {
                assert(gs@ =~= self@);
            }
            return Ok(gs);
        }
        let gs = match self.draw_one_card(player_ix) {
            Ok(g) => g,
            Err(e) => {
                return Err(e);
            },
        };
        proof {
            assert(gs@.players.len() == self@.players.len());
        }
        gs.draw_cards(player_ix, amount - 1)
    }


    /// Draws fate: queues the messages of every modifier the draw
    /// triggers, then the draw's own message, folds the triggered
    /// effects into the state, and hands the drawn value back.
    #[verifier::loop_isolation(false)]
    pub fn draw_fate(&self) -> (r: Update<(GameState, u32)>)
        requires
            self@.phase_stack.len() >= 1,
        ensures
            match spec_draw_fate(self@) {
                Ok(m) => r matches Ok((g, result)) && g@ == m && result == FATE_RESULT
                    && g@.phase_stack.len() >= 1 && (self.wf() ==> g.wf()),
                Err(e) => r == Update::<(GameState, u32)>::Err(e),
            },
    {
        let ghost triggered = spec_triggered_modifiers(self@.modifiers, FATE_RESULT);
        let mut gs = self.clone();
        proof {
            assert(gs.modifiers@.len() == self@.modifiers.len());
        }

        // Collect the triggered modifiers, in registration order.
        let mut fired: Vec<Modifier> = Vec::new();
        let mut i: usize = 0;
        proof {
            assert(spec_triggered_modifiers(self@.modifiers.take(0), FATE_RESULT)
                =~= Seq::<ModifierModel>::empty());
        }
        while i < gs.modifiers.len()
            invariant
                i <= gs.modifiers@.len(),
                fired.deep_view() == spec_triggered_modifiers(
                    self@.modifiers.take(i as int),
                    FATE_RESULT,
                ),
            decreases gs.modifiers@.len() - i,
        {
            proof {
                assert(gs.modifiers@[i as int]@ == self@.modifiers[i as int]);
                assert(self@.modifiers.take(i as int + 1).drop_last() =~= self@.modifiers.take(
                    i as int,
                ));
                assert(self@.modifiers.take(i as int + 1).last() == self@.modifiers[i as int]);
            }
            if gs.modifiers[i].trigger.matches_fate(FATE_RESULT) {
                fired.push(gs.modifiers[i].clone());
            }
            proof {
                assert(fired.deep_view() =~= spec_triggered_modifiers(
                    self@.modifiers.take(i as int + 1),
                    FATE_RESULT,
                ));
            }
            i += 1;
        }
        proof {
            assert(self@.modifiers.take(self@.modifiers.len() as int) =~= self@.modifiers);
            assert(fired.deep_view() == triggered);
        }

        // Queue each trigger message, then the draw's own message.
        let mut i: usize = 0;
        proof {
            assert(spec_trigger_texts(triggered.take(0)) =~= Seq::<ClientMessageModel>::empty());
            assert(gs.message_queue.deep_view() =~= self@.message_queue + spec_trigger_texts(
                triggered.take(0),
            ));
        }
        while i < fired.len()
            invariant
                i <= fired@.len(),
                fired.deep_view() == triggered,
                fired@.len() == triggered.len(),
                gs.message_queue.deep_view() == self@.message_queue + spec_trigger_texts(
                    triggered.take(i as int),
                ),
                gs@ == (GameStateModel { message_queue: gs.message_queue.deep_view(), ..self@ }),
            decreases fired@.len() - i,
        {
            proof {
                assert(fired@[i as int]@ == triggered[i as int]);
                assert(fired@[i as int]@.trigger_text == fired@[i as int].trigger_text@);
                assert(triggered.take(i as int + 1).drop_last() =~= triggered.take(i as int));
                assert(triggered.take(i as int + 1).last() == triggered[i as int]);
                assert(spec_trigger_texts(triggered.take(i as int + 1)) =~= spec_trigger_texts(
                    triggered.take(i as int),
                ).push(triggered[i as int].trigger_text));
            }
            let ghost prev_queue = gs.message_queue.deep_view();
            gs.message_queue.push(fired[i].trigger_text.clone());
            proof {
                assert(gs.message_queue.deep_view() =~= prev_queue.push(
                    triggered[i as int].trigger_text,
                ));
                assert(gs.message_queue.deep_view() =~= self@.message_queue + spec_trigger_texts(
                    triggered.take(i as int + 1),
                ));
                assert(gs@ =~= (GameStateModel {
                    message_queue: gs.message_queue.deep_view(),
                    ..self@
                }));
            }
            i += 1;
        }
        proof {
            assert(triggered.take(triggered.len() as int) =~= triggered);
        }
        gs.message_queue.push(ClientMessage::DrewFate { result: FATE_RESULT });
        proof {
            assert(gs.message_queue.deep_view() =~= (self@.message_queue + spec_trigger_texts(
                triggered,
            )).push(ClientMessageModel::DrewFate { result: FATE_RESULT }));
            assert(gs@ =~= (GameStateModel {
                message_queue: gs.message_queue.deep_view(),
                ..self@
            }));
        }

        // Fold the triggered effects into the state.
        let mut effects: Vec<Effect> = Vec::new();
        let mut i: usize = 0;
        proof {
            assert(spec_modifier_effects(triggered.take(0)) =~= Seq::<EffectModel>::empty());
            assert(effects_seq_view(effects@) =~= spec_modifier_effects(triggered.take(0)));
        }
        while i < fired.len()
            invariant
                i <= fired@.len(),
                fired.deep_view() == triggered,
                fired@.len() == triggered.len(),
                effects_seq_view(effects@) == spec_modifier_effects(triggered.take(i as int)),
            decreases fired@.len() - i,
        {
            proof {
                assert(fired@[i as int]@ == triggered[i as int]);
                assert(fired@[i as int]@.effect == fired@[i as int].effect@);
                assert(triggered.take(i as int + 1).drop_last() =~= triggered.take(i as int));
                assert(triggered.take(i as int + 1).last() == triggered[i as int]);
                assert(spec_modifier_effects(triggered.take(i as int + 1)) =~= spec_modifier_effects(
                    triggered.take(i as int),
                ).push(triggered[i as int].effect));
            }
            let ghost prev_effects = effects@;
            effects.push(clone_one_effect(&fired[i].effect));
            proof {
                assert(effects@.drop_last() =~= prev_effects);
                assert(effects_seq_view(effects@) =~= effects_seq_view(prev_effects).push(
                    effect_view(effects@.last()),
                ));
                assert(effects_seq_view(effects@) =~= spec_modifier_effects(
                    triggered.take(i as int + 1),
                ));
            }
            i += 1;
        }
        proof {
            assert(triggered.take(triggered.len() as int) =~= triggered);
        }

        let resolved = match resolve_effects(&gs, effects) {
            Ok(g) => g,
            Err(e) => {
                return Err(e);
            },
        };
        Ok((resolved, FATE_RESULT))
    }

    /// The current phase: the top of the stack.
    pub fn phase(&self) -> (r: GamePhase)
        requires
            self@.phase_stack.len() >= 1,
        ensures
            r@ == self@.phase_stack.last(),
    {
        let last = self.phase_stack.len() - 1;
        self.phase_stack[last].clone()
    }

    /// Replaces the top of the phase stack: a same-level transition with
    /// no return path.
    pub fn set_phase(&self, new_phase: GamePhase) -> (r: Update<GameState>)
        requires
            self@.phase_stack.len() >= 1,
        ensures
            r matches Ok(g) && g@ == (GameStateModel {
                phase_stack: self@.phase_stack.drop_last().push(new_phase@),
                ..self@
            }),
            r matches Ok(g) && (self.wf() ==> g.wf()),
    {
        let ghost target = new_phase@;
        let mut gs = self.clone();
        let _ = gs.phase_stack.pop();
        gs.phase_stack.push(new_phase);
        proof {
            assert(gs.phase_stack.deep_view() =~= self@.phase_stack.drop_last().push(target));
            assert(gs@ =~= (GameStateModel {
                phase_stack: self@.phase_stack.drop_last().push(target),
                ..self@
            }));
        }
        Ok(gs)
    }

    /// Pushes a nested phase; control returns to the parent phase when
    /// it is popped.
    pub fn push_phase(&self, phase: GamePhase) -> (r: Update<GameState>)
        ensures
            r matches Ok(g) && g@ == (GameStateModel {
                phase_stack: self@.phase_stack.push(phase@),
                ..self@
            }),
            r matches Ok(g) && (self.wf() ==> g.wf()),
    {
        let ghost target = phase@;
        let mut gs = self.clone();
        gs.phase_stack.push(phase);
        proof {
            assert(gs.phase_stack.deep_view() =~= self@.phase_stack.push(target));
            assert(gs@ =~= (GameStateModel {
                phase_stack: self@.phase_stack.push(target),
                ..self@
            }));
        }
        Ok(gs)
    }

    /// Pops the top phase; the root phase is never popped.
    pub fn pop_phase(&self) -> (r: Update<GameState>)
        ensures
            self@.phase_stack.len() >= 2 ==> (r matches Ok(g) && g@ == (GameStateModel {
                phase_stack: self@.phase_stack.drop_last(),
                ..self@
            })),
            self@.phase_stack.len() < 2 ==> r == Update::<GameState>::Err(
                GameError::NoPhaseToPop,
            ),
            match r {
                Ok(g) => self.wf() ==> g.wf(),
                Err(_) => true,
            },
    {
        if self.phase_stack.len() < 2 {
            return Err(GameError::NoPhaseToPop);
        }
        let mut gs = self.clone();
        let _ = gs.phase_stack.pop();
        proof {
            assert(gs.phase_stack.deep_view() =~= self@.phase_stack.drop_last());
            assert(gs@ =~= (GameStateModel {
                phase_stack: self@.phase_stack.drop_last(),
                ..self@
            }));
        }
        Ok(gs)
    }

    /// Opens a challenge: pushes a challenge phase with no skill total
    /// recorded yet.
    pub fn challenge(&self, challenge: Challenge) -> (r: Update<GameState>)
        ensures
            r matches Ok(g) && g@ == (GameStateModel {
                phase_stack: self@.phase_stack.push(
                    GamePhaseModel::ChallengePhase { challenge: challenge@, skill: None },
                ),
                ..self@
            }),
            r matches Ok(g) && (self.wf() ==> g.wf()),
    {
        self.push_phase(GamePhase::ChallengePhase { challenge, skill: None })
    }

    /// Gains (or, negative, loses) an amount of one resource; a loss
    /// clamps at zero.
    pub fn gain_resource(&self, resource: Resource, amount: i32) -> (r: Update<GameState>)
        ensures
            r matches Ok(g) && g@ == (GameStateModel {
                resources: spec_gain(self@.resources, resource, amount),
                ..self@
            }),
            r matches Ok(g) && (self.wf() ==> g.wf()),
    {
        let mut gs = self.clone();
        let prev: i64 = gs.resources.get(resource) as i64;
        let changed: i64 = prev + amount as i64;
        let count: u32 = if changed < 0 {
            0
        } else if changed > u32::MAX as i64 {
            u32::MAX
        } else {
            changed as u32
        };
        match resource {
            Resource::Coin => {
                gs.resources.coin = count;
            },
            Resource::Meat => {
                gs.resources.meat = count;
            },
        }
        proof {
            assert(gs@ =~= (GameStateModel {
                resources: spec_gain(self@.resources, resource, amount),
                ..self@
            }));
        }
        Ok(gs)
    }

    /// Acquires the quest at `index`; an unknown index is reported. An
    /// already-acquired quest is kept as it is.
    pub fn add_quest(&self, index: u32) -> (r: Update<GameState>)
        ensures
            match r {
                Ok(g) => {
                    &&& spec_quest(index) is Some
                    &&& g@ == (GameStateModel {
                        quests: if spec_has_quest(self@.quests, index) {
                            self@.quests
                        } else {
                            self@.quests.push(
                                QuestModel { index, keyword: spec_quest(index).unwrap() },
                            )
                        },
                        ..self@
                    })
                    &&& (self.wf() ==> g.wf())
                },
                Err(e) => e == GameError::QuestNotFound && spec_quest(index) is None,
            },
    {
        let keyword = match get_quest(index) {
            Ok(keyword) => keyword,
            Err(e) => {
                return Err(e);
            },
        };
        let mut gs = self.clone();
        if !has_quest(&gs.quests, index) {
            gs.quests.push(Quest { index, keyword });
            proof {
                assert(gs.quests.deep_view() =~= self@.quests.push(
                    QuestModel { index, keyword: spec_quest(index).unwrap() },
                ));
            }
        } else {
            proof {
                assert(gs.quests.deep_view() =~= self@.quests);
            }
        }
        proof {
            assert(gs@ =~= (GameStateModel { quests: gs.quests.deep_view(), ..self@ }));
        }
        Ok(gs)
    }

    /// Gives a player command tokens (saturating at the counter's width)
    /// and queues the notification; an unknown player is reported.
    pub fn give_command_tokens(&self, player_ix: usize, amount: u32) -> (r: Update<GameState>)
        ensures
            match r {
                Ok(g) => {
                    &&& player_ix < self@.players.len()
                    &&& g@ == (GameStateModel {
                        players: self@.players.update(
                            player_ix as int,
                            PlayerModel {
                                command_tokens: spec_saturating_add(
                                    self@.players[player_ix as int].command_tokens,
                                    amount,
                                ),
                                ..self@.players[player_ix as int]
                            },
                        ),
                        message_queue: self@.message_queue.push(
                            ClientMessageModel::GainCommandPoints { amount },
                        ),
                        ..self@
                    })
                    &&& (self.wf() ==> g.wf())
                },
                Err(e) => e == GameError::PlayerIndex && player_ix >= self@.players.len(),
            },
    {
        if player_ix >= self.players.len() {
            return Err(GameError::PlayerIndex);
        }
        let mut gs = self.clone();
        proof {
            assert(gs.players@.len() == self@.players.len());
        }
        let old_tokens = gs.players[player_ix].command_tokens;
        let new_tokens: u32 = if old_tokens > u32::MAX - amount {
            u32::MAX
        } else {
            old_tokens + amount
        };
        let mut player = gs.players[player_ix].clone();
        player.command_tokens = new_tokens;
        gs.players[player_ix] = player;
        gs.message_queue.push(ClientMessage::GainCommandPoints { amount });
        proof {
            assert(gs.players.deep_view() =~= self@.players.update(
                player_ix as int,
                PlayerModel {
                    command_tokens: spec_saturating_add(
                        self@.players[player_ix as int].command_tokens,
                        amount,
                    ),
                    ..self@.players[player_ix as int]
                },
            ));
            assert(gs.message_queue.deep_view() =~= self@.message_queue.push(
                ClientMessageModel::GainCommandPoints { amount },
            ));
            assert(gs@ =~= (GameStateModel {
                players: gs.players.deep_view(),
                message_queue: gs.message_queue.deep_view(),
                ..self@
            }));
        }
        Ok(gs)
    }

    /// The keywords of the quests acquired so far, in acquisition order.
    pub fn keywords(&self) -> (r: Vec<String>)
        ensures
            r@.len() == self@.quests.len(),
            forall|i: int| 0 <= i < r@.len() ==> (#[trigger] r@[i])@ == self@.quests[i].keyword,
    {
        let mut r: Vec<String> = Vec::new();
        let mut i: usize = 0;
        while i < self.quests.len()
            invariant
                i <= self.quests@.len(),
                r@.len() == i,
                forall|j: int| 0 <= j < i ==> (#[trigger] r@[j])@ == self@.quests[j].keyword,
            decreases self.quests@.len() - i,
        {
            r.push(self.quests[i].keyword.clone());
            i += 1;
        }
        r
    }

    /// Applies what a chosen search token grants (a unit of meat).
    pub fn apply_search_tokens(&self, _token: &SearchToken) -> (r: Update<GameState>)
        ensures
            r matches Ok(g) && g@ == (GameStateModel {
                resources: spec_gain(self@.resources, Resource::Meat, 1),
                ..self@
            }),
            r matches Ok(g) && (self.wf() ==> g.wf()),
    {
        self.gain_resource(Resource::Meat, 1)
    }

    /// Removes all modifiers with the given lifetime (the end-of-turn
    /// cleanup removes the this-turn ones).
    pub fn filter_out_modifiers(&self, lifetime: ModifierLifetime) -> (r: Update<GameState>)
        ensures
            r matches Ok(g) && g@ == (GameStateModel {
                modifiers: spec_keep_modifiers(self@.modifiers, lifetime),
                ..self@
            }),
            r matches Ok(g) && (self.wf() ==> g.wf()),
    {
        let mut gs = self.clone();
        let mut kept: Vec<Modifier> = Vec::new();
        let mut i: usize = 0;
        proof {
            assert(gs.modifiers@.len() == self@.modifiers.len());
            assert(spec_keep_modifiers(self@.modifiers.take(0), lifetime)
                =~= Seq::<ModifierModel>::empty());
        }
        while i < gs.modifiers.len()
            invariant
                i <= gs.modifiers@.len(),
                gs.modifiers.deep_view() == self@.modifiers,
                gs.modifiers@.len() == self@.modifiers.len(),
                kept.deep_view() == spec_keep_modifiers(self@.modifiers.take(i as int), lifetime),
            decreases gs.modifiers@.len() - i,
        {
            let keep = match gs.modifiers[i].lifetime {
                ModifierLifetime::ThisTurn => !matches!(lifetime, ModifierLifetime::ThisTurn),
            };
            proof {
                assert(gs.modifiers@[i as int]@ == self@.modifiers[i as int]);
                assert(keep == (self@.modifiers[i as int].lifetime != lifetime));
            }
            if keep {
                kept.push(gs.modifiers[i].clone());
            }
            proof {
                assert(self@.modifiers.take(i as int + 1).drop_last() =~= self@.modifiers.take(
                    i as int,
                ));
                assert(self@.modifiers.take(i as int + 1).last() == self@.modifiers[i as int]);
                assert(kept.deep_view() =~= spec_keep_modifiers(
                    self@.modifiers.take(i as int + 1),
                    lifetime,
                ));
            }
            i += 1;
        }
        proof {
            assert(self@.modifiers.take(self@.modifiers.len() as int) =~= self@.modifiers);
        }
        gs.modifiers = kept;
        proof {
            assert(gs@ =~= (GameStateModel {
                modifiers: spec_keep_modifiers(self@.modifiers, lifetime),
                ..self@
            }));
        }
        Ok(gs)
    }

    /// Registers a modifier.
    pub fn add_modifier(&self, modifier: &Modifier) -> (r: Update<GameState>)
        ensures
            r matches Ok(g) && g@ == (GameStateModel {
                modifiers: self@.modifiers.push(modifier@),
                ..self@
            }),
            r matches Ok(g) && (self.wf() ==> g.wf()),
    {
        let mut gs = self.clone();
        gs.modifiers.push(modifier.clone());
        proof {
            assert(gs.modifiers.deep_view() =~= self@.modifiers.push(modifier@));
            assert(gs@ =~= (GameStateModel {
                modifiers: self@.modifiers.push(modifier@),
                ..self@
            }));
        }
        Ok(gs)
    }

    /// Queues a one-shot notification for the client.
    pub fn queue_message(&self, msg: &ClientMessage) -> (r: Update<GameState>)
        ensures
            r matches Ok(g) && g@ == (GameStateModel {
                message_queue: self@.message_queue.push(msg@),
                ..self@
            }),
            r matches Ok(g) && (self.wf() ==> g.wf()),
    {
        let mut gs = self.clone();
        gs.message_queue.push(msg.clone());
        proof {
            assert(gs.message_queue.deep_view() =~= self@.message_queue.push(msg@));
            assert(gs@ =~= (GameStateModel {
                message_queue: self@.message_queue.push(msg@),
                ..self@
            }));
        }
        Ok(gs)
    }

    /// Moves the players into a ship room.
    pub fn set_room(&self, room: &ShipRoom) -> (r: Update<GameState>)
        ensures
            r matches Ok(g) && g@ == (GameStateModel { room: *room, ..self@ }),
            r matches Ok(g) && (self.wf() ==> g.wf()),
    {
        let mut gs = self.clone();
        gs.room = *room;
        proof {
            assert(gs@ =~= (GameStateModel { room: *room, ..self@ }));
        }
        Ok(gs)
    }

    /// Drops the most recently queued notification; an empty queue is
    /// left as it is rather than failing.
    pub fn dequeue_message(&self) -> (r: Update<GameState>)
        ensures
            r matches Ok(g) && g@ == (GameStateModel {
                message_queue: if self@.message_queue.len() > 0 {
                    self@.message_queue.drop_last()
                } else {
                    self@.message_queue
                },
                ..self@
            }),
            r matches Ok(g) && (self.wf() ==> g.wf()),
    {
        let mut gs = self.clone();
        let _ = gs.message_queue.pop();
        proof {
            if self@.message_queue.len() > 0 {
                assert(gs.message_queue.deep_view() =~= self@.message_queue.drop_last());
            } else {
                assert(gs.message_queue.deep_view() =~= self@.message_queue);
            }
            assert(gs@ =~= (GameStateModel {
                message_queue: gs.message_queue.deep_view(),
                ..self@
            }));
        }
        Ok(gs)
    }

    /// Replaces one player record; an out-of-range index is reported.
    pub fn update_player(&self, player_ix: usize, player: Player) -> (r: Update<GameState>)
        ensures
            match r {
                Ok(g) => {
                    &&& player_ix < self@.players.len()
                    &&& g@ == (GameStateModel {
                        players: self@.players.update(player_ix as int, player@),
                        ..self@
                    })
                    &&& (self.wf() ==> g.wf())
                },
                Err(e) => e == GameError::PlayerIndex && player_ix >= self@.players.len(),
            },
    {
        if player_ix >= self.players.len() {
            return Err(GameError::PlayerIndex);
        }
        let ghost target = player@;
        let mut gs = self.clone();
        proof {
            assert(gs.players@.len() == self@.players.len());
        }
        gs.players[player_ix] = player;
        proof {
            assert(gs.players.deep_view() =~= self@.players.update(player_ix as int, target));
            assert(gs@ =~= (GameStateModel {
                players: self@.players.update(player_ix as int, target),
                ..self@
            }));
        }
        Ok(gs)
    }

    /// Replaces one crew record; an out-of-range index is reported.
    pub fn update_crew(&self, crew_ix: usize, crew: Crew) -> (r: Update<GameState>)
        ensures
            match r {
                Ok(g) => {
                    &&& crew_ix < self@.crew.len()
                    &&& g@ == (GameStateModel {
                        crew: self@.crew.update(crew_ix as int, crew@),
                        ..self@
                    })
                    &&& ((self.wf() && crew.wf()) ==> g.wf())
                },
                Err(e) => e == GameError::CrewIndex && crew_ix >= self@.crew.len(),
            },
    {
        if crew_ix >= self.crew.len() {
            return Err(GameError::CrewIndex);
        }
        let ghost target = crew@;
        let mut gs = self.clone();
        proof {
            assert(gs.crew@.len() == self@.crew.len());
        }
        gs.crew[crew_ix] = crew;
        proof {
            assert(gs.crew.deep_view() =~= self@.crew.update(crew_ix as int, target));
            assert(gs@ =~= (GameStateModel {
                crew: self@.crew.update(crew_ix as int, target),
                ..self@
            }));
        }
        Ok(gs)
    }

    /// Sails the ship to an area.
    pub fn move_ship(&self, to_area: u32) -> (r: Update<GameState>)
        ensures
            r matches Ok(g) && g@ == (GameStateModel {
                map: GameMapModel { ship_area: to_area, ..self@.map },
                ..self@
            }),
            r matches Ok(g) && (self.wf() ==> g.wf()),
    {
        let mut gs = self.clone();
        gs.map.ship_area = to_area;
        proof {
            assert(gs@ =~= (GameStateModel {
                map: GameMapModel { ship_area: to_area, ..self@.map },
                ..self@
            }));
        }
        Ok(gs)
    }

    /// Discards a player's hand card onto the ability discard pile; an
    /// unknown player or card index is reported.
    pub fn discard_card(&self, player_ix: usize, card_ix: usize) -> (r: Update<GameState>)
        ensures
            match r {
                Ok(g) => {
                    &&& player_ix < self@.players.len()
                    &&& card_ix < self@.players[player_ix as int].hand.len()
                    &&& g@ == (GameStateModel {
                        players: self@.players.update(
                            player_ix as int,
                            PlayerModel {
                                hand: self@.players[player_ix as int].hand.remove(card_ix as int),
                                ..self@.players[player_ix as int]
                            },
                        ),
                        ability_deck: DeckModel {
                            discard: self@.ability_deck.discard.push(
                                self@.players[player_ix as int].hand[card_ix as int],
                            ),
                            ..self@.ability_deck
                        },
                        ..self@
                    })
                    &&& (self.wf() ==> g.wf())
                },
                Err(e) => {
                    &&& (player_ix >= self@.players.len() ==> e == GameError::PlayerIndex)
                    &&& (player_ix < self@.players.len() ==> e == GameError::CardIndex && card_ix
                        >= self@.players[player_ix as int].hand.len())
                },
            },
    {
        if player_ix >= self.players.len() {
            return Err(GameError::PlayerIndex);
        }
        let (player, card) = match self.players[player_ix].discard_card(card_ix) {
            Ok(pair) => pair,
            Err(e) => {
                return Err(e);
            },
        };
        let ghost new_player = player@;
        let ghost card_view = card@;
        let mut gs = self.clone();
        proof {
            assert(gs.players@.len() == self@.players.len());
        }
        gs.players[player_ix] = player;
        gs.ability_deck.add_to_discard(card);
        proof {
            assert(gs.players.deep_view() =~= self@.players.update(player_ix as int, new_player));
            assert(gs.ability_deck.deep_view().items =~= self@.ability_deck.items);
            assert(gs.ability_deck.deep_view().discard =~= self@.ability_deck.discard.push(
                card_view,
            ));
            assert(gs.ability_deck.deep_view() =~~= (DeckModel {
                discard: self@.ability_deck.discard.push(card_view),
                ..self@.ability_deck
            }));
            assert(gs@ =~= (GameStateModel {
                players: self@.players.update(player_ix as int, new_player),
                ability_deck: DeckModel {
                    discard: self@.ability_deck.discard.push(card_view),
                    ..self@.ability_deck
                },
                ..self@
            }));
        }
        Ok(gs)
    }

    /// Equips a card from the first player's hand on a crew member; bad
    /// indices and full card slots are reported.
    pub fn equip_ability_card(&self, hand_ix: usize, crew_ix: usize) -> (r: Update<GameState>)
        ensures
            match spec_equip_card(self@, hand_ix as int, crew_ix as int) {
                Ok(m) => r matches Ok(g) && g@ == m && (self.wf() ==> g.wf()),
                Err(e) => r == Update::<GameState>::Err(e),
            },
    {
        if self.players.len() == 0 {
            return Err(GameError::PlayerIndex);
        }
        let (player, card) = match self.players[0].discard_card(hand_ix) {
            Ok(pair) => pair,
            Err(e) => {
                return Err(e);
            },
        };
        if crew_ix >= self.crew.len() {
            proof {
                assert(self.crew@.len() == self@.crew.len());
            }
            return Err(GameError::CrewIndex);
        }
        proof {
            assert(self.crew@.len() == self@.crew.len());
            assert(self.crew@[crew_ix as int]@ == self@.crew[crew_ix as int]);
        }
        let ghost card_view = card@;
        let ghost new_player = player@;
        let crew_member = match self.crew[crew_ix].clone().equip_ability_card(card) {
            Ok(c) => c,
            Err(e) => {
                return Err(e);
            },
        };
        let ghost new_crew = crew_member@;
        let mut gs = self.clone();
        proof {
            assert(gs.players@.len() == self@.players.len());
            assert(gs.crew@.len() == self@.crew.len());
        }
        gs.players[0] = player;
        gs.crew[crew_ix] = crew_member;
        proof {
            assert(gs.players.deep_view() =~= self@.players.update(0, new_player));
            assert(gs.crew.deep_view() =~= self@.crew.update(crew_ix as int, new_crew));
            assert(new_crew.equipped_ability_cards =~= self@.crew[
                crew_ix as int
            ].equipped_ability_cards.push(card_view));
            assert(new_crew =~= (CrewModel {
                equipped_ability_cards: self@.crew[crew_ix as int].equipped_ability_cards.push(
                    self@.players[0].hand[hand_ix as int],
                ),
                ..self@.crew[crew_ix as int]
            }));
            assert(gs@ =~= (GameStateModel {
                players: self@.players.update(0, new_player),
                crew: self@.crew.update(crew_ix as int, new_crew),
                ..self@
            }));
        }
        Ok(gs)
    }
}

} // verus!
