//! The registry of game objects: heroes and cards, looked up by id. A lookup of an id that
//! no longer resolves is an ordinary outcome, never a failure of the engine.
use std::collections::VecDeque;
use vstd::prelude::*;

verus! {

#[derive(Clone, Copy, Debug, PartialEq, Eq, Structural)]
pub enum CardType {
    Action,
    Instant,
    Resource,
}

impl CardType {
    pub open spec fn is_playable_spec(self) -> bool {
        self == CardType::Action || self == CardType::Instant
    }

    pub fn is_action(&self) -> (r: bool)
        ensures
            r == (*self == CardType::Action),
    {
        matches!(self, CardType::Action)
    }

    pub fn is_playable(&self) -> (r: bool)
        ensures
            r == self.is_playable_spec(),
    {
        matches!(self, CardType::Action | CardType::Instant)
    }
}

#[derive(Clone, Copy, Debug, PartialEq, Eq, Structural)]
pub enum Color {
    Red,
    Yellow,
    Blue,
}

impl Color {
    pub open spec fn pitch_value(self) -> u16 {
        match self {
            Color::Red => 1,
            Color::Yellow => 2,
            Color::Blue => 3,
        }
    }

    /// The resources that pitching a card of this color yields.
    pub fn pitch(&self) -> (r: u16)
        ensures
            r == self.pitch_value(),
    {
        match self {
            Color::Red => 1,
            Color::Yellow => 2,
            Color::Blue => 3,
        }
    }
}

#[derive(Clone, Copy, Debug, PartialEq, Eq, Structural)]
pub enum SubType {
    Attack,
}

#[derive(Debug)]
pub struct CardSubTypes(pub Vec<SubType>);

impl CardSubTypes {
    pub open spec fn has_attack_spec(&self) -> bool {
        self.0@.contains(SubType::Attack)
    }

    fn contains_attack(&self) -> (r: bool)
        ensures
            r == self.has_attack_spec(),
    {
        let mut i: usize = 0;
        while i < self.0.len()
            invariant
                0 <= i <= self.0@.len(),
                forall|j: int| 0 <= j < i ==> self.0@[j] != SubType::Attack,
            decreases self.0@.len() - i,
        {
            if self.0[i] == SubType::Attack {
                return true;
            }
            i = i + 1;
        }
        false
    }

    /// A card with the attack subtype must be played onto a target.
    pub fn requires_target(&self) -> (r: bool)
        ensures
            r == self.has_attack_spec(),
    {
        self.contains_attack()
    }

    pub fn has_attack(&self) -> (r: bool)
        ensures
            r == self.has_attack_spec(),
    {
        self.contains_attack()
    }
}

#[derive(Clone, Copy, Debug, PartialEq, Eq, Structural)]
pub enum CardClassTypes {
    Assassin,
    Generic,
    Ranger,
}

#[derive(Clone, Copy, Debug, PartialEq, Eq, Structural)]
pub enum CardClass {
    SingleClass(CardClassTypes),
    DualClass(CardClassTypes, CardClassTypes),
}

impl CardClass {
    pub open spec fn contains_spec(self, c: CardClassTypes) -> bool {
        match self {
            CardClass::SingleClass(a) => a == c,
            CardClass::DualClass(a, b) => a == c || b == c,
        }
    }

    pub fn contains(&self, card_class: CardClassTypes) -> (r: bool)
        ensures
            r == self.contains_spec(card_class),
    {
        match self {
            CardClass::SingleClass(class) => *class == card_class,
            CardClass::DualClass(class1, class2) => card_class == *class1 || card_class == *class2,
        }
    }
}

#[derive(Clone, Copy, Debug, PartialEq, Eq, Structural)]
pub enum HeroAge {
    Young,
    Adult,
}

/// A hero: a participant of the game with its zones and counters.
#[derive(Debug)]
pub struct HeroBundle {
    pub player_name: String,
    pub card_name: String,
    pub intellect: u16,
    pub health: u16,
    pub hero_class: CardClass,
    pub hero_age: HeroAge,
    pub pitch: VecDeque<u32>,
    pub hand: Vec<u32>,
    pub resources: u16,
    pub action_points: u16,
}

impl HeroBundle {
    /// The stock hero played by `player_name`.
    pub fn named(player_name: &str) -> (r: HeroBundle)
        ensures
            r.player_name@ == player_name@,
            r.intellect == 4,
            r.health == 40,
            r.hero_class == CardClass::SingleClass(CardClassTypes::Generic),
            r.hero_age == HeroAge::Adult,
            r.pitch@.len() == 0,
            r.hand@.len() == 0,
            r.resources == 0,
            r.action_points == 0,
    {
        HeroBundle {
            player_name: player_name.to_owned(),
            card_name: "Gold Fish".to_owned(),
            intellect: 4,
            health: 40,
            hero_class: CardClass::SingleClass(CardClassTypes::Generic),
            hero_age: HeroAge::Adult,
            pitch: VecDeque::new(),
            hand: Vec::new(),
            resources: 0,
            action_points: 0,
        }
    }
}

impl Default for HeroBundle {
    fn default() -> (r: HeroBundle)
        ensures
            r.player_name@ == "AI"@,
            r.intellect == 4,
            r.health == 40,
            r.resources == 0,
            r.action_points == 0,
    {
        HeroBundle::named("AI")
    }
}

/// A card and the attributes it carries; an absent attribute is `None`.
#[derive(Debug)]
pub struct CardBundle {
    pub name: String,
    pub card_id: Option<String>,
    pub cost: Option<u16>,
    pub color: Option<Color>,
    pub attack: Option<u16>,
    pub defense: Option<u16>,
    pub card_type: CardType,
    pub subtypes: CardSubTypes,
    pub class: Option<CardClass>,
    pub go_again: bool,
}

#[derive(Debug)]
pub enum GameObject {
    Hero(HeroBundle),
    Card(CardBundle),
}

/// Slot `i` holds the object with id `i`, or `None` once it has ceased to exist.
pub struct Objects {
    pub slots: Vec<Option<GameObject>>,
}

pub open spec fn object_at(s: Seq<Option<GameObject>>, id: u32) -> Option<GameObject> {
    if (id as int) < s.len() {
        s[id as int]
    } else {
        None
    }
}

pub open spec fn is_hero_at(s: Seq<Option<GameObject>>, id: u32) -> bool {
    object_at(s, id) matches Some(GameObject::Hero(_))
}

pub open spec fn hero_at(s: Seq<Option<GameObject>>, id: u32) -> HeroBundle
    recommends
        is_hero_at(s, id),
{
    match object_at(s, id) {
        Some(GameObject::Hero(h)) => h,
        _ => arbitrary(),
    }
}

pub open spec fn is_card_at(s: Seq<Option<GameObject>>, id: u32) -> bool {
    object_at(s, id) matches Some(GameObject::Card(_))
}

pub open spec fn card_at(s: Seq<Option<GameObject>>, id: u32) -> CardBundle
    recommends
        is_card_at(s, id),
{
    match object_at(s, id) {
        Some(GameObject::Card(c)) => c,
        _ => arbitrary(),
    }
}

/// The defense an object lends to a block: zero where it has none or is gone.
pub open spec fn defense_at(s: Seq<Option<GameObject>>, id: u32) -> int {
    match object_at(s, id) {
        Some(GameObject::Card(c)) => match c.defense {
            Some(d) => d as int,
            None => 0,
        },
        _ => 0,
    }
}

/// `s` and `t` differ at most in the hero with id `id`, which is still a hero in `t`.
pub open spec fn only_hero_changed(s: Seq<Option<GameObject>>, t: Seq<Option<GameObject>>, id: u32) -> bool {
    &&& s.len() == t.len()
    &&& is_hero_at(t, id)
    &&& forall|j: int| 0 <= j < s.len() && j != id as int ==> t[j] == s[j]
}

impl View for Objects {
    type V = Seq<Option<GameObject>>;

    open spec fn view(&self) -> Seq<Option<GameObject>> {
        self.slots@
    }
}

impl Objects {
    pub fn new() -> (r: Objects)
        ensures
            r@.len() == 0,
    {
        Objects { slots: Vec::new() }
    }

    /// Adds an object and returns its id.
    pub fn spawn(&mut self, obj: GameObject) -> (id: u32)
        requires
            old(self)@.len() < u32::MAX,
        ensures
            id as int == old(self)@.len(),
            final(self)@ == old(self)@.push(Some(obj)),
    {
        let id = self.slots.len() as u32;
        self.slots.push(Some(obj));
        id
    }

    /// The object with id `id` ceases to exist.
    pub fn despawn(&mut self, id: u32)
        ensures
            final(self)@.len() == old(self)@.len(),
            object_at(final(self)@, id).is_none(),
            forall|j: int| 0 <= j < old(self)@.len() && j != id as int ==> final(self)@[j] == old(self)@[j],
    {
        let i = id as usize;
        if i < self.slots.len() {
            self.slots[i] = None;
        }
    }

    pub fn get(&self, id: u32) -> (r: Option<&GameObject>)
        ensures
            match r {
                Some(o) => object_at(self@, id) == Some(*o),
                None => object_at(self@, id).is_none(),
            },
    {
        let i = id as usize;
        if i < self.slots.len() {
            match &self.slots[i] {
                Some(o) => Some(o),
                None => None,
            }
        } else {
            None
        }
    }

    pub fn resolves(&self, id: u32) -> (r: bool)
        ensures
            r == object_at(self@, id).is_some(),
    {
        self.get(id).is_some()
    }

    pub fn is_hero(&self, id: u32) -> (r: bool)
        ensures
            r == is_hero_at(self@, id),
    {
        matches!(self.get(id), Some(GameObject::Hero(_)))
    }

    pub fn hero(&self, id: u32) -> (r: Option<&HeroBundle>)
        ensures
            match r {
                Some(h) => is_hero_at(self@, id) && hero_at(self@, id) == *h,
                None => !is_hero_at(self@, id),
            },
    {
        match self.get(id) {
            Some(GameObject::Hero(h)) => Some(h),
            _ => None,
        }
    }

    pub fn card(&self, id: u32) -> (r: Option<&CardBundle>)
        ensures
            match r {
                Some(c) => is_card_at(self@, id) && card_at(self@, id) == *c,
                None => !is_card_at(self@, id),
            },
    {
        match self.get(id) {
            Some(GameObject::Card(c)) => Some(c),
            _ => None,
        }
    }

    /// The defense of a card, or zero where there is none.
    pub fn defense_or_zero(&self, id: u32) -> (r: u16)
        ensures
            r as int == defense_at(self@, id),
    {
        match self.card(id) {
            Some(c) => match c.defense {
                Some(d) => d,
                None => 0,
            },
            None => 0,
        }
    }

    /// Takes the hero with id `id` out of its slot; `put_hero` brings it back.
    fn take_hero(&mut self, id: u32) -> (r: HeroBundle)
        requires
            is_hero_at(old(self)@, id),
        ensures
            r == hero_at(old(self)@, id),
            final(self)@ == old(self)@.update(id as int, None),
    {
        let i = id as usize;
        let mut slot: Option<GameObject> = None;
        std::mem::swap(&mut slot, &mut self.slots[i]);
        match slot {
            Some(GameObject::Hero(h)) => h,
            _ => vstd::pervasive::unreached(),
        }
    }

    /// Puts a hero into the slot of id `id`.
    fn put_hero(&mut self, id: u32, h: HeroBundle)
        requires
            (id as int) < old(self)@.len(),
        ensures
            final(self)@ == old(self)@.update(id as int, Some(GameObject::Hero(h))),
    {
        self.slots[id as usize] = Some(GameObject::Hero(h));
    }

    pub fn set_action_points(&mut self, id: u32, ap: u16)
        requires
            is_hero_at(old(self)@, id),
        ensures
            only_hero_changed(old(self)@, final(self)@, id),
            hero_at(final(self)@, id) == (HeroBundle { action_points: ap, ..hero_at(old(self)@, id) }),
    {
        let mut h = self.take_hero(id);
        h.action_points = ap;
        self.put_hero(id, h);
    }

    pub fn set_resources(&mut self, id: u32, resources: u16)
        requires
            is_hero_at(old(self)@, id),
        ensures
            only_hero_changed(old(self)@, final(self)@, id),
            hero_at(final(self)@, id) == (HeroBundle { resources, ..hero_at(old(self)@, id) }),
    {
        let mut h = self.take_hero(id);
        h.resources = resources;
        self.put_hero(id, h);
    }

    pub fn set_health(&mut self, id: u32, health: u16)
        requires
            is_hero_at(old(self)@, id),
        ensures
            only_hero_changed(old(self)@, final(self)@, id),
            hero_at(final(self)@, id) == (HeroBundle { health, ..hero_at(old(self)@, id) }),
    {
        let mut h = self.take_hero(id);
        h.health = health;
        self.put_hero(id, h);
    }

    /// Pays for a card: `cost` leaves the hero's resources, and one action point goes too
    /// where `uses_action` holds.
    pub fn pay(&mut self, id: u32, cost: u16, uses_action: bool)
        requires
            is_hero_at(old(self)@, id),
            cost <= hero_at(old(self)@, id).resources,
            uses_action ==> hero_at(old(self)@, id).action_points > 0,
        ensures
            only_hero_changed(old(self)@, final(self)@, id),
            hero_at(final(self)@, id) == (HeroBundle {
                resources: (hero_at(old(self)@, id).resources - cost) as u16,
                action_points: if uses_action {
                    (hero_at(old(self)@, id).action_points - 1) as u16
                } else {
                    hero_at(old(self)@, id).action_points
                },
                ..hero_at(old(self)@, id)
            }),
    {
        let mut h = self.take_hero(id);
        h.resources = h.resources - cost;
        if uses_action {
            h.action_points = h.action_points - 1;
        }
        self.put_hero(id, h);
    }

    /// Moves `card` from the hero's hand to the front of its pitch zone and adds `gain` to its
    /// resources.
    pub fn pitch_card(&mut self, id: u32, card: u32, gain: u16)
        requires
            is_hero_at(old(self)@, id),
            hero_at(old(self)@, id).resources + gain <= u16::MAX,
        ensures
            only_hero_changed(old(self)@, final(self)@, id),
            hero_at(final(self)@, id).hand@ == hero_at(old(self)@, id).hand@.filter(|c: u32| c != card),
            hero_at(final(self)@, id).pitch@ == seq![card] + hero_at(old(self)@, id).pitch@,
            hero_at(final(self)@, id).resources == hero_at(old(self)@, id).resources + gain,
            hero_at(final(self)@, id).action_points == hero_at(old(self)@, id).action_points,
            hero_at(final(self)@, id).health == hero_at(old(self)@, id).health,
    {
        let mut h = self.take_hero(id);
        let ghost before = h.hand@;
        let mut kept: Vec<u32> = Vec::new();
        let mut i: usize = 0;
        while i < h.hand.len()
            invariant
                0 <= i <= before.len(),
                h.hand@ == before,
                kept@ == before.subrange(0, i as int).filter(|c: u32| c != card),
            decreases before.len() - i,
        {
            let c = h.hand[i];
            proof {
                let pre = before.subrange(0, i as int);
                assert(before.subrange(0, i as int + 1) =~= pre.push(c));
                pre.lemma_filter_push(c, |c: u32| c != card);
            }
            if c != card {
                kept.push(c);
            }
            i = i + 1;
        }
        assert(before.subrange(0, before.len() as int) =~= before);
        h.hand = kept;
        h.pitch.push_front(card);
        h.resources = h.resources + gain;
        self.put_hero(id, h);
    }
}

} // verus!
