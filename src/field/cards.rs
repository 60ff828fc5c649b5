//! Cards of the playing field and what they carry.
use crate::field::internal_generators::InternalGenerator;
use vstd::prelude::*;

verus! {

/// What a creature is, with its name as text.
pub struct CreatureView {
    pub name: Seq<char>,
    pub creature_type: CreatureType,
    pub health: u32,
    pub damage: u32,
}

pub trait CreatureGen {
    /// The creature this generator makes.
    spec fn made(&self) -> CreatureView;

    fn gen(&self) -> (r: Creature)
        ensures
            r@ == self.made(),
    ;
}

pub struct Generator {
    pub gen_cost: u32,
    pub creature_gen: InternalGenerator,
    pub primed: bool,
}

#[derive(Clone, Copy, Debug, PartialEq, Eq, Structural)]
pub enum ConstructType {
    Wall { blocks_friendly: bool },
    Trap { damage: u32 },
}

#[derive(Debug)]
pub struct Construct {
    pub construct_type: ConstructType,
    pub max_health: u32,
    pub health: u32,
    pub erosion: u32,
}

pub trait Evokable {
    /// What evoking does to a creature.
    spec fn evoked(&self, c: CreatureView) -> CreatureView;

    fn evoke(&self, creature: Creature) -> (r: Creature)
        ensures
            r@ == self.evoked(creature@),
    ;

    fn evoke_mut(&self, creature: &mut Creature)
        ensures
            final(creature)@ == self.evoked(old(creature)@),
    ;
}

#[derive(Clone, Copy, Debug, PartialEq, Eq, Structural)]
pub enum EvocationType {
    Damage { dmg: u32 },
    Stun { duration: u32 },
}

/// An evocation acts on every creature as its type says: damage wounds, a stun leaves the
/// creature as it is.
pub struct Evocation {
    pub evocation_type: EvocationType,
}

#[derive(Clone, Copy, Debug, PartialEq, Eq, Structural)]
pub enum CreatureType {
    Flyer,
    Plague,
    Scavanger,
    Destroyer,
}

#[derive(Debug)]
pub struct Creature {
    pub name: String,
    pub creature_type: CreatureType,
    pub health: u32,
    pub damage: u32,
}

impl View for Creature {
    type V = CreatureView;

    open spec fn view(&self) -> CreatureView {
        CreatureView {
            name: self.name@,
            creature_type: self.creature_type,
            health: self.health,
            damage: self.damage,
        }
    }
}

pub struct Card {
    pub cost: u32,
    pub name: String,
    pub description: String,
    pub content: CardType,
}

pub enum CardType {
    Generator(Generator),
    Construct(Construct),
    Evocation(Evocation),
}

/// Health after `dmg` damage; it does not go below zero.
pub open spec fn wounded(health: u32, dmg: u32) -> u32 {
    if dmg <= health {
        (health - dmg) as u32
    } else {
        0
    }
}

pub open spec fn inflicted(c: CreatureView, dmg: u32) -> CreatureView {
    CreatureView { health: wounded(c.health, dmg), ..c }
}

pub open spec fn flies_spec(c: CreatureView) -> bool {
    c.creature_type == CreatureType::Flyer
}

pub open spec fn alive_spec(c: CreatureView) -> bool {
    c.health > 0
}

impl Evocation {
    pub fn new(evocation_type: EvocationType) -> (r: Evocation)
        ensures
            r.evocation_type == evocation_type,
    {
        Evocation { evocation_type }
    }
}

impl Evokable for Evocation {
    open spec fn evoked(&self, c: CreatureView) -> CreatureView {
        match self.evocation_type {
            EvocationType::Damage { dmg } => inflicted(c, dmg),
            EvocationType::Stun { .. } => c,
        }
    }

    fn evoke(&self, creature: Creature) -> (r: Creature) {
        match self.evocation_type {
            EvocationType::Damage { dmg } => creature.inflict(dmg),
            EvocationType::Stun { .. } => creature,
        }
    }

    fn evoke_mut(&self, creature: &mut Creature) {
        match self.evocation_type {
            EvocationType::Damage { dmg } => creature.inflict_mut(dmg),
            EvocationType::Stun { .. } => {},
        }
    }
}

impl Generator {
    pub fn new(cost: u32, creature_gen: InternalGenerator) -> (r: Generator)
        ensures
            r.gen_cost == cost,
            r.creature_gen == creature_gen,
            !r.primed,
    {
        Generator { gen_cost: cost, creature_gen, primed: false }
    }

    pub fn is_primed(&self) -> (r: bool)
        ensures
            r == self.primed,
    {
        self.primed
    }

    pub fn prime(&mut self)
        ensures
            final(self).primed,
            final(self).gen_cost == old(self).gen_cost,
            final(self).creature_gen == old(self).creature_gen,
    {
        self.primed = true;
    }

    pub fn gen(&self) -> (r: Creature)
        ensures
            r@ == self.creature_gen.made(),
    {
        self.creature_gen.gen()
    }
}

/// A construct after one round of erosion.
pub open spec fn eroded(c: Construct) -> Construct {
    Construct { health: wounded(c.health, c.erosion), ..c }
}

pub open spec fn broken_spec(c: Construct) -> bool {
    c.health == 0
}

pub open spec fn blocks_friendly_spec(c: Construct) -> bool {
    c.construct_type matches ConstructType::Wall { blocks_friendly: true }
}

pub open spec fn blocks_spec(c: Construct) -> bool {
    c.construct_type matches ConstructType::Wall { .. }
}

impl Construct {
    pub fn new(construct_type: ConstructType, max_health: u32, starting_health: u32, erosion: u32) -> (r: Construct)
        ensures
            r == (Construct { construct_type, max_health, health: starting_health, erosion }),
    {
        Construct { construct_type, max_health, health: starting_health, erosion }
    }

    /// Erosion wears the construct down; its health does not go below zero.
    pub fn apply_erosion(&mut self)
        ensures
            *final(self) == eroded(*old(self)),
    {
        self.health = self.health.saturating_sub(self.erosion);
    }

    pub fn erode(self) -> (r: Self)
        ensures
            r == eroded(self),
    {
        Self { health: self.health.saturating_sub(self.erosion), ..self }
    }

    pub fn broken(&self) -> (r: bool)
        ensures
            r == broken_spec(*self),
    {
        self.health == 0
    }

    pub fn blocks_friendly(&self) -> (r: bool)
        ensures
            r == blocks_friendly_spec(*self),
    {
        if let ConstructType::Wall { blocks_friendly } = self.construct_type {
            blocks_friendly
        } else {
            false
        }
    }

    pub fn blocks(&self) -> (r: bool)
        ensures
            r == blocks_spec(*self),
    {
        if let ConstructType::Wall { .. } = self.construct_type {
            true
        } else {
            false
        }
    }
}

impl Creature {
    pub fn flies(&self) -> (r: bool)
        ensures
            r == flies_spec(self@),
    {
        if let CreatureType::Flyer = self.creature_type {
            true
        } else {
            false
        }
    }

    pub fn alive(&self) -> (r: bool)
        ensures
            r == alive_spec(self@),
    {
        self.health > 0
    }

    /// The creature after `dmg` damage; its health does not go below zero.
    pub fn inflict(self, dmg: u32) -> (r: Self)
        ensures
            r@ == inflicted(self@, dmg),
    {
        Self { health: self.health.saturating_sub(dmg), ..self }
    }

    pub fn inflict_mut(&mut self, dmg: u32)
        ensures
            final(self)@ == inflicted(old(self)@, dmg),
    {
        self.health = self.health.saturating_sub(dmg);
    }
}

} // verus!
