//! The built-in makers of creatures.
use crate::field::cards::{Creature, CreatureGen, CreatureType, CreatureView};
use vstd::prelude::*;

verus! {

pub struct BirdGenerator {}

impl CreatureGen for BirdGenerator {
    open spec fn made(&self) -> CreatureView {
        CreatureView { name: "Bird"@, creature_type: CreatureType::Flyer, damage: 1, health: 1 }
    }

    fn gen(&self) -> (r: Creature) {
        Creature { name: "Bird".to_owned(), creature_type: CreatureType::Flyer, damage: 1, health: 1 }
    }
}

pub struct RatGenerator {}

impl CreatureGen for RatGenerator {
    open spec fn made(&self) -> CreatureView {
        CreatureView { name: "Rat"@, creature_type: CreatureType::Plague, damage: 1, health: 1 }
    }

    fn gen(&self) -> (r: Creature) {
        Creature { name: "Rat".to_owned(), creature_type: CreatureType::Plague, damage: 1, health: 1 }
    }
}

pub struct SquirrelGenerator {}

impl CreatureGen for SquirrelGenerator {
    open spec fn made(&self) -> CreatureView {
        CreatureView {
            name: "Squirrel"@,
            creature_type: CreatureType::Scavanger,
            damage: 1,
            health: 1,
        }
    }

    fn gen(&self) -> (r: Creature) {
        Creature {
            name: "Squirrel".to_owned(),
            creature_type: CreatureType::Scavanger,
            damage: 1,
            health: 1,
        }
    }
}

pub struct MonkeyGenerator {}

impl CreatureGen for MonkeyGenerator {
    open spec fn made(&self) -> CreatureView {
        CreatureView {
            name: "Monkey"@,
            creature_type: CreatureType::Destroyer,
            damage: 1,
            health: 1,
        }
    }

    fn gen(&self) -> (r: Creature) {
        Creature {
            name: "Monkey".to_owned(),
            creature_type: CreatureType::Destroyer,
            damage: 1,
            health: 1,
        }
    }
}

/// One of the built-in generators.
pub enum InternalGenerator {
    Bird(BirdGenerator),
    Rat(RatGenerator),
    Squirrel(SquirrelGenerator),
    Monkey(MonkeyGenerator),
}

impl CreatureGen for InternalGenerator {
    open spec fn made(&self) -> CreatureView {
        match self {
            InternalGenerator::Bird(g) => g.made(),
            InternalGenerator::Rat(g) => g.made(),
            InternalGenerator::Squirrel(g) => g.made(),
            InternalGenerator::Monkey(g) => g.made(),
        }
    }

    fn gen(&self) -> (r: Creature) {
        match self {
            InternalGenerator::Bird(g) => g.gen(),
            InternalGenerator::Rat(g) => g.gen(),
            InternalGenerator::Squirrel(g) => g.gen(),
            InternalGenerator::Monkey(g) => g.gen(),
        }
    }
}

} // verus!
