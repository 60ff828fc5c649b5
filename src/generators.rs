//! Generators of the card prototype: damageable, repairable buildings that make creatures.
use crate::base_traits::{Buildable, Damageable, Playable, Repairable, repaired_health};
use crate::base_types::{Resource, Turn};
use crate::creatures;
use vstd::prelude::*;

verus! {

pub enum GenType {
    Creature,
}

pub trait Generator: Damageable + Playable + Buildable + Repairable {
    const GEN_TYPE: GenType;

    type Item: Buildable;

    fn gen(&self) -> Self::Item {
        Self::Item::build()
    }

    fn gen_time(&self) -> Turn {
        Turn(1)
    }

    fn gen_cost(&self) -> Resource {
        Resource(1)
    }
}

/// Health after a repair of `amount`, computed without overflow.
fn repair_health(health: u32, base: u32, amount: u32) -> (r: u32)
    ensures
        r == repaired_health(health, base, amount),
{
    if (health as u64) + (amount as u64) < base as u64 {
        health + amount
    } else {
        base
    }
}

pub struct BirdGenerator {
    health: u32,
}

impl BirdGenerator {
    pub closed spec fn health_spec(&self) -> u32 {
        self.health
    }

    pub fn health(&self) -> (r: u32)
        ensures
            r == self.health_spec(),
    {
        self.health
    }
}

impl Buildable for BirdGenerator {
    fn build() -> Self {
        BirdGenerator { health: Self::BASE_HEALTH }
    }
}

impl Damageable for BirdGenerator {
    closed spec fn health_of(&self) -> u32 {
        self.health
    }

    fn damage(&mut self, dmg: u32) {
        self.health = self.health - dmg;
    }
}

impl Repairable for BirdGenerator {
    fn repair(self) -> (r: Self) {
        Self { health: repair_health(self.health, Self::BASE_HEALTH, self.repair_amount()) }
    }
}

impl Playable for BirdGenerator {}

impl Generator for BirdGenerator {
    const GEN_TYPE: GenType = GenType::Creature;

    type Item = creatures::Bird;
}

pub struct RatGenerator {
    health: u32,
}

impl RatGenerator {
    pub closed spec fn health_spec(&self) -> u32 {
        self.health
    }

    pub fn health(&self) -> (r: u32)
        ensures
            r == self.health_spec(),
    {
        self.health
    }
}

impl Buildable for RatGenerator {
    fn build() -> Self {
        RatGenerator { health: Self::BASE_HEALTH }
    }
}

impl Damageable for RatGenerator {
    closed spec fn health_of(&self) -> u32 {
        self.health
    }

    fn damage(&mut self, dmg: u32) {
        self.health = self.health - dmg;
    }
}

impl Repairable for RatGenerator {
    fn repair(self) -> (r: Self) {
        Self { health: repair_health(self.health, Self::BASE_HEALTH, self.repair_amount()) }
    }
}

impl Playable for RatGenerator {}

impl Generator for RatGenerator {
    const GEN_TYPE: GenType = GenType::Creature;

    type Item = creatures::Rat;
}

pub struct SquirrelGenerator {
    health: u32,
}

impl SquirrelGenerator {
    pub closed spec fn health_spec(&self) -> u32 {
        self.health
    }

    pub fn health(&self) -> (r: u32)
        ensures
            r == self.health_spec(),
    {
        self.health
    }
}

impl Buildable for SquirrelGenerator {
    fn build() -> Self {
        SquirrelGenerator { health: Self::BASE_HEALTH }
    }
}

impl Damageable for SquirrelGenerator {
    closed spec fn health_of(&self) -> u32 {
        self.health
    }

    fn damage(&mut self, dmg: u32) {
        self.health = self.health - dmg;
    }
}

impl Repairable for SquirrelGenerator {
    fn repair(self) -> (r: Self) {
        Self { health: repair_health(self.health, Self::BASE_HEALTH, self.repair_amount()) }
    }
}

impl Playable for SquirrelGenerator {}

impl Generator for SquirrelGenerator {
    const GEN_TYPE: GenType = GenType::Creature;

    type Item = creatures::Squirrel;
}

pub struct MonkeyGenerator {
    health: u32,
}

impl MonkeyGenerator {
    pub closed spec fn health_spec(&self) -> u32 {
        self.health
    }

    pub fn health(&self) -> (r: u32)
        ensures
            r == self.health_spec(),
    {
        self.health
    }
}

impl Buildable for MonkeyGenerator {
    fn build() -> Self {
        MonkeyGenerator { health: Self::BASE_HEALTH }
    }
}

impl Damageable for MonkeyGenerator {
    closed spec fn health_of(&self) -> u32 {
        self.health
    }

    fn damage(&mut self, dmg: u32) {
        self.health = self.health - dmg;
    }
}

impl Repairable for MonkeyGenerator {
    fn repair(self) -> (r: Self) {
        Self { health: repair_health(self.health, Self::BASE_HEALTH, self.repair_amount()) }
    }
}

impl Playable for MonkeyGenerator {}

impl Generator for MonkeyGenerator {
    const GEN_TYPE: GenType = GenType::Creature;

    type Item = creatures::Monkey;
}

} // verus!
