//! Constructs of the card prototype.
use crate::base_traits::{Buildable, Damageable, Playable, Repairable, Scrappable};
use vstd::prelude::*;

verus! {

pub trait Construct: Playable + Buildable + Damageable + Repairable + Scrappable {
    const EROSION: u32 = 1;
}

pub struct Wall {
    health: u32,
}

impl Buildable for Wall {
    fn build() -> Self {
        Wall { health: Wall::BASE_HEALTH }
    }
}

impl Playable for Wall {}

impl Damageable for Wall {
    const BASE_HEALTH: u32 = 10;

    closed spec fn health_of(&self) -> u32 {
        self.health
    }

    fn damage(&mut self, dmg: u32) {
        self.health = self.health - dmg;
    }
}

impl Repairable for Wall {
    fn repair(self) -> (r: Self) {
        let repaired: u32 = if self.health < Self::BASE_HEALTH - self.repair_amount() {
            self.health + self.repair_amount()
        } else {
            Self::BASE_HEALTH
        };
        Self { health: repaired }
    }
}

impl Scrappable for Wall {}

impl Construct for Wall {}

} // verus!
