//! The creatures of the card prototype.
use crate::base_traits::Buildable;
use vstd::prelude::*;

verus! {

#[derive(Clone, Copy, Debug, PartialEq, Eq, Structural)]
pub enum CreatureType {
    Flyer,
    Plague,
    Scavanger,
    Destroyer,
}

pub trait Creature: Buildable {
    fn creature_type(&self) -> CreatureType;

    fn damage(&self) -> u32;
}

pub struct Bird {}

impl Buildable for Bird {
    fn build() -> Self {
        Bird {  }
    }
}

impl Creature for Bird {
    fn creature_type(&self) -> CreatureType {
        CreatureType::Flyer
    }

    fn damage(&self) -> u32 {
        1
    }
}

pub struct Rat {}

impl Buildable for Rat {
    fn build() -> Self {
        Rat {  }
    }
}

impl Creature for Rat {
    fn creature_type(&self) -> CreatureType {
        CreatureType::Plague
    }

    fn damage(&self) -> u32 {
        1
    }
}

pub struct Squirrel {}

impl Buildable for Squirrel {
    fn build() -> Self {
        Squirrel {  }
    }
}

impl Creature for Squirrel {
    fn creature_type(&self) -> CreatureType {
        CreatureType::Scavanger
    }

    fn damage(&self) -> u32 {
        1
    }
}

pub struct Monkey {}

impl Buildable for Monkey {
    fn build() -> Self {
        Monkey {  }
    }
}

impl Creature for Monkey {
    fn creature_type(&self) -> CreatureType {
        CreatureType::Destroyer
    }

    fn damage(&self) -> u32 {
        1
    }
}

} // verus!
