//! Evocations of the card prototype.
use crate::base_traits::{Buildable, Playable};
use crate::base_types::Resource;
use vstd::prelude::*;

verus! {

pub enum EvocationType {
    Damage,
}

pub trait Evocation: Playable + Buildable {
    const TYPE: EvocationType;
}

pub struct Lightning {
    pub damage: u32,
}

impl Playable for Lightning {
    fn play_cost(&self) -> Resource {
        Resource(2)
    }
}

impl Buildable for Lightning {
    fn build() -> Self {
        Lightning { damage: 10 }
    }
}

impl Evocation for Lightning {
    const TYPE: EvocationType = EvocationType::Damage;
}

} // verus!
