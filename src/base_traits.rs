//! What the objects of the card prototype can do.
use crate::base_types::{Resource, ResourceToken};
use vstd::prelude::*;

verus! {

pub trait Buildable: Sized {
    fn build() -> Self;
}

pub trait Playable {
    fn play_cost(&self) -> Resource {
        Resource(1)
    }
}

pub trait Damageable {
    const BASE_HEALTH: u32 = 10;

    /// The current health.
    spec fn health_of(&self) -> u32;

    /// Loses `dmg` health; more damage than health is left out.
    fn damage(&mut self, dmg: u32)
        requires
            dmg <= old(self).health_of(),
        ensures
            final(self).health_of() == old(self).health_of() - dmg,
    ;
}

/// The health a repair brings, never past the base health.
pub open spec fn repaired_health(health: u32, base: u32, amount: u32) -> u32 {
    if health + amount < base {
        (health + amount) as u32
    } else {
        base
    }
}

pub trait Repairable: Damageable {
    fn repair(self) -> (r: Self) where Self: Sized
        ensures
            r.health_of() == repaired_health(self.health_of(), Self::BASE_HEALTH, 5),
    ;

    fn repair_amount(&self) -> (r: u32)
        ensures
            r == 5,
    {
        5
    }
}

pub trait Scrappable {
    const SCRAP_YIELD: u32 = 2;

    fn scrap(&self) -> ResourceToken {
        ResourceToken(Self::SCRAP_YIELD)
    }
}

} // verus!
