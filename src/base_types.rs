//! Counters of the card prototype.
use vstd::prelude::*;

verus! {

pub struct Resource(pub u32);

pub struct ResourceToken(pub u32);

pub struct Turn(pub u32);

} // verus!
