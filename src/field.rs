//! The playing field of the card prototype: cards, the zones they occupy, and each side's half.
pub mod cards;
pub mod field;
pub mod instances;
pub mod internal_generators;
pub mod zones;
