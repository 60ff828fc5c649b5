//! Rules engine of a turn-based, priority-passing card game: who may act, what waits to
//! resolve, and how an attack runs from its declaration to its damage and close.
//!
//! The engine: [`priority`], [`stack`], [`objects`], [`game`], [`admission`], [`combat`],
//! [`phases`], [`effects`] and [`engine`], with [`setup`] for the first turn and [`command`]
//! for the participants' text commands.
//!
//! A card prototype of creatures, generators and constructs: [`base_types`],
//! [`base_traits`], [`creatures`], [`generators`], [`constructs`], [`evocations`], and the
//! playing field in [`field`].

pub mod admission;
pub mod combat;
pub mod command;
pub mod effects;
pub mod engine;
pub mod game;
pub mod objects;
pub mod phases;
pub mod priority;
pub mod setup;
pub mod stack;

pub mod base_traits;
pub mod base_types;
pub mod constructs;
pub mod creatures;
pub mod evocations;
pub mod field;
pub mod generators;
