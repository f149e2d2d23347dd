//! Space Looter: the rules of a dice-driven isometric exploration game.
//!
//! The crate is split like the game itself: `domain` holds the value objects,
//! entities and services that define the rules, `application` the use cases that
//! drive them, and `infrastructure` the deterministic helpers (random number
//! generators, engine-side resources) that feed values into the rules.

pub mod application;
pub mod clock;
pub mod domain;
pub mod infrastructure;
pub mod table;
pub mod text;
