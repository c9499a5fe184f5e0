//! Game-session engine for a turn-based geographic travel game.
//!
//! A player starts at a randomly sampled city and navigates one cardinal
//! direction at a time toward a hidden target city. The engine covers the
//! constrained random sampling of a valid city pair, the translation of a
//! cardinal direction into a directional search region, the asynchronous
//! job-submission/poll state machine that advances the player, and bearing
//! normalization and direction classification. Network transport, console
//! prompts and credential handling are left to the host around the library.

pub mod city;
pub mod error;
pub mod geodesy;
pub mod job;
pub mod region;
pub mod sampler;
pub mod session;
