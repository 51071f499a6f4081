//! Decision logic of an auto-splitter: it reads a snapshot of a game's live state
//! each tick, evaluates the configured split rules and tells a timer over a
//! control channel when to start, split, reset or set its game time.

pub mod commands;
pub mod engine;
pub mod game_data;
pub mod layout;
pub mod protocol;
pub mod split;
pub mod split_data;
pub mod text;
pub mod time_span;
