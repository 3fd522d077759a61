//! A terminal music player's core: the track list, the key bindings, the
//! player state machine and the text it draws, each with its contract.

pub mod text;
pub mod track;
pub mod fuzzy_search;
pub mod number_drawer;
pub mod message;
pub mod config;
pub mod model;
pub mod update;
pub mod player;
pub mod screen;
pub mod laws;
