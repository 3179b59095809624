//! A terminal music player's logic: the song list and its cursor, the
//! scanner that fills the list, the playback state machine, the commands of
//! the event loop, what a frame shows, and the user's settings.

pub mod app;
pub mod config;
pub mod events;
pub mod playback;
pub mod render;
pub mod scanner;
pub mod selection;
pub mod state;
pub mod text;
