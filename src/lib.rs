//! The game logic of a "Simon says" memory game: random patterns over three
//! symbols, the timed reveal of a pattern, and the matching of the player's
//! clicks against it.
pub mod entry;
pub mod game;
pub mod pattern;
pub mod sequencer;
