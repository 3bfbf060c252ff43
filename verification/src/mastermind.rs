//! The code-breaking game: colours, the secret, scoring of guesses, and the
//! session that a player steps through frame by frame.

pub mod color;
pub mod guess;
pub mod password;
pub mod game;
