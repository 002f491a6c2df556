//! A terminal word-guessing game: a secret line of text is progressively
//! revealed as the player guesses letters, with a fixed number of lives.
//!
//! The heart of the crate is the game-state machine in [`game`]: it tracks
//! the discovered letters, computes the masked display, classifies each
//! guess as a hit, a miss or a repeat, and decides when the game is won or
//! lost. [`picker`] chooses the secret from a list of candidate lines, and
//! [`board`] renders the gallows picture for a remaining-lives count.
//! Reading the candidate file, console input and colored output live in the
//! surrounding binary, not here.

pub mod board;
pub mod game;
pub mod picker;
pub mod text;
