//! The rules of a few small games and tools, apart from any screen.
//!
//! The code-breaking game and the turn timer are the heart of it; the snake
//! and the counters and animations beside them are what their programs
//! share. Each of them is stepped once per frame by a caller that polls the
//! input and samples the clock. Nothing here draws or reads a device: what
//! happened comes in as plain values, and what the frame did can be read from
//! the state afterwards.

pub mod animation_tickers;
pub mod button;
pub mod color_animation;
pub mod display_color;
pub mod format;
pub mod fps;
pub mod infinite_iterator;
pub mod mastermind;
pub mod rand_seed;
pub mod snake;
pub mod timestamp;
pub mod turn_time_tracker;
