//! Verified building blocks: the core of a fixed-size worker pool, and a
//! handful of small utilities.

pub mod adder;
pub mod cacher;
pub mod coins;
pub mod counter;
pub mod errors;
pub mod generics;
pub mod graphemes;
pub mod guessing_game;
pub mod gui;
pub mod lifetimes;
pub mod limit_tracker;
pub mod my_crate;
pub mod ownership;
pub mod parse;
pub mod pool;
mod random;
pub mod restaurant;
pub mod server;
pub mod smart_pointers;
pub mod structs;
pub mod summary;
pub mod text;
