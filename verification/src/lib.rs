//! Verified core of a log-driven speedrun timer for The Talos Principle.
//!
//! The library tails the game's log, classifies each line into a gameplay
//! event, and drives a timer engine through a fixed rule table. A second
//! subsystem watches the game process's memory for loading screens and
//! pauses the game-time clock accordingly. All decision logic is verified;
//! the timer engine and the memory reads are reached through small trusted
//! wrappers.

pub mod classifier;
pub mod config;
pub mod display;
pub mod engine;
pub mod probe;
pub mod locator;
pub mod machine;
pub mod tailbuf;
pub mod tracker;
pub mod text;
