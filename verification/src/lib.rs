//! Simulation engine of a castle-defence idle clicker.
//!
//! A player gathers gold by clicking and by passive income, spends it on
//! upgrades, and has to survive random attacks that drain the castle's
//! defense. This crate holds the rules of that game: the resource model, the
//! upgrade economy, the per-second accrual, the random event resolver and the
//! lifecycle state machine. Time enters as a count of milliseconds read from
//! a monotonic clock by the caller; rendering, key polling and configuration
//! files are the caller's business.

pub mod components;
pub mod config;
pub mod game;
pub mod input;
pub mod random;
pub mod ratio;
pub mod session;
pub mod snapshot;
pub mod systems;
