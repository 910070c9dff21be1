//! Policy core of a daily-wallpaper cacher.
//!
//! A small library around three decisions: where the day's image is cached
//! and under what name, whether a run still has to download it (at most one
//! download per calendar day), and which older cached files a run may delete
//! (keep the most recently modified ones, up to a retention count). All
//! network, filesystem and desktop work is left to the caller; the library
//! only plans it, and the plans are verified.

pub mod errors;
pub mod fetch;
pub mod naming;
pub mod prune;
pub mod resolve;
