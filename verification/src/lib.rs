//! Core of a desktop utility that fetches a daily wallpaper image,
//! caches it locally and applies it as the desktop background.
//!
//! The crate holds the verified logic: the image resolver, the sync
//! cycle state machine, the shared status and settings model, the
//! cache-directory model and the scheduler decisions.  Network and
//! filesystem work is performed by the surrounding application, which
//! feeds the results back into the state machine as events.

pub mod cache;
pub mod engine;
pub mod resolver;
pub mod scheduler;
pub mod settings;
pub mod status;
