//! Window geometry persistence: which windows are kept, what a save writes
//! into the cache and what a restore reads back and applies.

pub mod events;
pub mod laws;
pub mod flags;
pub mod restore;
pub mod save;
pub mod state;
