//! The progression engine of a multi-stage escape room played in a group
//! chat: answer matching, cooldowns, per-user progress, the permission
//! transition between stages with bounded retries, winner resolution, and the
//! badge ledger's cache and listings.
pub mod text;
pub mod stage;
pub mod cooldown;
pub mod progress;
pub mod winners;
pub mod transition;
pub mod room;
pub mod sync;
pub mod interaction;
pub mod admin;
pub mod badges;
pub mod cache;
pub mod leaderboard;
pub mod commands;
pub mod mentions;
pub mod setup;
