//! Core rules of a role-play game bot: players travel between places along
//! roads, moderators accept new characters, and universes are laid out as
//! categories, channels and roles on chat servers.

pub mod constants;
pub mod report;
pub mod text;
pub mod moves;
pub mod lang;
pub mod clock;
pub mod table;
pub mod stats;
pub mod access;
pub mod world;
pub mod layout;
pub mod dispatch;
pub mod setup;
