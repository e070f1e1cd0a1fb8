//! Bedwars statistics reports: the level curve, the ratios, the emphasis
//! tiers, the rendering of report lines and the list of ignored players.
//!
//! Everything here works on plain values. Fetching profiles and statistics
//! over the network, and talking to the chat platform, is left to the caller.

pub mod batch;
pub mod commands;
pub mod emphasis;
pub mod ignore_list;
pub mod level;
pub mod ratio;
pub mod registration;
pub mod roster;
pub mod text;
