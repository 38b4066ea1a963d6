//! Verified core of the Roblox account manager: the data model of accounts,
//! groups and games, the decisions taken around the Roblox web API, the
//! portable export format, and the pure logic behind the UI panels.

pub mod text;
pub mod clock;
pub mod ids;
pub mod models;
pub mod api;
pub mod transfer;
pub mod i18n;
pub mod components;
