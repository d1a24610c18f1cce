//! Rules of the enchanting mini-game: enchanting vaginas, daily blesses,
//! `/sex` duels and the gnome raids, with the decisions taken between
//! the bot's database and network calls.

pub mod random;
pub mod config;
pub mod repo;
pub mod commands;
pub mod text;
pub mod ench;
pub mod callback;
pub mod sex;
pub mod gnomes;
pub mod bless;
pub mod rollback;
