//! Status reporting for a game server: what a poll of the server turned out
//! to be, the channel name that shows it, and the order in which polling,
//! renaming and sleeping follow each other.

pub mod cycle;
pub mod decimal;
pub mod format;
pub mod outcome;
pub mod schedule;
pub mod settings;
pub mod text;
