//! Core logic of a Telegram "looking for group" bot, verified with Verus.

pub mod text;
pub mod numbers;
pub mod matching;
pub mod models;
pub mod schedule;
pub mod kvargs;
pub mod reminders;
pub mod bot;
pub mod uptime;
pub mod commands;
pub mod membership;
pub mod activities;
pub mod planning;
pub mod guardians;
pub mod templates;
