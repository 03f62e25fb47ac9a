//! LG Buddy: verified core logic for controlling an LG webOS TV around
//! desktop idle, system sleep and startup events.

pub mod cli;
pub mod commands;
pub mod json;
pub mod config;
pub mod logind;
pub mod notifications;
pub mod session;
pub mod session_bus;
pub mod session_notifications;
pub mod settings;
pub mod state;
pub mod text;
pub mod tv;
pub mod updates;
pub mod version;
pub mod web_os;

pub use cli::{parse_args, usage, Command, ParseError, ParseOutcome, SettingsCommand, StartupMode};
