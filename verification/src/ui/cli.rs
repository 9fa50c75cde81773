//! The command-line front end.

pub mod cli_commands;

pub use cli_commands::{plan_session, Args, EscapeWatch, KeyAction, SessionPlan};
