//! A Discord bot library: registries of commands and button callbacks,
//! the slash commands, and the routing of gateway events.
pub mod bot;
pub mod command;
pub mod commands;
pub mod component;
pub mod events;
pub mod registry;
pub mod text;
pub mod ui;
