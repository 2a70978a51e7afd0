//! Inbound interactions: authentication, command resolution and dispatch.

pub use crate::interactions::commands::resolve_command_path;

pub mod command_handlers;
pub mod commands;
pub mod components;
pub mod dispatch;
pub mod render;
pub mod signature;
