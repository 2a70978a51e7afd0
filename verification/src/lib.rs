//! Verified core of a webhook-driven command dispatcher for a chat-platform bot:
//! request authentication, the command registry, path resolution, argument
//! binding and the deferred-response state machine.

pub mod claude;
pub mod hex;
pub mod interactions;
pub mod model;
pub mod routes;
pub mod text;
pub mod todoist;
