//! A verified core for a webhook-driven chat-command bot.
//!
//! Inbound requests carry a detached signature over `timestamp || body`;
//! the authorization guard checks it before anything else runs. Authorized
//! interactions go through an ordered dispatch pipeline to the first
//! handler that claims them; command handlers parse typed arguments and
//! run against a persistent string key-value store.

pub mod application_command;
pub mod authorization;
pub mod bot;
pub mod command_handlers;
pub mod commands;
pub mod configuration;
pub mod decimal;
pub mod interaction;
pub mod interaction_handlers;
pub mod interaction_pipeline;
pub mod locale;
pub mod permissions;
pub mod snowflake;
pub mod store;
pub mod text;
