//! Handlers at the pipeline's interface: the dedicated ping handler and the
//! adapter that lifts a command handler into the pipeline's shape.

pub mod interaction_command;
pub mod ping;

pub use interaction_command::{AnyCommandHandler, InteractionCommandInteractionHandler};
pub use ping::PingInteractionHandler;
