//! The concrete command handlers: each one owns one command's name, its
//! exact argument shape, and its execution against the shared context.

pub mod echo;
pub mod get;
pub mod ls;
pub mod set;

pub use echo::EchoCommandHandler;
pub use get::GetCommandHandler;
pub use ls::LsCommandHandler;
pub use set::SetCommandHandler;

use vstd::prelude::*;
use crate::interaction::InteractionCallback;
use crate::interaction_pipeline::InteractionError;

verus! {

/// What executing one claimed command produces.
pub type CommandHandlerResult = Result<InteractionCallback, InteractionError>;

} // verus!
