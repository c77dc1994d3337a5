//! The dedicated ping handler: acknowledges every ping-type interaction,
//! independent of any command-name matching.

use vstd::prelude::*;
use crate::bot::BotContext;
use crate::interaction::{is_pong_callback, Interaction, InteractionCallback, InteractionType};
use crate::interaction_pipeline::InteractionHandlerResult;

verus! {

pub struct PingInteractionHandler;

impl PingInteractionHandler {
    /// Claims exactly the ping-type interactions and answers each with the
    /// bare pong acknowledgement, touching nothing else.
    pub fn handle(&self, interaction: &Interaction, _context: &BotContext) -> (r:
        InteractionHandlerResult)
        ensures
            r is Some <==> interaction.interaction_type == InteractionType::Ping,
            r matches Some(res) ==> res matches Ok(cb) && is_pong_callback(cb),
    {
        if interaction.interaction_type == InteractionType::Ping {
            Some(Ok(InteractionCallback::pong()))
        } else {
            None
        }
    }
}

} // verus!
