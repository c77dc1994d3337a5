//! The ordered dispatch pipeline: handlers are tried in registration order
//! and the first one to claim an interaction — and only it — handles it.

pub mod error;

pub use error::InteractionError;

use vstd::prelude::*;
use crate::bot::BotContext;
use crate::interaction::{is_pong_callback, Interaction, InteractionCallback, InteractionType};
use crate::interaction_handlers::interaction_command::{
    claims_command,
    command_outcome,
    InteractionCommandInteractionHandler,
};
use crate::interaction_handlers::ping::PingInteractionHandler;

verus! {

/// What one handler gives back: `None` is the "not mine" sentinel that
/// sends the interaction to the next handler in order.
pub type InteractionHandlerResult = Option<Result<InteractionCallback, InteractionError>>;

/// One registered handler. The set is closed so the verifier can reason
/// about every claim; registration order still carries the priority.
pub enum InteractionHandler {
    Ping(PingInteractionHandler),
    Command(InteractionCommandInteractionHandler),
}

/// Whether a handler claims an interaction. A claim is decided by the
/// interaction alone — cheap and effect-free — never by the store.
pub open spec fn handler_claims(h: InteractionHandler, i: Interaction) -> bool {
    match h {
        InteractionHandler::Ping(_) => i.interaction_type == InteractionType::Ping,
        InteractionHandler::Command(c) => claims_command(c.0, i),
    }
}

/// What a claimed interaction's outcome guarantees, relating the reply and
/// the store before and after the claiming handler ran.
pub open spec fn handler_outcome(
    h: InteractionHandler,
    i: Interaction,
    old_store: Map<Seq<char>, Seq<char>>,
    new_store: Map<Seq<char>, Seq<char>>,
    r: Result<InteractionCallback, InteractionError>,
) -> bool {
    match h {
        InteractionHandler::Ping(_) => new_store == old_store && (r matches Ok(cb)
            && is_pong_callback(cb)),
        InteractionHandler::Command(c) => i.data matches Some(d) && command_outcome(
            c.0,
            d,
            old_store,
            new_store,
            r,
        ),
    }
}

impl InteractionHandler {
    /// Tries to claim and handle one interaction. `None` means "not mine":
    /// the store is untouched and the next handler in order gets to try.
    pub fn handle(&self, interaction: &Interaction, context: &mut BotContext) -> (r:
        InteractionHandlerResult)
        ensures
            r is Some <==> handler_claims(*self, *interaction),
            !handler_claims(*self, *interaction) ==> final(context).store.contents() == old(
                context,
            ).store.contents(),
            r matches Some(res) ==> handler_outcome(
                *self,
                *interaction,
                old(context).store.contents(),
                final(context).store.contents(),
                res,
            ),
    {
        match self {
            InteractionHandler::Ping(h) => h.handle(interaction, context),
            InteractionHandler::Command(h) => h.handle(interaction, context),
        }
    }
}

/// The ordered dispatcher. Construction fixes the order; dispatch tries the
/// handlers strictly in that order.
pub struct InteractionPipeline {
    handlers: Vec<InteractionHandler>,
}

impl InteractionPipeline {
    /// The handlers, in registration order.
    pub closed spec fn handlers(&self) -> Seq<InteractionHandler> {
        self.handlers@
    }

    pub fn new(handlers: Vec<InteractionHandler>) -> (r: Self)
        ensures
            r.handlers() == handlers@,
    {
        InteractionPipeline { handlers }
    }

    /// Dispatches one interaction: the first handler in order that claims
    /// it produces the result, with every handler before it having
    /// declined. If no handler claims it, the pipeline answers
    /// `NoHandlerFound` and the store is untouched — one reply or one error
    /// per interaction, never silence.
    pub fn handle(&self, interaction: Interaction, context: &mut BotContext) -> (r: Result<
        InteractionCallback,
        InteractionError,
    >)
        ensures
            (forall|j: int| 0 <= j < self.handlers().len() ==> !handler_claims(
                #[trigger] self.handlers()[j],
                interaction,
            )) ==> (r == Err::<InteractionCallback, InteractionError>(
                InteractionError::NoHandlerFound,
            ) && final(context).store.contents() == old(context).store.contents()),
            (exists|j: int| 0 <= j < self.handlers().len() && handler_claims(
                #[trigger] self.handlers()[j],
                interaction,
            )) ==> (exists|j: int|
                {
                    &&& 0 <= j < self.handlers().len()
                    &&& handler_claims(#[trigger] self.handlers()[j], interaction)
                    &&& forall|k: int| 0 <= k < j ==> !handler_claims(
                        #[trigger] self.handlers()[k],
                        interaction,
                    )
                    &&& handler_outcome(
                        self.handlers()[j],
                        interaction,
                        old(context).store.contents(),
                        final(context).store.contents(),
                        r,
                    )
                }),
    {
        let n = self.handlers.len();
        let mut idx: usize = 0;
        while idx < n
            invariant
                0 <= idx <= n,
                n == self.handlers@.len(),
                forall|k: int| 0 <= k < idx ==> !handler_claims(
                    #[trigger] self.handlers@[k],
                    interaction,
                ),
                context.store.contents() == old(context).store.contents(),
            decreases n - idx,
        {
            let handler = &self.handlers[idx];
            match handler.handle(&interaction, context) {
                Some(result) => {
                    proof {
                        assert(handler_claims(self.handlers()[idx as int], interaction));
                    }
                    return result;
                },
                None => {},
            }
            idx = idx + 1;
        }
        Err(InteractionError::NoHandlerFound)
    }
}

/// Dispatch order cannot hide a ping: a command adapter claims only
/// application commands, so whatever the registration order, the handler
/// that claims a ping-type interaction is a ping handler, its reply is the
/// pong acknowledgement, and the store is untouched; and as soon as any
/// ping handler is registered, some handler does claim it.
pub proof fn lemma_ping_takes_precedence(handlers: Seq<InteractionHandler>, i: Interaction, p: int)
    requires
        i.interaction_type == InteractionType::Ping,
        0 <= p < handlers.len(),
        handlers[p] is Ping,
    ensures
        exists|j: int| 0 <= j < handlers.len() && handler_claims(#[trigger] handlers[j], i),
        forall|j: int, old_store: Map<Seq<char>, Seq<char>>, new_store: Map<Seq<char>, Seq<char>>, r: Result<InteractionCallback, InteractionError>|
            (0 <= j < handlers.len() && handler_claims(handlers[j], i) && #[trigger] handler_outcome(
                handlers[j],
                i,
                old_store,
                new_store,
                r,
            )) ==> (handlers[j] is Ping && (r matches Ok(cb) && is_pong_callback(cb)) && new_store
                == old_store),
{
    assert(handler_claims(handlers[p], i));
    assert forall|j: int, old_store: Map<Seq<char>, Seq<char>>, new_store: Map<Seq<char>, Seq<char>>, r: Result<InteractionCallback, InteractionError>|
        (0 <= j < handlers.len() && handler_claims(handlers[j], i) && #[trigger] handler_outcome(
            handlers[j],
            i,
            old_store,
            new_store,
            r,
        )) implies (handlers[j] is Ping && (r matches Ok(cb) && is_pong_callback(cb)) && new_store
        == old_store) by {
        match handlers[j] {
            InteractionHandler::Ping(_) => {},
            InteractionHandler::Command(c) => {
                assert(!claims_command(c.0, i));
            },
        }
    }
}

} // verus!
