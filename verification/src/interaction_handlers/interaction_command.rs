//! The adapter that turns a narrow command handler into a pipeline handler:
//! it filters on interaction type and command name, parses the arguments,
//! and only then lets the command run.

use vstd::prelude::*;
use crate::bot::BotContext;
use crate::command_handlers::echo::{echo_args, EchoCommandHandler};
use crate::command_handlers::get::{get_args, get_reply_text, GetCommandHandler};
use crate::command_handlers::ls::{ls_args, ls_lines, LsCommandHandler};
use crate::command_handlers::set::{set_args, SetCommandHandler};
use crate::interaction::{
    is_message_callback,
    Interaction,
    InteractionCallback,
    InteractionData,
    InteractionType,
};
use crate::interaction_pipeline::{InteractionError, InteractionHandlerResult};
use crate::text::str_eq;

verus! {

/// The command handlers the bot registers, as one closed choice: spelling
/// the set out keeps every claim visible to the verifier, where an interface
/// object would hide it. A new command joins by adding a variant.
pub enum AnyCommandHandler {
    Echo(EchoCommandHandler),
    SetCmd(SetCommandHandler),
    Get(GetCommandHandler),
    Ls(LsCommandHandler),
}

/// The name each command handler answers to.
pub open spec fn command_name(h: AnyCommandHandler) -> Seq<char> {
    match h {
        AnyCommandHandler::Echo(_) => "echo"@,
        AnyCommandHandler::SetCmd(_) => "set"@,
        AnyCommandHandler::Get(_) => "get"@,
        AnyCommandHandler::Ls(_) => "ls"@,
    }
}

/// Whether the adapter claims an interaction for `h`: it must be an
/// application command whose payload names this handler's command. A claim
/// looks at nothing else; in particular it never claims a ping.
pub open spec fn claims_command(h: AnyCommandHandler, i: Interaction) -> bool {
    &&& i.interaction_type == InteractionType::ApplicationCommand
    &&& i.data matches Some(d) && d.name@ == command_name(h)
}

/// What handling one claimed command guarantees, relating the reply and the
/// store before and after. An option list that does not parse is uniformly
/// refused as `InvalidCommand` with the store untouched; a store-engine
/// failure surfaces as `Unexpected`.
pub open spec fn command_outcome(
    h: AnyCommandHandler,
    data: InteractionData,
    old_store: Map<Seq<char>, Seq<char>>,
    new_store: Map<Seq<char>, Seq<char>>,
    r: Result<InteractionCallback, InteractionError>,
) -> bool {
    match h {
        AnyCommandHandler::Echo(_) => match echo_args(data) {
            Some(text) => new_store == old_store && (r matches Ok(cb) && is_message_callback(
                cb,
                text,
            )),
            None => new_store == old_store && r == Err::<InteractionCallback, InteractionError>(
                InteractionError::InvalidCommand,
            ),
        },
        AnyCommandHandler::SetCmd(_) => match set_args(data) {
            Some(kv) => match r {
                Ok(cb) => new_store == old_store.insert(kv.0, kv.1) && is_message_callback(
                    cb,
                    "Successfully set value for note!"@,
                ),
                Err(e) => e == InteractionError::Unexpected,
            },
            None => new_store == old_store && r == Err::<InteractionCallback, InteractionError>(
                InteractionError::InvalidCommand,
            ),
        },
        AnyCommandHandler::Get(_) => match get_args(data) {
            Some(key) => new_store == old_store && (match r {
                Ok(cb) => old_store.dom().contains(key) && is_message_callback(
                    cb,
                    get_reply_text(old_store[key]),
                ),
                Err(InteractionError::KeyNotFound) => !old_store.dom().contains(key),
                Err(InteractionError::Unexpected) => true,
                Err(_) => false,
            }),
            None => new_store == old_store && r == Err::<InteractionCallback, InteractionError>(
                InteractionError::InvalidCommand,
            ),
        },
        AnyCommandHandler::Ls(_) => match ls_args(data) {
            Some(_) => new_store == old_store && (match r {
                Ok(cb) => ({
                    let keys = crate::store::engine_key_order(old_store);
                    &&& keys.to_set() == old_store.dom()
                    &&& keys.no_duplicates()
                    &&& is_message_callback(cb, ls_lines(keys))
                }),
                Err(e) => e == InteractionError::Unexpected,
            }),
            None => new_store == old_store && r == Err::<InteractionCallback, InteractionError>(
                InteractionError::InvalidCommand,
            ),
        },
    }
}

/// Adapts one command handler to the pipeline's handler shape.
pub struct InteractionCommandInteractionHandler(pub AnyCommandHandler);

impl InteractionCommandInteractionHandler {
    /// Claims an interaction exactly when it is an application command
    /// naming this handler's command; a claim whose options do not parse is
    /// refused as `InvalidCommand`, never passed to the next handler. A
    /// declined interaction leaves the store untouched.
    pub fn handle(&self, interaction: &Interaction, context: &mut BotContext) -> (r:
        InteractionHandlerResult)
        ensures
            r is Some <==> claims_command(self.0, *interaction),
            !claims_command(self.0, *interaction) ==> final(context).store.contents() == old(
                context,
            ).store.contents(),
            r matches Some(res) ==> (interaction.data matches Some(d) && command_outcome(
                self.0,
                d,
                old(context).store.contents(),
                final(context).store.contents(),
                res,
            )),
    {
        if !(interaction.interaction_type == InteractionType::ApplicationCommand) {
            return None;
        }
        let data = match &interaction.data {
            Some(d) => d,
            None => {
                return None;
            },
        };
        let name: &str = match &self.0 {
            AnyCommandHandler::Echo(_) => EchoCommandHandler::name(),
            AnyCommandHandler::SetCmd(_) => SetCommandHandler::name(),
            AnyCommandHandler::Get(_) => GetCommandHandler::name(),
            AnyCommandHandler::Ls(_) => LsCommandHandler::name(),
        };
        if !str_eq(data.name.as_str(), name) {
            return None;
        }
        match &self.0 {
            AnyCommandHandler::Echo(h) => match EchoCommandHandler::parse_args(data) {
                Some(args) => Some(h.handle(args)),
                None => Some(Err(InteractionError::InvalidCommand)),
            },
            AnyCommandHandler::SetCmd(h) => match SetCommandHandler::parse_args(data) {
                Some(args) => Some(h.handle(args, context)),
                None => Some(Err(InteractionError::InvalidCommand)),
            },
            AnyCommandHandler::Get(h) => match GetCommandHandler::parse_args(data) {
                Some(args) => Some(h.handle(args, context)),
                None => Some(Err(InteractionError::InvalidCommand)),
            },
            AnyCommandHandler::Ls(h) => match LsCommandHandler::parse_args(data) {
                Some(args) => Some(h.handle(args, context)),
                None => Some(Err(InteractionError::InvalidCommand)),
            },
        }
    }
}

impl From<EchoCommandHandler> for InteractionCommandInteractionHandler {
    fn from(h: EchoCommandHandler) -> (r: Self)
        ensures
            r.0 is Echo,
    {
        InteractionCommandInteractionHandler(AnyCommandHandler::Echo(h))
    }
}

impl vstd::std_specs::convert::FromSpecImpl<EchoCommandHandler> for InteractionCommandInteractionHandler {
    open spec fn obeys_from_spec() -> bool {
        true
    }

    open spec fn from_spec(h: EchoCommandHandler) -> Self {
        InteractionCommandInteractionHandler(AnyCommandHandler::Echo(h))
    }
}

impl From<SetCommandHandler> for InteractionCommandInteractionHandler {
    fn from(h: SetCommandHandler) -> (r: Self)
        ensures
            r.0 is SetCmd,
    {
        InteractionCommandInteractionHandler(AnyCommandHandler::SetCmd(h))
    }
}

impl vstd::std_specs::convert::FromSpecImpl<SetCommandHandler> for InteractionCommandInteractionHandler {
    open spec fn obeys_from_spec() -> bool {
        true
    }

    open spec fn from_spec(h: SetCommandHandler) -> Self {
        InteractionCommandInteractionHandler(AnyCommandHandler::SetCmd(h))
    }
}

impl From<GetCommandHandler> for InteractionCommandInteractionHandler {
    fn from(h: GetCommandHandler) -> (r: Self)
        ensures
            r.0 is Get,
    {
        InteractionCommandInteractionHandler(AnyCommandHandler::Get(h))
    }
}

impl vstd::std_specs::convert::FromSpecImpl<GetCommandHandler> for InteractionCommandInteractionHandler {
    open spec fn obeys_from_spec() -> bool {
        true
    }

    open spec fn from_spec(h: GetCommandHandler) -> Self {
        InteractionCommandInteractionHandler(AnyCommandHandler::Get(h))
    }
}

impl From<LsCommandHandler> for InteractionCommandInteractionHandler {
    fn from(h: LsCommandHandler) -> (r: Self)
        ensures
            r.0 is Ls,
    {
        InteractionCommandInteractionHandler(AnyCommandHandler::Ls(h))
    }
}

impl vstd::std_specs::convert::FromSpecImpl<LsCommandHandler> for InteractionCommandInteractionHandler {
    open spec fn obeys_from_spec() -> bool {
        true
    }

    open spec fn from_spec(h: LsCommandHandler) -> Self {
        InteractionCommandInteractionHandler(AnyCommandHandler::Ls(h))
    }
}

} // verus!
