//! The `get` command: reads one stored value and replies with it.

use vstd::prelude::*;
use crate::application_command::{ApplicationCommandOptionValue, ApplicationCommandType};
use crate::bot::BotContext;
use crate::command_handlers::CommandHandlerResult;
use crate::interaction::{
    is_message_callback,
    InteractionCallback,
    InteractionCallbackMessage,
    InteractionData,
};
use crate::interaction_pipeline::InteractionError;
use crate::text::str_eq;

verus! {

pub struct GetCommandHandler;

/// The argument shape `get` accepts: exactly one string-typed option named
/// `key`.
pub open spec fn get_args(data: InteractionData) -> Option<Seq<char>> {
    match data.options {
        Some(opts) => {
            if opts@.len() == 1 {
                match opts@[0].value {
                    ApplicationCommandOptionValue::Str(k) => {
                        if opts@[0].name@ == "key"@ && opts@[0].application_command_option_type
                            == ApplicationCommandType::String {
                            Some(k@)
                        } else {
                            None
                        }
                    },
                    _ => None,
                }
            } else {
                None
            }
        },
        None => None,
    }
}

/// How a read value is formatted for display.
pub open spec fn get_reply_text(value: Seq<char>) -> Seq<char> {
    "Your data: `"@ + value + "`"@
}

impl GetCommandHandler {
    /// The command name this handler answers to.
    pub fn name() -> (r: &'static str)
        ensures
            r@ == "get"@,
    {
        "get"
    }

    /// Accepts exactly the option lists [`get_args`] describes and hands
    /// back the key to read.
    pub fn parse_args(interaction_data: &InteractionData) -> (r: Option<String>)
        ensures
            r is Some <==> get_args(*interaction_data) is Some,
            r matches Some(s) ==> get_args(*interaction_data) matches Some(k) && s@ == k,
    {
        match &interaction_data.options {
            Some(opts) => {
                if opts.len() == 1 {
                    let name_ok = str_eq(opts[0].name.as_str(), "key");
                    let type_ok = opts[0].application_command_option_type
                        == ApplicationCommandType::String;
                    match &opts[0].value {
                        ApplicationCommandOptionValue::Str(key) => {
                            if name_ok && type_ok {
                                Some(key.clone())
                            } else {
                                None
                            }
                        },
                        _ => None,
                    }
                } else {
                    None
                }
            },
            None => None,
        }
    }

    /// Reads the key from storage. A present key is answered with its value
    /// formatted for display; an absent one with `KeyNotFound`; an engine
    /// failure with `Unexpected`. The store is never changed.
    pub fn handle(&self, args: String, context: &mut BotContext) -> (r: CommandHandlerResult)
        ensures
            final(context).store.contents() == old(context).store.contents(),
            ({
                let m = old(context).store.contents();
                match r {
                    Ok(cb) => m.dom().contains(args@) && is_message_callback(
                        cb,
                        get_reply_text(m[args@]),
                    ),
                    Err(InteractionError::KeyNotFound) => !m.dom().contains(args@),
                    Err(InteractionError::Unexpected) => true,
                    _ => false,
                }
            }),
    {
        match context.store.read(args.as_str()) {
            Ok(value) => {
                let text = "Your data: `".to_owned().concat(value.as_str()).concat("`");
                let message = InteractionCallbackMessage { content: Some(text) };
                Ok(InteractionCallback::channel_message_with_source(message))
            },
            Err(e) => Err(InteractionError::from(e)),
        }
    }
}

} // verus!
