//! The `set` command: upserts one key-value pair into storage.

use vstd::prelude::*;
use crate::application_command::{ApplicationCommandOptionValue, ApplicationCommandType};
use crate::bot::BotContext;
use crate::command_handlers::CommandHandlerResult;
use crate::interaction::{
    is_message_callback,
    InteractionCallback,
    InteractionCallbackMessage,
    InteractionData,
};
use crate::interaction_pipeline::InteractionError;
use crate::text::str_eq;

verus! {

pub struct SetCommandHandler;

/// The parsed arguments of one `set` invocation.
pub struct SetCommandArgs {
    pub key: String,
    pub value: String,
}

/// The argument shape `set` accepts: exactly two string-typed options, the
/// first named `key`, the second named `value`, in that order.
pub open spec fn set_args(data: InteractionData) -> Option<(Seq<char>, Seq<char>)> {
    match data.options {
        Some(opts) => {
            if opts@.len() == 2 {
                match (opts@[0].value, opts@[1].value) {
                    (
                        ApplicationCommandOptionValue::Str(k),
                        ApplicationCommandOptionValue::Str(v),
                    ) => {
                        if opts@[0].name@ == "key"@ && opts@[1].name@ == "value"@ && opts@[0]
                            .application_command_option_type == ApplicationCommandType::String
                            && opts@[1].application_command_option_type
                            == ApplicationCommandType::String {
                            Some((k@, v@))
                        } else {
                            None
                        }
                    },
                    _ => None,
                }
            } else {
                None
            }
        },
        None => None,
    }
}

impl SetCommandHandler {
    /// The command name this handler answers to.
    pub fn name() -> (r: &'static str)
        ensures
            r@ == "set"@,
    {
        "set"
    }

    /// Accepts exactly the option lists [`set_args`] describes and hands
    /// back the key and value to store.
    pub fn parse_args(interaction_data: &InteractionData) -> (r: Option<SetCommandArgs>)
        ensures
            r is Some <==> set_args(*interaction_data) is Some,
            r matches Some(a) ==> set_args(*interaction_data) matches Some(p) && a.key@ == p.0
                && a.value@ == p.1,
    {
        match &interaction_data.options {
            Some(opts) => {
                if opts.len() == 2 {
                    let names_ok = str_eq(opts[0].name.as_str(), "key") && str_eq(
                        opts[1].name.as_str(),
                        "value",
                    );
                    let types_ok = opts[0].application_command_option_type
                        == ApplicationCommandType::String && opts[1].application_command_option_type
                        == ApplicationCommandType::String;
                    match (&opts[0].value, &opts[1].value) {
                        (
                            ApplicationCommandOptionValue::Str(key),
                            ApplicationCommandOptionValue::Str(value),
                        ) => {
                            if names_ok && types_ok {
                                Some(SetCommandArgs { key: key.clone(), value: value.clone() })
                            } else {
                                None
                            }
                        },
                        _ => None,
                    }
                } else {
                    None
                }
            },
            None => None,
        }
    }

    /// Upserts the pair: the value is written whether or not the key was
    /// present, and the fixed acknowledgement is replied. An engine failure
    /// is answered with `Unexpected`.
    pub fn handle(&self, args: SetCommandArgs, context: &mut BotContext) -> (r:
        CommandHandlerResult)
        ensures
            match r {
                Ok(cb) => final(context).store.contents() == old(context).store.contents().insert(
                    args.key@,
                    args.value@,
                ) && is_message_callback(cb, "Successfully set value for note!"@),
                Err(e) => e == InteractionError::Unexpected,
            },
    {
        match context.store.upsert(args.key.as_str(), args.value.as_str()) {
            Ok(()) => {
                let message = InteractionCallbackMessage {
                    content: Some("Successfully set value for note!".to_owned()),
                };
                Ok(InteractionCallback::channel_message_with_source(message))
            },
            Err(e) => Err(InteractionError::from(e)),
        }
    }
}

} // verus!
