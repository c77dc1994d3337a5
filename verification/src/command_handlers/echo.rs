//! The `echo` command: replies with the text it was given, verbatim.

use vstd::prelude::*;
use crate::application_command::{ApplicationCommandOptionValue, ApplicationCommandType};
use crate::command_handlers::CommandHandlerResult;
use crate::interaction::{
    is_message_callback,
    InteractionCallback,
    InteractionCallbackMessage,
    InteractionData,
};
use crate::text::str_eq;

verus! {

pub struct EchoCommandHandler;

/// The argument shape `echo` accepts: exactly one string-typed option named
/// `text`. Anything else — none, several, another name, another kind — is
/// no argument list for this command.
pub open spec fn echo_args(data: InteractionData) -> Option<Seq<char>> {
    match data.options {
        Some(opts) => {
            if opts@.len() == 1 {
                match opts@[0].value {
                    ApplicationCommandOptionValue::Str(t) => {
                        if opts@[0].name@ == "text"@ && opts@[0].application_command_option_type
                            == ApplicationCommandType::String {
                            Some(t@)
                        } else {
                            None
                        }
                    },
                    _ => None,
                }
            } else {
                None
            }
        },
        None => None,
    }
}

impl EchoCommandHandler {
    /// The command name this handler answers to.
    pub fn name() -> (r: &'static str)
        ensures
            r@ == "echo"@,
    {
        "echo"
    }

    /// Accepts exactly the option lists [`echo_args`] describes and hands
    /// back the text to echo.
    pub fn parse_args(interaction_data: &InteractionData) -> (r: Option<String>)
        ensures
            r is Some <==> echo_args(*interaction_data) is Some,
            r matches Some(s) ==> echo_args(*interaction_data) matches Some(t) && s@ == t,
    {
        match &interaction_data.options {
            Some(opts) => {
                if opts.len() == 1 {
                    let name_ok = str_eq(opts[0].name.as_str(), "text");
                    let type_ok = opts[0].application_command_option_type
                        == ApplicationCommandType::String;
                    match &opts[0].value {
                        ApplicationCommandOptionValue::Str(text) => {
                            if name_ok && type_ok {
                                Some(text.clone())
                            } else {
                                None
                            }
                        },
                        _ => None,
                    }
                } else {
                    None
                }
            },
            None => None,
        }
    }

    /// Echoes the parsed text back as the reply's content.
    pub fn handle(&self, args: String) -> (r: CommandHandlerResult)
        ensures
            r matches Ok(cb) && is_message_callback(cb, args@),
    {
        let msg = InteractionCallbackMessage { content: Some(args) };
        let callback = InteractionCallback::channel_message_with_source(msg);
        Ok(callback)
    }
}

} // verus!
