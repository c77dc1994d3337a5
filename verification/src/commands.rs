//! The command set this bot declares with the remote platform: the exact
//! names and option shapes the handlers answer to.

use vstd::prelude::*;
use crate::application_command::{
    ApplicationCommand,
    ApplicationCommandOption,
    ApplicationCommandType,
};
use crate::snowflake::Snowflake;

verus! {

/// The four commands, in the order they are registered: `set`, `get`,
/// `echo`, `ls`, each with the exact options its handler parses.
pub fn default_commands(app_id: Snowflake) -> (r: Vec<ApplicationCommand>)
    ensures
        r@.len() == 4,
        ({
            let set = r@[0];
            &&& set.name@ == "set"@
            &&& set.application_id@ == app_id@
            &&& set.description@ == "Save new note"@
            &&& set.options matches Some(opts) && opts@.len() == 2 && opts@[0].name@ == "key"@
                && opts@[0].command_type == ApplicationCommandType::String && opts@[0].required
                == Some(true) && opts@[1].name@ == "value"@ && opts@[1].command_type
                == ApplicationCommandType::String && opts@[1].required == Some(true)
        }),
        ({
            let get = r@[1];
            &&& get.name@ == "get"@
            &&& get.application_id@ == app_id@
            &&& get.description@ == "Read saved note"@
            &&& get.options matches Some(opts) && opts@.len() == 1 && opts@[0].name@ == "key"@
                && opts@[0].command_type == ApplicationCommandType::String && opts@[0].required
                == Some(true)
        }),
        ({
            let echo = r@[2];
            &&& echo.name@ == "echo"@
            &&& echo.application_id@ == app_id@
            &&& echo.description@ == "Reply with same text"@
            &&& echo.options matches Some(opts) && opts@.len() == 1 && opts@[0].name@ == "text"@
                && opts@[0].command_type == ApplicationCommandType::String && opts@[0].required
                == Some(true)
        }),
        ({
            let ls = r@[3];
            &&& ls.name@ == "ls"@
            &&& ls.application_id@ == app_id@
            &&& ls.description@ == "List all available notes"@
            &&& ls.options is None
        }),
{
    let set = ApplicationCommand::build_for_application("set", app_id).with_description(
        "Save new note",
    ).with_option(
        ApplicationCommandOption::build_string_option("key").required().with_description(
            "Key of note",
        ).finish(),
    ).with_option(
        ApplicationCommandOption::build_string_option("value").required().with_description(
            "Text of note",
        ).finish(),
    ).finish();

    let get = ApplicationCommand::build_for_application("get", app_id).with_description(
        "Read saved note",
    ).with_option(
        ApplicationCommandOption::build_string_option("key").required().with_description(
            "Key of note",
        ).finish(),
    ).finish();

    let echo = ApplicationCommand::build_for_application("echo", app_id).with_description(
        "Reply with same text",
    ).with_option(
        ApplicationCommandOption::build_string_option("text").required().with_description(
            "Text to reply",
        ).finish(),
    ).finish();

    let ls = ApplicationCommand::build_for_application("ls", app_id).with_description(
        "List all available notes",
    ).finish();

    let mut commands = Vec::new();
    commands.push(set);
    commands.push(get);
    commands.push(echo);
    commands.push(ls);
    commands
}

} // verus!
