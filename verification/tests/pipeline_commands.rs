use notebot::application_command::{ApplicationCommandOptionValue, ApplicationCommandType};
use notebot::bot::BotContext;
use notebot::command_handlers::{
    EchoCommandHandler, GetCommandHandler, LsCommandHandler, SetCommandHandler,
};
use notebot::interaction::{
    ApplicationCommandInteractionDataOption, Interaction, InteractionCallback,
    InteractionCallbackData, InteractionData, InteractionResponseType, InteractionType,
};
use notebot::interaction_handlers::{AnyCommandHandler, InteractionCommandInteractionHandler};
use notebot::interaction_pipeline::{InteractionError, InteractionHandler, InteractionPipeline};
use notebot::snowflake::Snowflake;
use notebot::store::{ReadError, Storage};

fn string_option(name: &str, value: &str) -> ApplicationCommandInteractionDataOption {
    ApplicationCommandInteractionDataOption {
        name: name.to_string(),
        application_command_option_type: ApplicationCommandType::String,
        value: ApplicationCommandOptionValue::Str(value.to_string()),
    }
}

fn command_interaction(
    name: &str,
    options: Option<Vec<ApplicationCommandInteractionDataOption>>,
) -> Interaction {
    Interaction {
        application_id: Snowflake::default(),
        id: Snowflake::default(),
        token: String::from("tok"),
        interaction_type: InteractionType::ApplicationCommand,
        user: None,
        data: Some(InteractionData {
            id: Snowflake::default(),
            name: name.to_string(),
            command_type: ApplicationCommandType::SubCommand,
            resolved: None,
            options,
            guild_id: None,
            custom_id: None,
            values: None,
            target_id: None,
            components: None,
        }),
        guild_id: None,
        channel_id: None,
        member: None,
        message: None,
        locale: None,
        guild_locale: None,
        version: 1,
    }
}

fn bare_interaction(interaction_type: InteractionType) -> Interaction {
    Interaction {
        application_id: Snowflake::default(),
        id: Snowflake::default(),
        token: String::from("tok"),
        interaction_type,
        user: None,
        data: None,
        guild_id: None,
        channel_id: None,
        member: None,
        message: None,
        locale: None,
        guild_locale: None,
        version: 1,
    }
}

fn default_pipeline() -> InteractionPipeline {
    InteractionPipeline::new(vec![
        InteractionHandler::Ping(notebot::interaction_handlers::PingInteractionHandler),
        InteractionHandler::Command(InteractionCommandInteractionHandler(
            AnyCommandHandler::Echo(EchoCommandHandler),
        )),
        InteractionHandler::Command(InteractionCommandInteractionHandler(
            AnyCommandHandler::SetCmd(SetCommandHandler),
        )),
        InteractionHandler::Command(InteractionCommandInteractionHandler(AnyCommandHandler::Ls(
            LsCommandHandler,
        ))),
        InteractionHandler::Command(InteractionCommandInteractionHandler(AnyCommandHandler::Get(
            GetCommandHandler,
        ))),
    ])
}

fn context_at(path: &str) -> BotContext {
    let store = Storage::new(path, None).expect("open store");
    BotContext::new(store)
}

fn content_of(cb: &InteractionCallback) -> String {
    match &cb.data {
        Some(InteractionCallbackData::Message(m)) => m.content.clone().expect("content"),
        None => panic!("callback carries no data"),
    }
}

#[test]
fn ping_is_answered_with_pong_whatever_the_order() {
    let mut context = context_at("/tmp/notebot_test_ping");
    // ping handler first
    let r = default_pipeline()
        .handle(bare_interaction(InteractionType::Ping), &mut context)
        .expect("pong");
    assert!(matches!(
        r.interaction_response_type,
        InteractionResponseType::Pong
    ));
    assert!(r.data.is_none());
    // ping handler last: command handlers never claim a ping
    let reordered = InteractionPipeline::new(vec![
        InteractionHandler::Command(InteractionCommandInteractionHandler(
            AnyCommandHandler::Echo(EchoCommandHandler),
        )),
        InteractionHandler::Command(InteractionCommandInteractionHandler(
            AnyCommandHandler::SetCmd(SetCommandHandler),
        )),
        InteractionHandler::Ping(notebot::interaction_handlers::PingInteractionHandler),
    ]);
    let r = reordered
        .handle(bare_interaction(InteractionType::Ping), &mut context)
        .expect("pong");
    assert!(matches!(
        r.interaction_response_type,
        InteractionResponseType::Pong
    ));
    assert!(r.data.is_none());
}

#[test]
fn echo_replies_with_the_exact_text() {
    let mut context = context_at("/tmp/notebot_test_echo");
    let i = command_interaction("echo", Some(vec![string_option("text", "hello there")]));
    let r = default_pipeline().handle(i, &mut context).expect("echo");
    assert!(matches!(
        r.interaction_response_type,
        InteractionResponseType::ChannelMessageWithSource
    ));
    assert_eq!(content_of(&r), "hello there");
}

#[test]
fn echo_with_bad_options_is_an_invalid_command() {
    let mut context = context_at("/tmp/notebot_test_echo_bad");
    let pipeline = default_pipeline();
    // zero options
    let r = pipeline.handle(command_interaction("echo", Some(vec![])), &mut context);
    assert!(matches!(r, Err(InteractionError::InvalidCommand)));
    // absent option list
    let r = pipeline.handle(command_interaction("echo", None), &mut context);
    assert!(matches!(r, Err(InteractionError::InvalidCommand)));
    // wrongly named option
    let r = pipeline.handle(
        command_interaction("echo", Some(vec![string_option("word", "hi")])),
        &mut context,
    );
    assert!(matches!(r, Err(InteractionError::InvalidCommand)));
    // wrongly typed option
    let bad_type = ApplicationCommandInteractionDataOption {
        name: String::from("text"),
        application_command_option_type: ApplicationCommandType::String,
        value: ApplicationCommandOptionValue::Integer(3),
    };
    let r = pipeline.handle(command_interaction("echo", Some(vec![bad_type])), &mut context);
    assert!(matches!(r, Err(InteractionError::InvalidCommand)));
}

#[test]
fn set_then_get_returns_the_value() {
    let mut context = context_at("/tmp/notebot_test_set_get");
    let pipeline = default_pipeline();
    let r = pipeline
        .handle(
            command_interaction(
                "set",
                Some(vec![string_option("key", "k"), string_option("value", "v")]),
            ),
            &mut context,
        )
        .expect("set");
    assert_eq!(content_of(&r), "Successfully set value for note!");
    let r = pipeline
        .handle(
            command_interaction("get", Some(vec![string_option("key", "k")])),
            &mut context,
        )
        .expect("get");
    assert_eq!(content_of(&r), "Your data: `v`");
}

#[test]
fn get_missing_key_maps_to_key_not_found() {
    let mut context = context_at("/tmp/notebot_test_get_missing");
    let r = default_pipeline().handle(
        command_interaction("get", Some(vec![string_option("key", "never written")])),
        &mut context,
    );
    assert!(matches!(r, Err(InteractionError::KeyNotFound)));
    let err = r.unwrap_err();
    assert_eq!(err.status_code(), 200);
    let reply = err.response_callback().expect("user-facing reply");
    assert_eq!(content_of(&reply), "***Key not found***");
}

#[test]
fn set_twice_overwrites_without_existing_key_error() {
    let mut context = context_at("/tmp/notebot_test_upsert");
    let pipeline = default_pipeline();
    pipeline
        .handle(
            command_interaction(
                "set",
                Some(vec![string_option("key", "k"), string_option("value", "v1")]),
            ),
            &mut context,
        )
        .expect("first set");
    pipeline
        .handle(
            command_interaction(
                "set",
                Some(vec![string_option("key", "k"), string_option("value", "v2")]),
            ),
            &mut context,
        )
        .expect("second set");
    let r = pipeline
        .handle(
            command_interaction("get", Some(vec![string_option("key", "k")])),
            &mut context,
        )
        .expect("get");
    assert_eq!(content_of(&r), "Your data: `v2`");
}

#[test]
fn ls_lists_both_keys_in_either_write_order() {
    let pipeline = default_pipeline();

    let mut context = context_at("/tmp/notebot_test_ls_ab");
    for (k, v) in [("a", "1"), ("b", "2")] {
        pipeline
            .handle(
                command_interaction(
                    "set",
                    Some(vec![string_option("key", k), string_option("value", v)]),
                ),
                &mut context,
            )
            .expect("set");
    }
    let r = pipeline
        .handle(command_interaction("ls", None), &mut context)
        .expect("ls");
    let listing = content_of(&r);
    assert!(listing.contains("| a"));
    assert!(listing.contains("| b"));

    let mut context = context_at("/tmp/notebot_test_ls_ba");
    for (k, v) in [("b", "2"), ("a", "1")] {
        pipeline
            .handle(
                command_interaction(
                    "set",
                    Some(vec![string_option("key", k), string_option("value", v)]),
                ),
                &mut context,
            )
            .expect("set");
    }
    let r = pipeline
        .handle(command_interaction("ls", None), &mut context)
        .expect("ls");
    let listing = content_of(&r);
    assert!(listing.contains("| a"));
    assert!(listing.contains("| b"));
}

#[test]
fn ls_accepts_an_empty_option_list_and_rejects_options() {
    let mut context = context_at("/tmp/notebot_test_ls_args");
    let pipeline = default_pipeline();
    let r = pipeline.handle(command_interaction("ls", Some(vec![])), &mut context);
    assert!(r.is_ok());
    let r = pipeline.handle(
        command_interaction("ls", Some(vec![string_option("key", "x")])),
        &mut context,
    );
    assert!(matches!(r, Err(InteractionError::InvalidCommand)));
}

#[test]
fn unclaimed_interactions_are_no_handler_found() {
    let mut context = context_at("/tmp/notebot_test_unclaimed");
    let pipeline = default_pipeline();
    // a command nobody answers to
    let r = pipeline.handle(command_interaction("frobnicate", None), &mut context);
    assert!(matches!(r, Err(InteractionError::NoHandlerFound)));
    // an interaction kind nobody claims
    let r = pipeline.handle(
        bare_interaction(InteractionType::MessageComponent),
        &mut context,
    );
    assert!(matches!(r, Err(InteractionError::NoHandlerFound)));
    let err = r.unwrap_err();
    assert_eq!(err.status_code(), 500);
    assert!(err.response_callback().is_none());
}

#[test]
fn error_replies_have_their_exact_texts() {
    assert_eq!(
        content_of(&InteractionError::InvalidCommand.response_callback().unwrap()),
        "***This command is invalid***"
    );
    assert_eq!(
        content_of(&InteractionError::UnknownCommand.response_callback().unwrap()),
        "***This command is unknown***"
    );
    assert_eq!(
        content_of(
            &InteractionError::CommandNotImplemented
                .response_callback()
                .unwrap()
        ),
        "***This command is not implemented***"
    );
    assert!(InteractionError::Unexpected.response_callback().is_none());
    assert_eq!(InteractionError::Unexpected.status_code(), 500);
    assert_eq!(InteractionError::InvalidCommand.status_code(), 200);
}

#[test]
fn read_errors_map_into_the_interaction_taxonomy() {
    assert!(matches!(
        InteractionError::from(ReadError::NoData),
        InteractionError::KeyNotFound
    ));
    assert!(matches!(
        InteractionError::from(ReadError::MissingKey),
        InteractionError::KeyNotFound
    ));
}
