use notebot::application_command::{ApplicationCommandType, ChannelType};
use notebot::commands::default_commands;
use notebot::interaction::{
    InteractionCallback, InteractionCallbackData, InteractionCallbackMessage,
    InteractionResponseType, InteractionType,
};
use notebot::locale::Locale;
use notebot::snowflake::Snowflake;

#[test]
fn interaction_type_codes_round_trip() {
    let kinds = [
        InteractionType::Ping,
        InteractionType::ApplicationCommand,
        InteractionType::MessageComponent,
        InteractionType::ApplicationCommandAutocomplete,
        InteractionType::ModalSubmit,
    ];
    for k in kinds {
        assert_eq!(InteractionType::from_code(k.code()), Some(k));
    }
    assert_eq!(InteractionType::Ping.code(), 1);
    assert_eq!(InteractionType::ApplicationCommand.code(), 2);
    assert_eq!(InteractionType::from_code(0), None);
    assert_eq!(InteractionType::from_code(6), None);
}

#[test]
fn command_type_codes_round_trip() {
    assert_eq!(ApplicationCommandType::SubCommand.code(), 1);
    assert_eq!(ApplicationCommandType::String.code(), 3);
    assert_eq!(ApplicationCommandType::Attachment.code(), 11);
    assert_eq!(
        ApplicationCommandType::from_code(3),
        Some(ApplicationCommandType::String)
    );
    assert_eq!(ApplicationCommandType::from_code(0), None);
    assert_eq!(ApplicationCommandType::from_code(12), None);
}

#[test]
fn response_and_channel_codes_match_the_wire() {
    assert_eq!(InteractionResponseType::Pong.code(), 1);
    assert_eq!(InteractionResponseType::ChannelMessageWithSource.code(), 4);
    assert_eq!(InteractionResponseType::Modal.code(), 9);
    assert_eq!(ChannelType::GuildText.code(), 0);
    assert_eq!(ChannelType::GuildNewsThread.code(), 10);
    assert_eq!(ChannelType::GuildForum.code(), 15);
}

#[test]
fn pong_carries_no_data() {
    let cb = InteractionCallback::pong();
    assert_eq!(cb.interaction_response_type.code(), 1);
    assert!(cb.data.is_none());
}

#[test]
fn channel_message_carries_its_text() {
    let cb = InteractionCallback::channel_message_with_source(InteractionCallbackMessage {
        content: Some("hi".to_string()),
    });
    assert_eq!(cb.interaction_response_type.code(), 4);
    match cb.data {
        Some(InteractionCallbackData::Message(m)) => assert_eq!(m.content, Some("hi".to_string())),
        None => panic!("message callback lost its data"),
    }
}

#[test]
fn locales_carry_their_codes() {
    assert_eq!(Locale::danish().code(), "da");
    assert_eq!(Locale::german().code(), "de");
    assert_eq!(Locale::english_uk().code(), "en-GB");
    assert_eq!(Locale::english_us().code(), "en-US");
    assert_eq!(Locale::portuguese_brazilian().code(), "pt-BR");
    assert_eq!(Locale::chinese_taiwan().code(), "zh-TW");
    assert_eq!(Locale::korean().code(), "ko");
}

#[test]
fn the_declared_commands_match_the_handlers() {
    let commands = default_commands(Snowflake::new(77));
    assert_eq!(commands.len(), 4);

    let set = &commands[0];
    assert_eq!(set.name, "set");
    assert_eq!(set.description, "Save new note");
    assert_eq!(set.application_id.value(), 77);
    let opts = set.options.as_ref().expect("set options");
    assert_eq!(opts.len(), 2);
    assert_eq!(opts[0].name, "key");
    assert_eq!(opts[0].required, Some(true));
    assert_eq!(opts[0].command_type, ApplicationCommandType::String);
    assert_eq!(opts[1].name, "value");
    assert_eq!(opts[1].required, Some(true));

    let get = &commands[1];
    assert_eq!(get.name, "get");
    assert_eq!(get.description, "Read saved note");
    assert_eq!(get.options.as_ref().expect("get options").len(), 1);

    let echo = &commands[2];
    assert_eq!(echo.name, "echo");
    assert_eq!(echo.options.as_ref().expect("echo options")[0].name, "text");

    let ls = &commands[3];
    assert_eq!(ls.name, "ls");
    assert_eq!(ls.description, "List all available notes");
    assert!(ls.options.is_none());
}
