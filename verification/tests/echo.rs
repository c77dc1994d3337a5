use notebot::application_command::{ApplicationCommandOptionValue, ApplicationCommandType};
use notebot::command_handlers::EchoCommandHandler;
use notebot::interaction::{ApplicationCommandInteractionDataOption, InteractionData};
use notebot::snowflake::Snowflake;

fn create_default_interaction_data_with_options(
    options: Vec<ApplicationCommandInteractionDataOption>,
) -> InteractionData {
    InteractionData {
        options: Some(options),
        command_type: ApplicationCommandType::SubCommand,
        id: Snowflake::default(),
        name: String::new(),
        resolved: None,
        guild_id: None,
        custom_id: None,
        values: None,
        target_id: None,
        components: None,
    }
}

#[test]
fn echo_name() {
    assert_eq!(EchoCommandHandler::name(), "echo")
}

#[test]
fn echo_parse_args() {
    let options = vec![ApplicationCommandInteractionDataOption {
        name: String::from("text"),
        application_command_option_type: ApplicationCommandType::String,
        value: ApplicationCommandOptionValue::Str(String::from("test")),
    }];

    let interaction_data = create_default_interaction_data_with_options(options);

    let args = EchoCommandHandler::parse_args(&interaction_data);
    assert_eq!(args, Some(String::from("test")));
}

#[test]
fn echo_fail_parse_args_when_option_name_is_invalid() {
    let options = vec![ApplicationCommandInteractionDataOption {
        name: String::from("some wrong parameter name"),
        application_command_option_type: ApplicationCommandType::String,
        value: ApplicationCommandOptionValue::Str(String::from("test")),
    }];

    let interaction_data = create_default_interaction_data_with_options(options);

    let args = EchoCommandHandler::parse_args(&interaction_data);
    assert_eq!(args, None);
}

#[test]
fn echo_fail_parse_args_when_no_options() {
    let options = vec![];
    let interaction_data = create_default_interaction_data_with_options(options);

    let args = EchoCommandHandler::parse_args(&interaction_data);
    assert_eq!(args, None);
}

#[test]
fn echo_fail_parse_args_when_more_than_one_option() {
    let options = vec![
        ApplicationCommandInteractionDataOption {
            name: String::from("text"),
            application_command_option_type: ApplicationCommandType::String,
            value: ApplicationCommandOptionValue::Str(String::from("test")),
        },
        ApplicationCommandInteractionDataOption {
            name: String::from("text"),
            application_command_option_type: ApplicationCommandType::String,
            value: ApplicationCommandOptionValue::Str(String::from("test")),
        },
    ];

    let interaction_data = create_default_interaction_data_with_options(options);

    let args = EchoCommandHandler::parse_args(&interaction_data);
    assert_eq!(args, None);
}

#[test]
fn echo_fail_parse_args_when_option_type_is_not_string() {
    let options = vec![ApplicationCommandInteractionDataOption {
        name: String::from("text"),
        application_command_option_type: ApplicationCommandType::String,
        value: ApplicationCommandOptionValue::Integer(5),
    }];

    let interaction_data = create_default_interaction_data_with_options(options);

    let args = EchoCommandHandler::parse_args(&interaction_data);
    assert_eq!(args, None);
}
