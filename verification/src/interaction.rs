//! Inbound interactions and the callbacks sent back for them.

use vstd::prelude::*;
use crate::application_command::{ApplicationCommandOptionValue, ApplicationCommandType};
use crate::locale::Locale;
use crate::snowflake::Snowflake;

verus! {

/// The kind of an inbound interaction, tagged on the wire by the code
/// [`InteractionType::code`] gives.
#[derive(Debug, Clone, Copy, PartialEq, Eq, Structural)]
pub enum InteractionType {
    Ping,
    ApplicationCommand,
    MessageComponent,
    ApplicationCommandAutocomplete,
    ModalSubmit,
}

pub open spec fn interaction_type_code(t: InteractionType) -> u8 {
    match t {
        InteractionType::Ping => 1,
        InteractionType::ApplicationCommand => 2,
        InteractionType::MessageComponent => 3,
        InteractionType::ApplicationCommandAutocomplete => 4,
        InteractionType::ModalSubmit => 5,
    }
}

impl InteractionType {
    /// The numeric tag this kind carries on the wire.
    pub fn code(&self) -> (r: u8)
        ensures
            r == interaction_type_code(*self),
    {
        match self {
            InteractionType::Ping => 1,
            InteractionType::ApplicationCommand => 2,
            InteractionType::MessageComponent => 3,
            InteractionType::ApplicationCommandAutocomplete => 4,
            InteractionType::ModalSubmit => 5,
        }
    }

    /// The kind a numeric wire tag stands for, if any.
    pub fn from_code(c: u8) -> (r: Option<InteractionType>)
        ensures
            r is Some <==> 1 <= c <= 5,
            r matches Some(t) ==> interaction_type_code(t) == c,
    {
        match c {
            1 => Some(InteractionType::Ping),
            2 => Some(InteractionType::ApplicationCommand),
            3 => Some(InteractionType::MessageComponent),
            4 => Some(InteractionType::ApplicationCommandAutocomplete),
            5 => Some(InteractionType::ModalSubmit),
            _ => None,
        }
    }
}

// Auxiliary wire objects the core never looks into.
#[derive(Debug)]
pub struct MessageComponent {}

#[derive(Debug)]
pub struct SelectOptionValue {}

#[derive(Debug)]
pub struct ResolvedData {}

#[derive(Debug)]
pub struct GuildMember {}

#[derive(Debug)]
pub struct User {}

#[derive(Debug)]
pub struct Message {}

#[derive(Debug)]
pub struct Embed {}

#[derive(Debug)]
pub struct AllowedMention {}

/// One option of an invoked command: its name, a kind tag, and the value.
#[derive(Debug, Clone)]
pub struct ApplicationCommandInteractionDataOption {
    pub name: String,
    pub application_command_option_type: ApplicationCommandType,
    pub value: ApplicationCommandOptionValue,
}

/// The command payload of an interaction.
#[derive(Debug)]
pub struct InteractionData {
    pub id: Snowflake,
    pub name: String,
    pub command_type: ApplicationCommandType,
    pub resolved: Option<ResolvedData>,
    pub options: Option<Vec<ApplicationCommandInteractionDataOption>>,
    pub guild_id: Option<Snowflake>,
    pub custom_id: Option<String>,
    pub values: Option<Vec<SelectOptionValue>>,
    pub target_id: Option<Snowflake>,
    pub components: Option<Vec<MessageComponent>>,
}

/// One inbound webhook event, owned by the request that carries it.
#[derive(Debug)]
pub struct Interaction {
    pub application_id: Snowflake,
    pub id: Snowflake,
    pub token: String,
    pub interaction_type: InteractionType,
    pub user: Option<User>,
    pub data: Option<InteractionData>,
    pub guild_id: Option<Snowflake>,
    pub channel_id: Option<Snowflake>,
    pub member: Option<GuildMember>,
    pub message: Option<Message>,
    pub locale: Option<Locale>,
    pub guild_locale: Option<Locale>,
    pub version: u8,
}

/// The kind of an outbound callback, tagged on the wire by the code
/// [`InteractionResponseType::code`] gives.
#[derive(Debug, Clone, Copy, PartialEq, Eq, Structural)]
pub enum InteractionResponseType {
    Pong,
    ChannelMessageWithSource,
    DeferredChannelMessageWithSource,
    DeferredUpdateMessage,
    UpdateMessage,
    ApplicationCommandAutocompleteResult,
    Modal,
}

pub open spec fn interaction_response_type_code(t: InteractionResponseType) -> u8 {
    match t {
        InteractionResponseType::Pong => 1,
        InteractionResponseType::ChannelMessageWithSource => 4,
        InteractionResponseType::DeferredChannelMessageWithSource => 5,
        InteractionResponseType::DeferredUpdateMessage => 6,
        InteractionResponseType::UpdateMessage => 7,
        InteractionResponseType::ApplicationCommandAutocompleteResult => 8,
        InteractionResponseType::Modal => 9,
    }
}

impl InteractionResponseType {
    /// The numeric tag this kind carries on the wire.
    pub fn code(&self) -> (r: u8)
        ensures
            r == interaction_response_type_code(*self),
    {
        match self {
            InteractionResponseType::Pong => 1,
            InteractionResponseType::ChannelMessageWithSource => 4,
            InteractionResponseType::DeferredChannelMessageWithSource => 5,
            InteractionResponseType::DeferredUpdateMessage => 6,
            InteractionResponseType::UpdateMessage => 7,
            InteractionResponseType::ApplicationCommandAutocompleteResult => 8,
            InteractionResponseType::Modal => 9,
        }
    }
}

/// The message text a callback carries.
#[derive(Debug, Clone)]
pub struct InteractionCallbackMessage {
    pub content: Option<String>,
}

/// The data part of a callback.
#[derive(Debug, Clone)]
pub enum InteractionCallbackData {
    Message(InteractionCallbackMessage),
}

/// The reply sent back for one interaction, constructed once and never
/// mutated afterwards.
#[derive(Debug, Clone)]
pub struct InteractionCallback {
    pub interaction_response_type: InteractionResponseType,
    pub data: Option<InteractionCallbackData>,
}

/// Holds when a callback is a plain message whose content reads `text`.
pub open spec fn is_message_callback(cb: InteractionCallback, text: Seq<char>) -> bool {
    &&& cb.interaction_response_type == InteractionResponseType::ChannelMessageWithSource
    &&& cb.data matches Some(InteractionCallbackData::Message(m)) && m.content matches Some(c)
        && c@ == text
}

/// Holds when a callback is the bare acknowledgement of a ping.
pub open spec fn is_pong_callback(cb: InteractionCallback) -> bool {
    &&& cb.interaction_response_type == InteractionResponseType::Pong
    &&& cb.data is None
}

impl InteractionCallback {
    /// The bare acknowledgement of a ping: no data payload.
    pub fn pong() -> (r: Self)
        ensures
            is_pong_callback(r),
    {
        InteractionCallback { interaction_response_type: InteractionResponseType::Pong, data: None }
    }

    /// A visible message posted to the channel the interaction came from.
    pub fn channel_message_with_source(message: InteractionCallbackMessage) -> (r: Self)
        ensures
            r.interaction_response_type == InteractionResponseType::ChannelMessageWithSource,
            r.data == Some(InteractionCallbackData::Message(message)),
            message.content matches Some(c) ==> is_message_callback(r, c@),
    {
        InteractionCallback {
            interaction_response_type: InteractionResponseType::ChannelMessageWithSource,
            data: Some(InteractionCallbackData::Message(message)),
        }
    }
}

} // verus!
