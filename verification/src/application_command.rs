//! Command metadata: option kinds, option values, command declarations and
//! their builders.

use vstd::prelude::*;
use std::collections::HashMap;
use crate::locale::Locale;
use crate::permissions::Permissions;
use crate::snowflake::Snowflake;

verus! {

/// A channel's kind, tagged on the wire by the code [`ChannelType::code`]
/// gives.
#[derive(Debug, Clone, Copy, PartialEq, Eq, Structural)]
pub enum ChannelType {
    GuildText,
    DM,
    GuildVoice,
    GroupDM,
    GuildCategory,
    GuildNews,
    GuildNewsThread,
    GuildPublicThread,
    GuildPrivateThread,
    GuildStageVoice,
    GuildDirectory,
    GuildForum,
}

pub open spec fn channel_type_code(t: ChannelType) -> u8 {
    match t {
        ChannelType::GuildText => 0,
        ChannelType::DM => 1,
        ChannelType::GuildVoice => 2,
        ChannelType::GroupDM => 3,
        ChannelType::GuildCategory => 4,
        ChannelType::GuildNews => 5,
        ChannelType::GuildNewsThread => 10,
        ChannelType::GuildPublicThread => 11,
        ChannelType::GuildPrivateThread => 12,
        ChannelType::GuildStageVoice => 13,
        ChannelType::GuildDirectory => 14,
        ChannelType::GuildForum => 15,
    }
}

impl ChannelType {
    /// The numeric tag this kind carries on the wire.
    pub fn code(&self) -> (r: u8)
        ensures
            r == channel_type_code(*self),
    {
        match self {
            ChannelType::GuildText => 0,
            ChannelType::DM => 1,
            ChannelType::GuildVoice => 2,
            ChannelType::GroupDM => 3,
            ChannelType::GuildCategory => 4,
            ChannelType::GuildNews => 5,
            ChannelType::GuildNewsThread => 10,
            ChannelType::GuildPublicThread => 11,
            ChannelType::GuildPrivateThread => 12,
            ChannelType::GuildStageVoice => 13,
            ChannelType::GuildDirectory => 14,
            ChannelType::GuildForum => 15,
        }
    }
}

/// The kind of a command or of one of its options, tagged on the wire by the
/// code [`ApplicationCommandType::code`] gives.
#[derive(Debug, Clone, Copy, PartialEq, Eq, Structural)]
pub enum ApplicationCommandType {
    SubCommand,
    SubCommandGroup,
    String,
    Integer,
    Boolean,
    User,
    Channel,
    Role,
    Mentionable,
    Number,
    Attachment,
}

pub open spec fn application_command_type_code(t: ApplicationCommandType) -> u8 {
    match t {
        ApplicationCommandType::SubCommand => 1,
        ApplicationCommandType::SubCommandGroup => 2,
        ApplicationCommandType::String => 3,
        ApplicationCommandType::Integer => 4,
        ApplicationCommandType::Boolean => 5,
        ApplicationCommandType::User => 6,
        ApplicationCommandType::Channel => 7,
        ApplicationCommandType::Role => 8,
        ApplicationCommandType::Mentionable => 9,
        ApplicationCommandType::Number => 10,
        ApplicationCommandType::Attachment => 11,
    }
}

impl ApplicationCommandType {
    /// The numeric tag this kind carries on the wire.
    pub fn code(&self) -> (r: u8)
        ensures
            r == application_command_type_code(*self),
    {
        match self {
            ApplicationCommandType::SubCommand => 1,
            ApplicationCommandType::SubCommandGroup => 2,
            ApplicationCommandType::String => 3,
            ApplicationCommandType::Integer => 4,
            ApplicationCommandType::Boolean => 5,
            ApplicationCommandType::User => 6,
            ApplicationCommandType::Channel => 7,
            ApplicationCommandType::Role => 8,
            ApplicationCommandType::Mentionable => 9,
            ApplicationCommandType::Number => 10,
            ApplicationCommandType::Attachment => 11,
        }
    }

    /// The kind a numeric wire tag stands for, if any.
    pub fn from_code(c: u8) -> (r: Option<ApplicationCommandType>)
        ensures
            r is Some <==> 1 <= c <= 11,
            r matches Some(t) ==> application_command_type_code(t) == c,
    {
        match c {
            1 => Some(ApplicationCommandType::SubCommand),
            2 => Some(ApplicationCommandType::SubCommandGroup),
            3 => Some(ApplicationCommandType::String),
            4 => Some(ApplicationCommandType::Integer),
            5 => Some(ApplicationCommandType::Boolean),
            6 => Some(ApplicationCommandType::User),
            7 => Some(ApplicationCommandType::Channel),
            8 => Some(ApplicationCommandType::Role),
            9 => Some(ApplicationCommandType::Mentionable),
            10 => Some(ApplicationCommandType::Number),
            11 => Some(ApplicationCommandType::Attachment),
            _ => None,
        }
    }
}

/// The bits of an IEEE 754 double, carried opaquely: no arithmetic is done
/// on it here, it only travels between the wire and the handlers.
#[derive(Debug, Clone, Copy, PartialEq, Eq, Structural)]
pub struct DoubleBits(pub u64);

/// An option's value. On the wire the shape alone disambiguates: decoding
/// tries a string first, then an integer, then a double.
#[derive(Debug, Clone)]
pub enum ApplicationCommandOptionValue {
    Str(String),
    Integer(i64),
    Double(DoubleBits),
}

/// One predeclared choice for an option.
#[derive(Debug)]
pub struct ApplicationCommandOptionChoice {
    pub name: String,
    pub name_localizations: Option<HashMap<Locale, String>>,
    pub value: ApplicationCommandOptionValue,
}

/// One declared option of a command.
#[derive(Debug)]
pub struct ApplicationCommandOption {
    pub command_type: ApplicationCommandType,
    pub name: String,
    pub name_localizations: Option<HashMap<Locale, String>>,
    pub description: String,
    pub description_localizations: Option<HashMap<Locale, String>>,
    pub required: Option<bool>,
    pub choices: Option<Vec<ApplicationCommandOptionChoice>>,
    pub options: Option<Vec<ApplicationCommandOption>>,
    pub channel_types: Option<Vec<ChannelType>>,
    pub min_value: Option<DoubleBits>,
    pub max_value: Option<DoubleBits>,
    pub autocomplete: Option<bool>,
}

/// A command declaration, as registered with the remote platform.
#[derive(Debug)]
pub struct ApplicationCommand {
    pub id: Snowflake,
    pub command_type: Option<ApplicationCommandType>,
    pub application_id: Snowflake,
    pub guild_id: Option<Snowflake>,
    pub name: String,
    pub name_localizations: Option<HashMap<Locale, String>>,
    pub description: String,
    pub description_localizations: Option<HashMap<Locale, String>>,
    pub options: Option<Vec<ApplicationCommandOption>>,
    pub default_member_permissions: Option<Permissions>,
    pub dm_permission: Option<bool>,
    pub version: Snowflake,
}

impl ApplicationCommand {
    /// Starts a declaration of a command of the given application.
    pub fn build_for_application<'builder>(
        command_name: &'builder str,
        application_id: Snowflake,
    ) -> (r: ApplicationCommandBuilder<'builder>)
        ensures
            r.name@ == command_name@,
            r.application_id@ == application_id@,
            r.description@ == Seq::<char>::empty(),
            r.options is None,
    {
        ApplicationCommandBuilder::for_application(command_name, application_id)
    }
}

/// Accumulates the fields of an [`ApplicationCommand`].
pub struct ApplicationCommandBuilder<'builder> {
    pub id: Snowflake,
    pub command_type: Option<ApplicationCommandType>,
    pub application_id: Snowflake,
    pub guild_id: Option<Snowflake>,
    pub name: &'builder str,
    pub name_localizations: Option<HashMap<Locale, String>>,
    pub description: &'builder str,
    pub description_localizations: Option<HashMap<Locale, String>>,
    pub options: Option<Vec<ApplicationCommandOption>>,
    pub default_member_permissions: Option<Permissions>,
    pub dm_permission: Option<bool>,
    pub version: Snowflake,
}

impl<'builder> ApplicationCommandBuilder<'builder> {
    pub fn for_application(name: &'builder str, application_id: Snowflake) -> (r:
        ApplicationCommandBuilder<'builder>)
        ensures
            r.name@ == name@,
            r.application_id@ == application_id@,
            r.id@ == 0,
            r.version@ == 0,
            r.command_type is None,
            r.guild_id is None,
            r.name_localizations is None,
            r.description@ == Seq::<char>::empty(),
            r.description_localizations is None,
            r.options is None,
            r.default_member_permissions is None,
            r.dm_permission is None,
    {
        let r = ApplicationCommandBuilder {
            id: Snowflake::default(),
            command_type: None,
            application_id,
            guild_id: None,
            name,
            name_localizations: None,
            description: "",
            description_localizations: None,
            options: None,
            default_member_permissions: None,
            dm_permission: None,
            version: Snowflake::default(),
        };
        proof {
            reveal_strlit("");
            assert(r.description@ =~= Seq::<char>::empty());
        }
        r
    }

    /// Appends one declared option.
    pub fn with_option(self, option: ApplicationCommandOption) -> (r: Self)
        ensures
            r.options matches Some(opts) && opts@ == (match self.options {
                Some(o) => o@.push(option),
                None => seq![option],
            }),
            r.name@ == self.name@,
            r.description@ == self.description@,
            r.application_id == self.application_id,
            r.id == self.id,
            r.command_type == self.command_type,
            r.guild_id == self.guild_id,
            r.name_localizations == self.name_localizations,
            r.description_localizations == self.description_localizations,
            r.default_member_permissions == self.default_member_permissions,
            r.dm_permission == self.dm_permission,
            r.version == self.version,
    {
        let mut this = self;
        match &mut this.options {
            Some(options) => {
                options.push(option);
            },
            None => {
                this.options = Some(vec![option]);
            },
        }
        this
    }

    pub fn with_description(self, description: &'builder str) -> (r:
        ApplicationCommandBuilder<'builder>)
        ensures
            r.description@ == description@,
            r.name@ == self.name@,
            r.application_id == self.application_id,
            r.options == self.options,
            r.id == self.id,
            r.command_type == self.command_type,
            r.guild_id == self.guild_id,
            r.name_localizations == self.name_localizations,
            r.description_localizations == self.description_localizations,
            r.default_member_permissions == self.default_member_permissions,
            r.dm_permission == self.dm_permission,
            r.version == self.version,
    {
        ApplicationCommandBuilder { description, ..self }
    }

    /// Finishes the declaration, copying the borrowed strings into it.
    pub fn finish(self) -> (r: ApplicationCommand)
        ensures
            r.name@ == self.name@,
            r.description@ == self.description@,
            r.options == self.options,
            r.application_id == self.application_id,
            r.id == self.id,
            r.command_type == self.command_type,
            r.guild_id == self.guild_id,
            r.name_localizations == self.name_localizations,
            r.description_localizations == self.description_localizations,
            r.default_member_permissions == self.default_member_permissions,
            r.dm_permission == self.dm_permission,
            r.version == self.version,
    {
        ApplicationCommand {
            id: self.id,
            command_type: self.command_type,
            application_id: self.application_id,
            guild_id: self.guild_id,
            name: self.name.to_owned(),
            name_localizations: self.name_localizations,
            description: self.description.to_owned(),
            description_localizations: self.description_localizations,
            options: self.options,
            default_member_permissions: self.default_member_permissions,
            dm_permission: self.dm_permission,
            version: self.version,
        }
    }
}

impl ApplicationCommandOption {
    /// Starts a declaration of a string-typed option.
    pub fn build_string_option<'builder>(name: &'builder str) -> (r:
        ApplicationCommandOptionBuilder<'builder>)
        ensures
            r.name@ == name@,
            r.command_type == ApplicationCommandType::String,
            r.required is None,
            r.description@ == Seq::<char>::empty(),
    {
        ApplicationCommandOptionBuilder::string_option(name)
    }
}

/// Accumulates the fields of an [`ApplicationCommandOption`].
pub struct ApplicationCommandOptionBuilder<'builder> {
    pub command_type: ApplicationCommandType,
    pub name: &'builder str,
    pub name_localizations: Option<HashMap<Locale, String>>,
    pub description: &'builder str,
    pub description_localizations: Option<HashMap<Locale, String>>,
    pub required: Option<bool>,
    pub choices: Option<Vec<ApplicationCommandOptionChoice>>,
    pub options: Option<Vec<ApplicationCommandOption>>,
    pub channel_types: Option<Vec<ChannelType>>,
    pub min_value: Option<DoubleBits>,
    pub max_value: Option<DoubleBits>,
    pub autocomplete: Option<bool>,
}

impl<'builder> ApplicationCommandOptionBuilder<'builder> {
    pub fn string_option(name: &'builder str) -> (r: ApplicationCommandOptionBuilder<'builder>)
        ensures
            r.name@ == name@,
            r.command_type == ApplicationCommandType::String,
            r.description@ == Seq::<char>::empty(),
            r.name_localizations is None,
            r.description_localizations is None,
            r.required is None,
            r.choices is None,
            r.options is None,
            r.channel_types is None,
            r.min_value is None,
            r.max_value is None,
            r.autocomplete is None,
    {
        let r = ApplicationCommandOptionBuilder {
            command_type: ApplicationCommandType::String,
            name,
            description: "",
            description_localizations: None,
            required: None,
            choices: None,
            options: None,
            channel_types: None,
            min_value: None,
            max_value: None,
            name_localizations: None,
            autocomplete: None,
        };
        proof {
            reveal_strlit("");
            assert(r.description@ =~= Seq::<char>::empty());
        }
        r
    }

    pub fn with_description(self, description: &'builder str) -> (r:
        ApplicationCommandOptionBuilder<'builder>)
        ensures
            r.description@ == description@,
            r.name@ == self.name@,
            r.command_type == self.command_type,
            r.required == self.required,
            r.name_localizations == self.name_localizations,
            r.description_localizations == self.description_localizations,
            r.choices == self.choices,
            r.options == self.options,
            r.channel_types == self.channel_types,
            r.min_value == self.min_value,
            r.max_value == self.max_value,
            r.autocomplete == self.autocomplete,
    {
        ApplicationCommandOptionBuilder { description, ..self }
    }

    pub fn required(self) -> (r: Self)
        ensures
            r.required matches Some(b) && b,
            r.name@ == self.name@,
            r.description@ == self.description@,
            r.command_type == self.command_type,
    {
        let mut this = self;
        this.required = Some(true);
        this
    }

    pub fn not_required(self) -> (r: Self)
        ensures
            r.required matches Some(b) && !b,
            r.name@ == self.name@,
            r.description@ == self.description@,
            r.command_type == self.command_type,
    {
        let mut this = self;
        this.required = Some(false);
        this
    }

    /// Finishes the declaration, copying the borrowed strings into it.
    pub fn finish(self) -> (r: ApplicationCommandOption)
        ensures
            r.name@ == self.name@,
            r.description@ == self.description@,
            r.command_type == self.command_type,
            r.required == self.required,
            r.name_localizations == self.name_localizations,
            r.description_localizations == self.description_localizations,
            r.choices == self.choices,
            r.options == self.options,
            r.channel_types == self.channel_types,
            r.min_value == self.min_value,
            r.max_value == self.max_value,
            r.autocomplete == self.autocomplete,
    {
        ApplicationCommandOption {
            command_type: self.command_type,
            name: self.name.to_owned(),
            name_localizations: self.name_localizations,
            description: self.description.to_owned(),
            description_localizations: self.description_localizations,
            required: self.required,
            choices: self.choices,
            options: self.options,
            channel_types: self.channel_types,
            min_value: self.min_value,
            max_value: self.max_value,
            autocomplete: self.autocomplete,
        }
    }
}

} // verus!
