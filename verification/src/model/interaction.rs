//! Inbound interactions: the envelope and what each kind carries.

use crate::model::command::CommandOptionType;
use crate::model::message::Message;
use vstd::prelude::*;

verus! {

/// The value that a user gave to an option. A subcommand or a subcommand group
/// is a marker: it carries the options that stand one level below.
#[derive(Debug, PartialEq, Eq)]
pub enum CommandOptionValue {
    Attachment(u64),
    Boolean(bool),
    Channel(u64),
    /// An option that is being typed, with the text so far and its wire type.
    Focused(String, CommandOptionType),
    Integer(i64),
    Mentionable(u64),
    /// The bits of the IEEE 754 double.
    Number(u64),
    Role(u64),
    String(String),
    SubCommand(Vec<CommandDataOption>),
    SubCommandGroup(Vec<CommandDataOption>),
    User(u64),
}

impl CommandOptionValue {
    /// The wire type of the value.
    pub open spec fn spec_kind(&self) -> CommandOptionType {
        match *self {
            CommandOptionValue::Attachment(_) => CommandOptionType::Attachment,
            CommandOptionValue::Boolean(_) => CommandOptionType::Boolean,
            CommandOptionValue::Channel(_) => CommandOptionType::Channel,
            CommandOptionValue::Focused(_, kind) => kind,
            CommandOptionValue::Integer(_) => CommandOptionType::Integer,
            CommandOptionValue::Mentionable(_) => CommandOptionType::Mentionable,
            CommandOptionValue::Number(_) => CommandOptionType::Number,
            CommandOptionValue::Role(_) => CommandOptionType::Role,
            CommandOptionValue::String(_) => CommandOptionType::String,
            CommandOptionValue::SubCommand(_) => CommandOptionType::SubCommand,
            CommandOptionValue::SubCommandGroup(_) => CommandOptionType::SubCommandGroup,
            CommandOptionValue::User(_) => CommandOptionType::User,
        }
    }

    /// The wire type of the value.
    #[verifier::when_used_as_spec(spec_kind)]
    pub fn kind(&self) -> (r: CommandOptionType)
        ensures
            r == self.spec_kind(),
    {
        match self {
            CommandOptionValue::Attachment(_) => CommandOptionType::Attachment,
            CommandOptionValue::Boolean(_) => CommandOptionType::Boolean,
            CommandOptionValue::Channel(_) => CommandOptionType::Channel,
            CommandOptionValue::Focused(_, kind) => *kind,
            CommandOptionValue::Integer(_) => CommandOptionType::Integer,
            CommandOptionValue::Mentionable(_) => CommandOptionType::Mentionable,
            CommandOptionValue::Number(_) => CommandOptionType::Number,
            CommandOptionValue::Role(_) => CommandOptionType::Role,
            CommandOptionValue::String(_) => CommandOptionType::String,
            CommandOptionValue::SubCommand(_) => CommandOptionType::SubCommand,
            CommandOptionValue::SubCommandGroup(_) => CommandOptionType::SubCommandGroup,
            CommandOptionValue::User(_) => CommandOptionType::User,
        }
    }

    /// Whether the value marks a level of nesting: a subcommand or a group.
    pub open spec fn is_marker(&self) -> bool {
        self is SubCommand || self is SubCommandGroup
    }
}

/// An option with the value that a user gave it.
#[derive(Debug, PartialEq, Eq)]
pub struct CommandDataOption {
    pub name: String,
    pub value: CommandOptionValue,
}

/// What the platform resolved for a command: here, the messages it refers to.
#[derive(Debug, PartialEq, Eq)]
pub struct InteractionDataResolved {
    pub messages: Vec<Message>,
}

/// The payload of an application-command interaction.
#[derive(Debug, PartialEq, Eq)]
pub struct CommandData {
    pub name: String,
    pub options: Vec<CommandDataOption>,
    pub resolved: Option<InteractionDataResolved>,
    pub target_id: Option<u64>,
}

/// The payload of a message-component interaction.
#[derive(Debug, Clone, PartialEq, Eq)]
pub struct MessageComponentInteractionData {
    pub custom_id: String,
    pub values: Vec<String>,
}

/// The kind of an interaction.
#[derive(Debug, Clone, Copy, PartialEq, Eq, Structural)]
pub enum InteractionType {
    Ping,
    ApplicationCommand,
    MessageComponent,
    ApplicationCommandAutocomplete,
    ModalSubmit,
}

impl InteractionType {
    /// The name of the kind.
    pub open spec fn spec_name(self) -> Seq<char> {
        match self {
            InteractionType::Ping => "Ping"@,
            InteractionType::ApplicationCommand => "ApplicationCommand"@,
            InteractionType::MessageComponent => "MessageComponent"@,
            InteractionType::ApplicationCommandAutocomplete => "ApplicationCommandAutocomplete"@,
            InteractionType::ModalSubmit => "ModalSubmit"@,
        }
    }

    /// The name of the kind.
    pub fn name(self) -> (r: &'static str)
        ensures
            r@ == self.spec_name(),
    {
        match self {
            InteractionType::Ping => "Ping",
            InteractionType::ApplicationCommand => "ApplicationCommand",
            InteractionType::MessageComponent => "MessageComponent",
            InteractionType::ApplicationCommandAutocomplete => "ApplicationCommandAutocomplete",
            InteractionType::ModalSubmit => "ModalSubmit",
        }
    }
}

/// The payload of an interaction, by kind.
#[derive(Debug, PartialEq, Eq)]
pub enum InteractionData {
    ApplicationCommand(CommandData),
    MessageComponent(MessageComponentInteractionData),
    ModalSubmit,
}

/// One inbound interaction.
#[derive(Debug, PartialEq, Eq)]
pub struct Interaction {
    pub data: Option<InteractionData>,
    pub guild_id: Option<u64>,
    pub kind: InteractionType,
    /// The token under which follow-ups to the interaction are sent.
    pub token: String,
}

} // verus!
