//! Command declarations, as they are registered with the platform.

use vstd::prelude::*;

verus! {

/// The wire type of a command option.
#[derive(Debug, Clone, Copy, PartialEq, Eq, Structural)]
pub enum CommandOptionType {
    SubCommand,
    SubCommandGroup,
    String,
    Integer,
    Boolean,
    User,
    Channel,
    Role,
    Mentionable,
    Number,
    Attachment,
}

impl CommandOptionType {
    /// The number that stands for the type on the wire.
    pub open spec fn spec_number(self) -> u8 {
        match self {
            CommandOptionType::SubCommand => 1,
            CommandOptionType::SubCommandGroup => 2,
            CommandOptionType::String => 3,
            CommandOptionType::Integer => 4,
            CommandOptionType::Boolean => 5,
            CommandOptionType::User => 6,
            CommandOptionType::Channel => 7,
            CommandOptionType::Role => 8,
            CommandOptionType::Mentionable => 9,
            CommandOptionType::Number => 10,
            CommandOptionType::Attachment => 11,
        }
    }

    /// The number that stands for the type on the wire.
    #[verifier::when_used_as_spec(spec_number)]
    pub fn number(self) -> (r: u8)
        ensures
            r == self.spec_number(),
    {
        match self {
            CommandOptionType::SubCommand => 1,
            CommandOptionType::SubCommandGroup => 2,
            CommandOptionType::String => 3,
            CommandOptionType::Integer => 4,
            CommandOptionType::Boolean => 5,
            CommandOptionType::User => 6,
            CommandOptionType::Channel => 7,
            CommandOptionType::Role => 8,
            CommandOptionType::Mentionable => 9,
            CommandOptionType::Number => 10,
            CommandOptionType::Attachment => 11,
        }
    }

    /// The type that a wire number stands for, if any.
    pub fn from_number(n: u8) -> (r: Option<CommandOptionType>)
        ensures
            match r {
                Some(t) => t.spec_number() == n,
                None => forall|t: CommandOptionType| t.spec_number() != n,
            },
    {
        match n {
            1 => Some(CommandOptionType::SubCommand),
            2 => Some(CommandOptionType::SubCommandGroup),
            3 => Some(CommandOptionType::String),
            4 => Some(CommandOptionType::Integer),
            5 => Some(CommandOptionType::Boolean),
            6 => Some(CommandOptionType::User),
            7 => Some(CommandOptionType::Channel),
            8 => Some(CommandOptionType::Role),
            9 => Some(CommandOptionType::Mentionable),
            10 => Some(CommandOptionType::Number),
            11 => Some(CommandOptionType::Attachment),
            _ => None,
        }
    }
}

/// The kind of channel that a channel option admits, by its wire number.
#[derive(Debug, Clone, Copy, PartialEq, Eq, Structural)]
pub struct ChannelType {
    pub number: u8,
}

/// A bound on the value of an integer or number option.
#[derive(Debug, Clone, Copy, PartialEq, Eq, Structural)]
pub enum CommandOptionValue {
    Integer(i64),
    /// The bits of the IEEE 754 double.
    Number(u64),
}

/// The value that a choice stands for.
#[derive(Debug, Clone, PartialEq, Eq)]
pub enum CommandOptionChoiceValue {
    String(String),
    Integer(i64),
    /// The bits of the IEEE 754 double.
    Number(u64),
}

/// The abstract value of a [`CommandOptionChoiceValue`].
pub enum ChoiceValueView {
    String(Seq<char>),
    Integer(i64),
    Number(u64),
}

impl DeepView for CommandOptionChoiceValue {
    type V = ChoiceValueView;

    open spec fn deep_view(&self) -> ChoiceValueView {
        match self {
            CommandOptionChoiceValue::String(s) => ChoiceValueView::String(s@),
            CommandOptionChoiceValue::Integer(i) => ChoiceValueView::Integer(*i),
            CommandOptionChoiceValue::Number(n) => ChoiceValueView::Number(*n),
        }
    }
}

impl CommandOptionChoiceValue {
    /// A copy of the value.
    pub fn duplicate(&self) -> (r: CommandOptionChoiceValue)
        ensures
            r.deep_view() == self.deep_view(),
    {
        match self {
            CommandOptionChoiceValue::String(s) => CommandOptionChoiceValue::String(s.clone()),
            CommandOptionChoiceValue::Integer(i) => CommandOptionChoiceValue::Integer(*i),
            CommandOptionChoiceValue::Number(n) => CommandOptionChoiceValue::Number(*n),
        }
    }
}

/// One of the values that the user may pick for an option.
#[derive(Debug, Clone, PartialEq, Eq)]
pub struct CommandOptionChoice {
    pub name: String,
    pub value: CommandOptionChoiceValue,
}

/// The abstract value of a [`CommandOptionChoice`].
pub struct ChoiceView {
    pub name: Seq<char>,
    pub value: ChoiceValueView,
}

impl DeepView for CommandOptionChoice {
    type V = ChoiceView;

    open spec fn deep_view(&self) -> ChoiceView {
        ChoiceView { name: self.name@, value: self.value.deep_view() }
    }
}

impl CommandOptionChoice {
    /// A copy of the choice.
    pub fn duplicate(&self) -> (r: CommandOptionChoice)
        ensures
            r.deep_view() == self.deep_view(),
    {
        CommandOptionChoice { name: self.name.clone(), value: self.value.duplicate() }
    }
}

/// The kind of a command.
#[derive(Debug, Clone, Copy, PartialEq, Eq, Structural)]
pub enum CommandType {
    ChatInput,
    User,
    Message,
}

/// Where a command can be invoked.
#[derive(Debug, Clone, Copy, PartialEq, Eq, Structural)]
pub enum InteractionContextType {
    Guild,
    BotDm,
    PrivateChannel,
}

/// An option of a declared command. A subcommand or a subcommand group is an
/// option that carries options of its own.
#[derive(Debug, PartialEq, Eq)]
pub struct CommandOption {
    pub autocomplete: Option<bool>,
    pub channel_types: Option<Vec<ChannelType>>,
    pub choices: Option<Vec<CommandOptionChoice>>,
    pub description: String,
    pub kind: CommandOptionType,
    pub max_length: Option<u16>,
    pub max_value: Option<CommandOptionValue>,
    pub min_length: Option<u16>,
    pub min_value: Option<CommandOptionValue>,
    pub name: String,
    pub options: Option<Vec<CommandOption>>,
    pub required: Option<bool>,
}

/// The abstract value of a [`CommandOption`].
pub struct CommandOptionView {
    pub autocomplete: Option<bool>,
    pub channel_types: Option<Seq<ChannelType>>,
    pub choices: Option<Seq<ChoiceView>>,
    pub description: Seq<char>,
    pub kind: CommandOptionType,
    pub max_length: Option<u16>,
    pub max_value: Option<CommandOptionValue>,
    pub min_length: Option<u16>,
    pub min_value: Option<CommandOptionValue>,
    pub name: Seq<char>,
    pub options: Option<Seq<CommandOptionView>>,
    pub required: Option<bool>,
}

impl CommandOption {
    /// The abstract value of the option, with those of the options it carries.
    pub open spec fn abstraction(self) -> CommandOptionView
        decreases self,
    {
        CommandOptionView {
            autocomplete: self.autocomplete,
            channel_types: match self.channel_types {
                Some(v) => Some(v@),
                None => None,
            },
            choices: self.choices.deep_view(),
            description: self.description@,
            kind: self.kind,
            max_length: self.max_length,
            max_value: self.max_value,
            min_length: self.min_length,
            min_value: self.min_value,
            name: self.name@,
            options: match self.options {
                Some(v) => Some(
                    Seq::new(
                        v@.len(),
                        |i: int|
                            if 0 <= i < v@.len() {
                                v@[i].abstraction()
                            } else {
                                arbitrary()
                            },
                    ),
                ),
                None => None,
            },
            required: self.required,
        }
    }
}

impl DeepView for CommandOption {
    type V = CommandOptionView;

    open spec fn deep_view(&self) -> CommandOptionView {
        self.abstraction()
    }
}

impl Clone for CommandOption {
    fn clone(&self) -> (r: CommandOption)
        ensures
            r.deep_view() == self.deep_view(),
        decreases self,
    {
        let options = match &self.options {
            Some(v) => {
                let mut out: Vec<CommandOption> = Vec::new();
                let mut i: usize = 0;
                while i < v.len()
                    invariant
                        i <= v.len(),
                        out@.len() == i,
                        forall|k: int| 0 <= k < i ==> (#[trigger] out@[k]).deep_view() == v@[k].deep_view(),
                        self.options == Some(*v),
                    decreases v.len() - i,
                {
                    proof {
                        vstd::std_specs::vec::axiom_vec_index_decreases(*v, i as int);
                        assert(decreases_to!(self.options => self.options->0));
                    }
                    out.push(v[i].clone());
                    i += 1;
                }
                assert(out.deep_view() =~= v.deep_view());
                Some(out)
            },
            None => None,
        };
        let r = CommandOption {
            autocomplete: self.autocomplete,
            channel_types: copy_channel_types(&self.channel_types),
            choices: copy_choices(&self.choices),
            description: self.description.clone(),
            kind: self.kind,
            max_length: self.max_length,
            max_value: self.max_value,
            min_length: self.min_length,
            min_value: self.min_value,
            name: self.name.clone(),
            options,
            required: self.required,
        };
        proof {
            if self.options is Some {
                assert(r.deep_view().options->0 =~= r.options->0.deep_view());
                assert(self.deep_view().options->0 =~= self.options->0.deep_view());
            }
        }
        r
    }
}

/// A copy of a list of channel types.
pub fn copy_channel_types(list: &Option<Vec<ChannelType>>) -> (r: Option<Vec<ChannelType>>)
    ensures
        match (r, *list) {
            (Some(a), Some(b)) => a@ == b@,
            (None, None) => true,
            _ => false,
        },
{
    match list {
        Some(v) => {
            let mut out: Vec<ChannelType> = Vec::new();
            let mut i: usize = 0;
            while i < v.len()
                invariant
                    i <= v.len(),
                    out@ == v@.take(i as int),
                decreases v.len() - i,
            {
                out.push(v[i]);
                i += 1;
            }
            assert(v@.take(v.len() as int) == v@);
            Some(out)
        },
        None => None,
    }
}

/// A copy of a list of choices.
pub fn copy_choices(list: &Option<Vec<CommandOptionChoice>>) -> (r: Option<Vec<CommandOptionChoice>>)
    ensures
        r.deep_view() == list.deep_view(),
{
    match list {
        Some(v) => {
            let mut out: Vec<CommandOptionChoice> = Vec::new();
            let mut i: usize = 0;
            while i < v.len()
                invariant
                    i <= v.len(),
                    out@.len() == i,
                    forall|k: int| 0 <= k < i ==> (#[trigger] out@[k]).deep_view() == v@[k].deep_view(),
                decreases v.len() - i,
            {
                out.push(v[i].duplicate());
                i += 1;
            }
            assert(out.deep_view() =~= v.deep_view());
            Some(out)
        },
        None => None,
    }
}

/// A command as it is declared to the platform.
#[derive(Debug, PartialEq, Eq)]
pub struct Command {
    pub contexts: Option<Vec<InteractionContextType>>,
    pub description: String,
    pub kind: CommandType,
    pub name: String,
    pub options: Vec<CommandOption>,
}

/// The abstract value of a [`Command`].
pub struct CommandView {
    pub contexts: Option<Seq<InteractionContextType>>,
    pub description: Seq<char>,
    pub kind: CommandType,
    pub name: Seq<char>,
    pub options: Seq<CommandOptionView>,
}

impl DeepView for Command {
    type V = CommandView;

    open spec fn deep_view(&self) -> CommandView {
        CommandView {
            contexts: match self.contexts {
                Some(v) => Some(v@),
                None => None,
            },
            description: self.description@,
            kind: self.kind,
            name: self.name@,
            options: self.options.deep_view(),
        }
    }
}

} // verus!


