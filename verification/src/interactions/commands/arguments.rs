//! Typed arguments: the schema entry that declares an option, the converters
//! that read a wire value as a typed argument, and the lookup of an option by name.

use crate::model::command::ChannelType;
use crate::model::command::CommandOption as DeclaredOption;
use crate::model::command::CommandOptionView as DeclaredOptionView;
use crate::model::command::copy_channel_types;
use crate::model::command::copy_choices;
use crate::model::command::{ChoiceView, CommandOptionChoice, CommandOptionType};
use crate::model::command::CommandOptionValue as OptionBound;
use crate::model::interaction::{CommandDataOption, CommandOptionValue};
use vstd::hash_map::StringHashMap;
use vstd::prelude::*;
use vstd::std_specs::convert::FromSpecImpl;

verus! {

/// Why an option could not be bound to a typed argument.
#[derive(Debug, Clone, Copy, PartialEq, Eq, Structural)]
pub enum Error {
    /// The option is present, with another wire type than the argument reads.
    InvalidType,
    /// The option is required and absent.
    MissingField,
}

impl Error {
    /// The message that describes the error.
    pub fn message(&self) -> (r: &'static str)
        ensures
            r@ == match self {
                Error::InvalidType => "Invalid type for command option"@,
                Error::MissingField => "Missing field for command option"@,
            },
    {
        match self {
            Error::InvalidType => "Invalid type for command option",
            Error::MissingField => "Missing field for command option",
        }
    }
}

/// One entry of a command's option schema.
#[derive(Debug, PartialEq, Eq)]
pub struct CommandOption {
    pub autocomplete: Option<bool>,
    pub channel_types: Option<Vec<ChannelType>>,
    pub choices: Option<Vec<CommandOptionChoice>>,
    pub name: Option<String>,
    pub description: Option<String>,
    pub kind: CommandOptionType,
    pub max_length: Option<u16>,
    pub max_value: Option<OptionBound>,
    pub min_length: Option<u16>,
    pub min_value: Option<OptionBound>,
    pub required: Option<bool>,
}

/// The abstract value of a schema entry.
pub struct CommandOptionView {
    pub autocomplete: Option<bool>,
    pub channel_types: Option<Seq<ChannelType>>,
    pub choices: Option<Seq<ChoiceView>>,
    pub name: Option<Seq<char>>,
    pub description: Option<Seq<char>>,
    pub kind: CommandOptionType,
    pub max_length: Option<u16>,
    pub max_value: Option<OptionBound>,
    pub min_length: Option<u16>,
    pub min_value: Option<OptionBound>,
    pub required: Option<bool>,
}

impl CommandOptionView {
    /// The schema entry of the given wire type that sets nothing else.
    pub open spec fn new(kind: CommandOptionType) -> CommandOptionView {
        CommandOptionView {
            autocomplete: None,
            channel_types: None,
            choices: None,
            name: None,
            description: None,
            kind,
            max_length: None,
            max_value: None,
            min_length: None,
            min_value: None,
            required: None,
        }
    }

    /// The option as it is declared to the platform: an absent name or
    /// description is declared empty, and the option carries no options.
    pub open spec fn declared(self) -> DeclaredOptionView {
        DeclaredOptionView {
            autocomplete: self.autocomplete,
            channel_types: self.channel_types,
            choices: self.choices,
            description: match self.description {
                Some(d) => d,
                None => Seq::empty(),
            },
            kind: self.kind,
            max_length: self.max_length,
            max_value: self.max_value,
            min_length: self.min_length,
            min_value: self.min_value,
            name: match self.name {
                Some(n) => n,
                None => Seq::empty(),
            },
            options: None,
            required: self.required,
        }
    }
}

impl DeepView for CommandOption {
    type V = CommandOptionView;

    open spec fn deep_view(&self) -> CommandOptionView {
        CommandOptionView {
            autocomplete: self.autocomplete,
            channel_types: match self.channel_types {
                Some(v) => Some(v@),
                None => None,
            },
            choices: self.choices.deep_view(),
            name: self.name.deep_view(),
            description: self.description.deep_view(),
            kind: self.kind,
            max_length: self.max_length,
            max_value: self.max_value,
            min_length: self.min_length,
            min_value: self.min_value,
            required: self.required,
        }
    }
}

impl Clone for CommandOption {
    fn clone(&self) -> (r: CommandOption)
        ensures
            r.deep_view() == self.deep_view(),
    {
        CommandOption {
            autocomplete: self.autocomplete,
            channel_types: copy_channel_types(&self.channel_types),
            choices: copy_choices(&self.choices),
            name: match &self.name {
                Some(n) => Some(n.clone()),
                None => None,
            },
            description: match &self.description {
                Some(d) => Some(d.clone()),
                None => None,
            },
            kind: self.kind,
            max_length: self.max_length,
            max_value: self.max_value,
            min_length: self.min_length,
            min_value: self.min_value,
            required: self.required,
        }
    }
}

impl CommandOption {
    /// The schema entry of the given wire type that sets nothing else.
    pub fn new(kind: CommandOptionType) -> (r: CommandOption)
        ensures
            r.deep_view() == CommandOptionView::new(kind),
    {
        CommandOption {
            autocomplete: None,
            channel_types: None,
            choices: None,
            name: None,
            description: None,
            kind,
            max_length: None,
            max_value: None,
            min_length: None,
            min_value: None,
            required: None,
        }
    }

    pub fn autocomplete(self, autocomplete: bool) -> (r: CommandOption)
        ensures
            r.deep_view() == (CommandOptionView { autocomplete: Some(autocomplete), ..self.deep_view() }),
    {
        let mut this = self;
        this.autocomplete = Some(autocomplete);
        this
    }

    pub fn channel_types(self, channel_types: Vec<ChannelType>) -> (r: CommandOption)
        ensures
            r.deep_view() == (CommandOptionView { channel_types: Some(channel_types@), ..self.deep_view() }),
    {
        let mut this = self;
        this.channel_types = Some(channel_types);
        this
    }

    pub fn choices(self, choices: Vec<CommandOptionChoice>) -> (r: CommandOption)
        ensures
            r.deep_view() == (CommandOptionView { choices: Some(choices.deep_view()), ..self.deep_view() }),
    {
        let mut this = self;
        this.choices = Some(choices);
        this
    }

    pub fn max_length(self, max_length: u16) -> (r: CommandOption)
        ensures
            r.deep_view() == (CommandOptionView { max_length: Some(max_length), ..self.deep_view() }),
    {
        let mut this = self;
        this.max_length = Some(max_length);
        this
    }

    pub fn max_value(self, max_value: OptionBound) -> (r: CommandOption)
        ensures
            r.deep_view() == (CommandOptionView { max_value: Some(max_value), ..self.deep_view() }),
    {
        let mut this = self;
        this.max_value = Some(max_value);
        this
    }

    pub fn min_length(self, min_length: u16) -> (r: CommandOption)
        ensures
            r.deep_view() == (CommandOptionView { min_length: Some(min_length), ..self.deep_view() }),
    {
        let mut this = self;
        this.min_length = Some(min_length);
        this
    }

    pub fn min_value(self, min_value: OptionBound) -> (r: CommandOption)
        ensures
            r.deep_view() == (CommandOptionView { min_value: Some(min_value), ..self.deep_view() }),
    {
        let mut this = self;
        this.min_value = Some(min_value);
        this
    }

    pub fn required(self, required: bool) -> (r: CommandOption)
        ensures
            r.deep_view() == (CommandOptionView { required: Some(required), ..self.deep_view() }),
    {
        let mut this = self;
        this.required = Some(required);
        this
    }

    pub fn name(self, name: &str) -> (r: CommandOption)
        ensures
            r.deep_view() == (CommandOptionView { name: Some(name@), ..self.deep_view() }),
    {
        let mut this = self;
        this.name = Some(name.to_owned());
        this
    }

    pub fn description(self, description: &str) -> (r: CommandOption)
        ensures
            r.deep_view() == (CommandOptionView { description: Some(description@), ..self.deep_view() }),
    {
        let mut this = self;
        this.description = Some(description.to_owned());
        this
    }
}

impl From<CommandOption> for DeclaredOption {
    /// Declares the schema entry to the platform.
    fn from(option: CommandOption) -> (r: DeclaredOption)
        ensures
            r.deep_view() == option.deep_view().declared(),
    {
        let name = match option.name {
            Some(n) => n,
            None => String::new(),
        };
        let description = match option.description {
            Some(d) => d,
            None => String::new(),
        };
        DeclaredOption {
            autocomplete: option.autocomplete,
            channel_types: option.channel_types,
            choices: option.choices,
            name,
            description,
            kind: option.kind,
            max_length: option.max_length,
            max_value: option.max_value,
            min_length: option.min_length,
            min_value: option.min_value,
            required: option.required,
            options: None,
        }
    }
}

impl FromSpecImpl<CommandOption> for DeclaredOption {
    open spec fn obeys_from_spec() -> bool {
        false
    }

    open spec fn from_spec(option: CommandOption) -> DeclaredOption {
        arbitrary()
    }
}

/// A type that can declare the schema entry of an argument of that type.
pub trait ToOption {
    /// The schema entry of an argument of the type: its wire type and whether
    /// the argument may be left out.
    spec fn descriptor() -> CommandOptionView;

    fn to_option() -> (r: CommandOption)
        ensures
            r.deep_view() == Self::descriptor(),
    ;
}

/// A type that is read from a wire value that is present.
pub trait ArgumentConverter: Sized {
    /// Whether `data` has the wire type that the type is read from.
    spec fn accepts(data: CommandOptionValue) -> bool;

    /// Whether `out` is the argument that the accepted value `data` stands for.
    spec fn converts_to(data: CommandOptionValue, out: Self) -> bool;

    /// Reads the argument from a wire value: the converted value where the wire
    /// type is the expected one, and `InvalidType` where it is not.
    fn convert(data: &CommandOptionValue) -> (r: Result<Self, Error>)
        ensures
            match r {
                Ok(out) => Self::accepts(*data) && Self::converts_to(*data, out),
                Err(e) => !Self::accepts(*data) && e == Error::InvalidType,
            },
    ;
}

/// The wire value behind an optional reference.
pub open spec fn pointee(data: Option<&CommandOptionValue>) -> Option<CommandOptionValue> {
    match data {
        Some(value) => Some(*value),
        None => None,
    }
}

/// A type that is read from a wire value that may be absent.
pub trait OptionalArgumentConverter: Sized {
    /// Whether `r` is the outcome of binding an argument of the type to `data`.
    spec fn binds(data: Option<CommandOptionValue>, r: Result<Self, Error>) -> bool;

    fn convert(data: Option<&CommandOptionValue>) -> (r: Result<Self, Error>)
        ensures
            Self::binds(pointee(data), r),
    ;
}

/// An optional argument: absent gives `None`, present gives what the inner
/// type gives, wrapped.
impl<T: OptionalArgumentConverter> OptionalArgumentConverter for Option<T> {
    open spec fn binds(data: Option<CommandOptionValue>, r: Result<Option<T>, Error>) -> bool {
        match data {
            None => r == Ok::<Option<T>, Error>(None),
            Some(_) => match r {
                Ok(Some(out)) => T::binds(data, Ok(out)),
                Ok(None) => false,
                Err(e) => T::binds(data, Err(e)),
            },
        }
    }

    fn convert(data: Option<&CommandOptionValue>) -> (r: Result<Option<T>, Error>) {
        match data {
            Some(_) => match T::convert(data) {
                Ok(out) => Ok(Some(out)),
                Err(e) => Err(e),
            },
            None => Ok(None),
        }
    }
}

/// A required argument: absent gives `MissingField`, present gives what the
/// converter gives.
impl<T: ArgumentConverter> OptionalArgumentConverter for T {
    open spec fn binds(data: Option<CommandOptionValue>, r: Result<T, Error>) -> bool {
        match data {
            None => r == Err::<T, Error>(Error::MissingField),
            Some(value) => match r {
                Ok(out) => T::accepts(value) && T::converts_to(value, out),
                Err(e) => !T::accepts(value) && e == Error::InvalidType,
            },
        }
    }

    fn convert(data: Option<&CommandOptionValue>) -> (r: Result<T, Error>) {
        if let Some(value) = data {
            <T as ArgumentConverter>::convert(value)
        } else {
            Err(Error::MissingField)
        }
    }
}

impl<T: ToOption> ToOption for Option<T> {
    open spec fn descriptor() -> CommandOptionView {
        CommandOptionView { required: Some(false), ..T::descriptor() }
    }

    fn to_option() -> (r: CommandOption) {
        T::to_option().required(false)
    }
}

impl ArgumentConverter for String {
    open spec fn accepts(data: CommandOptionValue) -> bool {
        data is String
    }

    open spec fn converts_to(data: CommandOptionValue, out: String) -> bool {
        data matches CommandOptionValue::String(value) && out@ == value@
    }

    fn convert(data: &CommandOptionValue) -> (r: Result<String, Error>) {
        if let CommandOptionValue::String(value) = data {
            Ok(value.clone())
        } else {
            Err(Error::InvalidType)
        }
    }
}

impl ToOption for String {
    open spec fn descriptor() -> CommandOptionView {
        CommandOptionView::new(CommandOptionType::String)
    }

    fn to_option() -> (r: CommandOption) {
        CommandOption::new(CommandOptionType::String)
    }
}

impl ArgumentConverter for i32 {
    open spec fn accepts(data: CommandOptionValue) -> bool {
        data is Integer
    }

    /// A wire integer is cut to its low 32 bits.
    open spec fn converts_to(data: CommandOptionValue, out: i32) -> bool {
        data matches CommandOptionValue::Integer(value) && out == value as i32
    }

    fn convert(data: &CommandOptionValue) -> (r: Result<i32, Error>) {
        if let CommandOptionValue::Integer(value) = data {
            Ok(#[verifier::truncate] (*value as i32))
        } else {
            Err(Error::InvalidType)
        }
    }
}

impl ToOption for i32 {
    open spec fn descriptor() -> CommandOptionView {
        CommandOptionView::new(CommandOptionType::Integer)
    }

    fn to_option() -> (r: CommandOption) {
        CommandOption::new(CommandOptionType::Integer)
    }
}

/// The value that each option name stands for in a flat option list. Where a
/// name occurs more than once, the last occurrence counts.
pub open spec fn options_map(options: Seq<CommandDataOption>) -> Map<Seq<char>, CommandOptionValue>
    decreases options.len(),
{
    if options.len() == 0 {
        Map::empty()
    } else {
        options_map(options.drop_last()).insert(options.last().name@, options.last().value)
    }
}

/// The value under `name`, if there is one.
pub open spec fn lookup(
    map: Map<Seq<char>, CommandOptionValue>,
    name: Seq<char>,
) -> Option<CommandOptionValue> {
    if map.contains_key(name) {
        Some(map[name])
    } else {
        None
    }
}

/// The options of one invocation, by name.
pub struct OptionMap {
    entries: StringHashMap<CommandOptionValue>,
}

impl View for OptionMap {
    type V = Map<Seq<char>, CommandOptionValue>;

    closed spec fn view(&self) -> Map<Seq<char>, CommandOptionValue> {
        self.entries@
    }
}

impl OptionMap {
    /// The mapping from option name to value of a flat option list.
    pub fn from_options(options: Vec<CommandDataOption>) -> (r: OptionMap)
        ensures
            r@ == options_map(options@),
    {
        let mut options = options;
        let ghost all = options@;
        // Turn the list round, so that the options can be taken from its end
        // one by one, the first of them first.
        let mut waiting: Vec<CommandDataOption> = Vec::new();
        while options.len() > 0
            invariant
                options.len() <= all.len(),
                options@ == all.take(options.len() as int),
                waiting@.reverse() == all.skip(options.len() as int),
            decreases options.len(),
        {
            let ghost before = options@;
            let ghost kept = waiting@;
            let option = options.pop().unwrap();
            waiting.push(option);
            proof {
                assert(options@ =~= all.take(options.len() as int));
                assert(waiting@.reverse() =~= seq![option] + kept.reverse());
                assert(seq![option] + all.skip(before.len() as int) =~= all.skip(options.len() as int));
            }
        }
        proof {
            assert(all.skip(0) == all);
            assert(all.take(0) =~= Seq::<CommandDataOption>::empty());
        }
        let mut entries: StringHashMap<CommandOptionValue> = StringHashMap::new();
        while waiting.len() > 0
            invariant
                waiting@.len() <= all.len(),
                waiting@.reverse() == all.skip(all.len() - waiting@.len()),
                entries@ == options_map(all.take(all.len() - waiting@.len())),
            decreases waiting.len(),
        {
            let ghost before = waiting@;
            let option = waiting.pop().unwrap();
            proof {
                let done = all.len() - before.len();
                assert(before.reverse()[0] == option);
                assert(all[done] == option);
                assert(all.take(done + 1).drop_last() =~= all.take(done));
                assert(all.take(done + 1).last() == option);
                let now = waiting@.reverse();
                assert forall|k: int| 0 <= k < now.len() implies now[k] == all.skip(done + 1)[k] by {
                    assert(now[k] == before.reverse()[k + 1]);
                    assert(before.reverse()[k + 1] == all.skip(done)[k + 1]);
                }
                assert(now =~= all.skip(done + 1));
            }
            let CommandDataOption { name, value } = option;
            entries.insert(name, value);
        }
        proof {
            assert(all.take(all.len() as int) == all);
        }
        OptionMap { entries }
    }

    /// The value of the option called `name`, if there is one.
    pub fn get(&self, name: &str) -> (r: Option<&CommandOptionValue>)
        ensures
            pointee(r) == lookup(self@, name@),
    {
        self.entries.get(name)
    }
}

/// Binds the argument called `name` to the options of an invocation.
pub fn parse<T: OptionalArgumentConverter>(options: &OptionMap, name: &str) -> (r: Result<T, Error>)
    ensures
        T::binds(lookup(options@, name@), r),
{
    T::convert(options.get(name))
}

/// A required argument whose option is absent is bound to `MissingField`.
pub proof fn lemma_required_absent<T: ArgumentConverter>(r: Result<T, Error>)
    requires
        <T as OptionalArgumentConverter>::binds(None, r),
    ensures
        r == Err::<T, Error>(Error::MissingField),
{
}

/// A required argument whose option has the expected wire type is bound to the
/// converted value.
pub proof fn lemma_required_present<T: ArgumentConverter>(value: CommandOptionValue, r: Result<T, Error>)
    requires
        <T as OptionalArgumentConverter>::binds(Some(value), r),
        T::accepts(value),
    ensures
        r matches Ok(out) && T::converts_to(value, out),
{
}

/// A required argument whose option has another wire type is bound to
/// `InvalidType`.
pub proof fn lemma_required_mismatch<T: ArgumentConverter>(value: CommandOptionValue, r: Result<T, Error>)
    requires
        <T as OptionalArgumentConverter>::binds(Some(value), r),
        !T::accepts(value),
    ensures
        r == Err::<T, Error>(Error::InvalidType),
{
}

/// An optional argument whose option is absent is bound to `None`, without an
/// error.
pub proof fn lemma_optional_absent<T: OptionalArgumentConverter>(r: Result<Option<T>, Error>)
    requires
        <Option<T> as OptionalArgumentConverter>::binds(None, r),
    ensures
        r == Ok::<Option<T>, Error>(None),
{
}

/// An optional argument whose option is present is bound as the required
/// argument is, and wrapped: the converted value in `Some` where the wire type
/// is the expected one, and `InvalidType` where it is not.
pub proof fn lemma_optional_present<T: ArgumentConverter>(
    value: CommandOptionValue,
    r: Result<Option<T>, Error>,
)
    requires
        <Option<T> as OptionalArgumentConverter>::binds(Some(value), r),
    ensures
        T::accepts(value) ==> (r matches Ok(Some(out)) && T::converts_to(value, out)),
        !T::accepts(value) ==> r == Err::<Option<T>, Error>(Error::InvalidType),
{
}

} // verus!
