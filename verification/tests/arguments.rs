use todoist_bot::interactions::commands::arguments::{
    parse, ArgumentConverter, CommandOption, Error, OptionMap, OptionalArgumentConverter, ToOption,
};
use todoist_bot::model::command::CommandOption as DeclaredOption;
use todoist_bot::model::command::CommandOptionValue as Bound;
use todoist_bot::model::command::{
    ChannelType, CommandOptionChoice, CommandOptionChoiceValue, CommandOptionType,
};
use todoist_bot::model::interaction::{CommandDataOption, CommandOptionValue};

fn option(name: &str, value: CommandOptionValue) -> CommandDataOption {
    CommandDataOption { name: name.to_string(), value }
}

fn text(value: &str) -> CommandOptionValue {
    CommandOptionValue::String(value.to_string())
}

#[test]
fn new_sets_only_the_kind() {
    let o = CommandOption::new(CommandOptionType::String);
    assert_eq!(
        o,
        CommandOption {
            autocomplete: None,
            channel_types: None,
            choices: None,
            name: None,
            description: None,
            kind: CommandOptionType::String,
            max_length: None,
            max_value: None,
            min_length: None,
            min_value: None,
            required: None,
        }
    );
}

#[test]
fn builders_set_one_field_each() {
    let choice = CommandOptionChoice {
        name: "one".to_string(),
        value: CommandOptionChoiceValue::Integer(1),
    };
    let o = CommandOption::new(CommandOptionType::Integer)
        .autocomplete(true)
        .channel_types(vec![ChannelType { number: 0 }])
        .choices(vec![choice.clone()])
        .max_length(10)
        .max_value(Bound::Integer(9))
        .min_length(1)
        .min_value(Bound::Integer(-9))
        .required(true)
        .name("count")
        .description("how many");
    assert_eq!(o.autocomplete, Some(true));
    assert_eq!(o.channel_types, Some(vec![ChannelType { number: 0 }]));
    assert_eq!(o.choices, Some(vec![choice]));
    assert_eq!(o.max_length, Some(10));
    assert_eq!(o.max_value, Some(Bound::Integer(9)));
    assert_eq!(o.min_length, Some(1));
    assert_eq!(o.min_value, Some(Bound::Integer(-9)));
    assert_eq!(o.required, Some(true));
    assert_eq!(o.name.as_deref(), Some("count"));
    assert_eq!(o.description.as_deref(), Some("how many"));
    assert_eq!(o.kind, CommandOptionType::Integer);
}

#[test]
fn clone_keeps_every_field() {
    let o = CommandOption::new(CommandOptionType::String)
        .name("text")
        .description("the text")
        .choices(vec![CommandOptionChoice {
            name: "a".to_string(),
            value: CommandOptionChoiceValue::String("b".to_string()),
        }])
        .required(false);
    assert_eq!(o.clone(), o);
}

#[test]
fn declared_option_defaults_name_and_description_to_empty() {
    let declared = DeclaredOption::from(CommandOption::new(CommandOptionType::Boolean));
    assert_eq!(declared.name, "");
    assert_eq!(declared.description, "");
    assert_eq!(declared.kind, CommandOptionType::Boolean);
    assert_eq!(declared.options, None);
    assert_eq!(declared.required, None);

    let declared = DeclaredOption::from(
        CommandOption::new(CommandOptionType::String).name("text").description("d").required(true),
    );
    assert_eq!(declared.name, "text");
    assert_eq!(declared.description, "d");
    assert_eq!(declared.required, Some(true));
}

#[test]
fn to_option_declares_the_wire_type() {
    assert_eq!(String::to_option(), CommandOption::new(CommandOptionType::String));
    assert_eq!(i32::to_option(), CommandOption::new(CommandOptionType::Integer));
    assert_eq!(
        <Option<String>>::to_option(),
        CommandOption::new(CommandOptionType::String).required(false)
    );
    assert_eq!(
        <Option<i32>>::to_option(),
        CommandOption::new(CommandOptionType::Integer).required(false)
    );
}

#[test]
fn string_converts_from_a_string_value_only() {
    assert_eq!(<String as ArgumentConverter>::convert(&text("hi")), Ok("hi".to_string()));
    assert_eq!(
        <String as ArgumentConverter>::convert(&CommandOptionValue::Integer(1)),
        Err(Error::InvalidType)
    );
    assert_eq!(
        <String as ArgumentConverter>::convert(&CommandOptionValue::Boolean(true)),
        Err(Error::InvalidType)
    );
}

#[test]
fn integer_converts_from_an_integer_value_only() {
    assert_eq!(<i32 as ArgumentConverter>::convert(&CommandOptionValue::Integer(7)), Ok(7));
    assert_eq!(<i32 as ArgumentConverter>::convert(&CommandOptionValue::Integer(-7)), Ok(-7));
    assert_eq!(<i32 as ArgumentConverter>::convert(&text("7")), Err(Error::InvalidType));
}

#[test]
fn integer_is_cut_to_its_low_32_bits() {
    let big = CommandOptionValue::Integer((1i64 << 32) + 5);
    assert_eq!(<i32 as ArgumentConverter>::convert(&big), Ok(5));
    let edge = CommandOptionValue::Integer(i32::MAX as i64 + 1);
    assert_eq!(<i32 as ArgumentConverter>::convert(&edge), Ok(i32::MIN));
}

#[test]
fn required_argument_missing_is_missing_field() {
    assert_eq!(<String as OptionalArgumentConverter>::convert(None), Err(Error::MissingField));
    assert_eq!(<i32 as OptionalArgumentConverter>::convert(None), Err(Error::MissingField));
}

#[test]
fn required_argument_of_wrong_type_is_invalid_type() {
    let value = CommandOptionValue::Integer(1);
    assert_eq!(
        <String as OptionalArgumentConverter>::convert(Some(&value)),
        Err(Error::InvalidType)
    );
    let value = text("x");
    assert_eq!(<i32 as OptionalArgumentConverter>::convert(Some(&value)), Err(Error::InvalidType));
}

#[test]
fn optional_argument_missing_is_none() {
    assert_eq!(<Option<String> as OptionalArgumentConverter>::convert(None), Ok(None));
    assert_eq!(<Option<i32> as OptionalArgumentConverter>::convert(None), Ok(None));
}

#[test]
fn optional_argument_present_is_converted_and_wrapped() {
    let value = text("x");
    assert_eq!(
        <Option<String> as OptionalArgumentConverter>::convert(Some(&value)),
        Ok(Some("x".to_string()))
    );
    let value = CommandOptionValue::Integer(3);
    assert_eq!(<Option<i32> as OptionalArgumentConverter>::convert(Some(&value)), Ok(Some(3)));
}

#[test]
fn optional_argument_of_wrong_type_is_invalid_type() {
    let value = CommandOptionValue::Integer(3);
    assert_eq!(
        <Option<String> as OptionalArgumentConverter>::convert(Some(&value)),
        Err(Error::InvalidType)
    );
}

#[test]
fn option_map_finds_options_by_name() {
    let map = OptionMap::from_options(vec![
        option("text", text("buy milk")),
        option("count", CommandOptionValue::Integer(2)),
    ]);
    assert_eq!(map.get("text"), Some(&text("buy milk")));
    assert_eq!(map.get("count"), Some(&CommandOptionValue::Integer(2)));
    assert_eq!(map.get("other"), None);
    assert_eq!(map.get(""), None);
    assert_eq!(OptionMap::from_options(vec![]).get("text"), None);
}

#[test]
fn option_map_keeps_the_last_of_equal_names() {
    let map = OptionMap::from_options(vec![
        option("text", text("first")),
        option("n", CommandOptionValue::Integer(1)),
        option("text", text("last")),
    ]);
    assert_eq!(map.get("text"), Some(&text("last")));
}

#[test]
fn parse_binds_by_name() {
    let map = OptionMap::from_options(vec![
        option("text", text("buy milk")),
        option("count", CommandOptionValue::Integer(2)),
    ]);
    assert_eq!(parse::<String>(&map, "text"), Ok("buy milk".to_string()));
    assert_eq!(parse::<i32>(&map, "count"), Ok(2));
    assert_eq!(parse::<Option<i32>>(&map, "count"), Ok(Some(2)));
    assert_eq!(parse::<Option<i32>>(&map, "missing"), Ok(None));
    assert_eq!(parse::<i32>(&map, "missing"), Err(Error::MissingField));
    assert_eq!(parse::<i32>(&map, "text"), Err(Error::InvalidType));
    assert_eq!(parse::<Option<String>>(&map, "count"), Err(Error::InvalidType));
}

#[test]
fn argument_error_messages() {
    assert_eq!(Error::InvalidType.message(), "Invalid type for command option");
    assert_eq!(Error::MissingField.message(), "Missing field for command option");
}

#[test]
fn option_type_numbers() {
    let all = [
        (CommandOptionType::SubCommand, 1u8),
        (CommandOptionType::SubCommandGroup, 2),
        (CommandOptionType::String, 3),
        (CommandOptionType::Integer, 4),
        (CommandOptionType::Boolean, 5),
        (CommandOptionType::User, 6),
        (CommandOptionType::Channel, 7),
        (CommandOptionType::Role, 8),
        (CommandOptionType::Mentionable, 9),
        (CommandOptionType::Number, 10),
        (CommandOptionType::Attachment, 11),
    ];
    for (kind, number) in all {
        assert_eq!(kind.number(), number);
        assert_eq!(CommandOptionType::from_number(number), Some(kind));
    }
    assert_eq!(CommandOptionType::from_number(0), None);
    assert_eq!(CommandOptionType::from_number(12), None);
}

#[test]
fn option_value_kinds() {
    assert_eq!(text("x").kind(), CommandOptionType::String);
    assert_eq!(CommandOptionValue::Integer(1).kind(), CommandOptionType::Integer);
    assert_eq!(CommandOptionValue::SubCommand(vec![]).kind(), CommandOptionType::SubCommand);
    assert_eq!(
        CommandOptionValue::Focused("x".to_string(), CommandOptionType::Number).kind(),
        CommandOptionType::Number
    );
}
