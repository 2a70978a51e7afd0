use todoist_bot::interactions::command_handlers::{
    created_response, dry_run_response, handle_component, message_to_string,
    missing_target_response, reminder_request, reminder_task, section_menu_options,
    target_message, today_response, DueTask, TodayReminders,
};
use todoist_bot::interactions::commands::{Command, CommandExecutor, CommandPath};
use todoist_bot::model::interaction::{
    CommandData, CommandDataOption, CommandOptionValue, InteractionDataResolved,
};
use todoist_bot::model::message::{
    ButtonStyle, Component, Embed, EmbedField, Message, SelectMenuOption, SeparatorSpacingSize,
};
use todoist_bot::model::response::{
    InteractionResponse, InteractionResponseData, InteractionResponseType, MessageFlags,
};
use todoist_bot::text::{to_decimal, to_signed_decimal};
use todoist_bot::todoist::http::models::{Due, Project, Section, Task};
use todoist_bot::todoist::{sections_endpoint, tasks_due_today, DatedTask};

fn task(id: &str, content: &str) -> Task {
    Task {
        user_id: "u".into(),
        id: id.into(),
        project_id: "p".into(),
        section_id: None,
        parent_id: None,
        added_by_uid: None,
        assigned_by_uid: None,
        responsible_uid: None,
        labels: vec![],
        deadline: None,
        duration: None,
        checked: false,
        is_deleted: false,
        added_at: String::new(),
        completed_at: None,
        updated_at: None,
        due: None,
        priority: 1,
        child_order: 0,
        content: content.into(),
        description: String::new(),
        day_order: 0,
        is_collapsed: false,
    }
}

fn project(id: &str, name: &str) -> Project {
    Project {
        id: id.into(),
        can_assign_tasks: true,
        child_order: 0,
        color: String::new(),
        creator_uid: None,
        created_at: String::new(),
        is_archived: false,
        is_deleted: false,
        is_favorite: false,
        is_frozen: false,
        name: name.into(),
        updated_at: None,
        view_style: String::new(),
        default_order: 0,
        description: String::new(),
        public_key: String::new(),
        role: None,
        parent_id: None,
        inbox_project: false,
        is_collapsed: false,
        is_shared: false,
    }
}

fn section(id: &str, name: &str) -> Section {
    Section {
        id: id.into(),
        user_id: String::new(),
        project_id: String::new(),
        added_at: String::new(),
        updated_at: None,
        archived_at: None,
        name: name.into(),
        section_order: 0,
        is_archived: false,
        is_deleted: false,
        is_collapsed: false,
    }
}

fn text_display(content: &str) -> Component {
    Component::TextDisplay { content: content.to_string() }
}

fn message(id: u64, content: &str) -> Message {
    Message { channel_id: 5, components: vec![], content: content.to_string(), embeds: vec![], id }
}

fn container_response(color: u32, text: &str) -> InteractionResponse {
    InteractionResponse {
        kind: InteractionResponseType::ChannelMessageWithSource,
        data: Some(InteractionResponseData {
            components: Some(vec![Component::Container {
                accent_color: Some(Some(color)),
                components: vec![text_display(text)],
                spoiler: None,
            }]),
            content: None,
            flags: Some(MessageFlags { bits: 64 | 32768 }),
        }),
    }
}

fn plain(content: &str) -> InteractionResponse {
    InteractionResponse {
        kind: InteractionResponseType::ChannelMessageWithSource,
        data: Some(InteractionResponseData {
            components: None,
            content: Some(content.to_string()),
            flags: None,
        }),
    }
}

#[test]
fn decimal_digits() {
    assert_eq!(to_decimal(0), "0");
    assert_eq!(to_decimal(7), "7");
    assert_eq!(to_decimal(10), "10");
    assert_eq!(to_decimal(1234567890), "1234567890");
    assert_eq!(to_decimal(u64::MAX), u64::MAX.to_string());
    assert_eq!(to_signed_decimal(0), "0");
    assert_eq!(to_signed_decimal(-1), "-1");
    assert_eq!(to_signed_decimal(1700000000), "1700000000");
    assert_eq!(to_signed_decimal(i64::MIN), i64::MIN.to_string());
    assert_eq!(to_signed_decimal(i64::MAX), i64::MAX.to_string());
}

#[test]
fn today_reminders_is_the_today_command() {
    assert_eq!(TodayReminders::name(), "today");
    assert_eq!(TodayReminders::description(), "Get reminders due today");
    assert!(TodayReminders::options().is_empty());
    assert_eq!(TodayReminders::from_command_data(vec![]), Ok(TodayReminders));
    let extra = vec![CommandDataOption { name: "x".into(), value: CommandOptionValue::Boolean(true) }];
    assert_eq!(TodayReminders::from_command_data(extra), Ok(TodayReminders));
    let mut executor: CommandExecutor<u8> = CommandExecutor::new();
    executor.register::<TodayReminders>(1);
    assert_eq!(executor.resolve(&CommandPath::parse("today").unwrap()).unwrap().handler, 1);
}

#[test]
fn component_text_of_each_kind() {
    assert_eq!(handle_component(&text_display("hi")), Some("hi".to_string()));
    assert_eq!(handle_component(&text_display("")), Some(String::new()));
    assert_eq!(handle_component(&Component::Unknown { kind: 99 }), None);
    assert_eq!(
        handle_component(&Component::Separator { divider: None, spacing: None }),
        None
    );
    let row = Component::ActionRow { components: vec![text_display("hidden")] };
    assert_eq!(handle_component(&row), None);
    let container = Component::Container {
        accent_color: None,
        components: vec![text_display("a"), Component::Unknown { kind: 1 }, text_display("b")],
        spoiler: None,
    };
    assert_eq!(handle_component(&container), Some("a\nb\n".to_string()));
    let empty = Component::Container { accent_color: None, components: vec![], spoiler: None };
    assert_eq!(handle_component(&empty), None);
    let section = Component::Section {
        components: vec![text_display("s")],
        accessory: Box::new(text_display("not shown")),
    };
    assert_eq!(handle_component(&section), Some("s\n".to_string()));
    let nested = Component::Container {
        accent_color: None,
        components: vec![section, text_display("t")],
        spoiler: None,
    };
    assert_eq!(handle_component(&nested), Some("s\n\nt\n".to_string()));
}

#[test]
fn message_text_has_content_embeds_and_components() {
    assert_eq!(message_to_string(&message(1, "just text")), "just text");
    let full = Message {
        channel_id: 1,
        components: vec![
            text_display("shown"),
            Component::Unknown { kind: 2 },
            Component::Container { accent_color: None, components: vec![text_display("in")], spoiler: None },
        ],
        content: "hello".to_string(),
        embeds: vec![
            Embed {
                description: Some("desc".to_string()),
                fields: vec![
                    EmbedField { name: "k".to_string(), value: "v".to_string() },
                    EmbedField { name: "k2".to_string(), value: "v2".to_string() },
                ],
                title: Some("title".to_string()),
            },
            Embed { description: None, fields: vec![], title: None },
        ],
        id: 2,
    };
    assert_eq!(message_to_string(&full), "hellotitle\ndesc\nk: v\nk2: v2\n\nshown\nin\n\n");
}

#[test]
fn today_response_without_tasks() {
    assert_eq!(
        today_response(&vec![]),
        container_response(0x00AA00, "You have no more tasks due today!")
    );
}

#[test]
fn today_response_lists_tasks() {
    let entries = vec![
        DueTask { task: task("11", "buy milk"), due_timestamp: None },
        DueTask { task: task("12", "call"), due_timestamp: Some(1700000000) },
    ];
    let text = "There are **2** tasks due today:\n\
                - [buy milk](https://app.todoist.com/app/task/11)\n\
                - [call](https://app.todoist.com/app/task/12) <t:1700000000:t>\n";
    assert_eq!(today_response(&entries), container_response(0xAAAA00, text));
}

#[test]
fn target_message_is_found_by_id() {
    let data = |resolved: Option<Vec<Message>>, target_id: Option<u64>| CommandData {
        name: "Add To-Do".to_string(),
        options: vec![],
        resolved: resolved.map(|messages| InteractionDataResolved { messages }),
        target_id,
    };
    let two = || vec![message(1, "one"), message(2, "two")];
    assert_eq!(target_message(&data(Some(two()), Some(2))).unwrap().content, "two");
    assert_eq!(target_message(&data(Some(two()), Some(1))).unwrap().content, "one");
    assert!(target_message(&data(Some(two()), Some(3))).is_none());
    assert!(target_message(&data(Some(two()), None)).is_none());
    assert!(target_message(&data(None, Some(1))).is_none());
    assert!(target_message(&data(Some(vec![]), Some(1))).is_none());
}

#[test]
fn reminder_request_asks_for_a_reminder() {
    let request = reminder_request("model-1", "buy milk");
    assert_eq!(request.model, "model-1");
    assert_eq!(request.max_tokens, 1000);
    assert_eq!(request.messages.len(), 1);
    assert_eq!(request.messages[0].role, "user");
    assert_eq!(
        request.messages[0].content,
        "Create a reminder to add to my to-do list from the following message: buy milk"
    );
    assert!(request.system.unwrap().starts_with("You are a helpful assistant that creates reminders."));
}

#[test]
fn reminder_notices() {
    assert_eq!(
        missing_target_response("X"),
        plain("X Could not find the target message to create a reminder from.")
    );
    assert_eq!(dry_run_response("V", "buy milk"), plain("V (Dry Run) Created reminder: **buy milk**"));
}

#[test]
fn reminder_task_links_to_the_message() {
    let in_guild = reminder_task("buy milk", Some(10), 20, 30);
    assert_eq!(in_guild.content, "buy milk");
    assert_eq!(
        in_guild.description.as_deref(),
        Some("Created from message: https://discord.com/channels/10/20/30")
    );
    assert!(in_guild.project_id.is_none() && in_guild.due_string.is_none());
    let direct = reminder_task("x", None, 20, 30);
    assert_eq!(
        direct.description.as_deref(),
        Some("Created from message: https://discord.com/channels/@me/20/30")
    );
}

fn menu_option(label: &str, value: &str, description: &str) -> SelectMenuOption {
    SelectMenuOption {
        description: Some(description.to_string()),
        label: label.to_string(),
        value: value.to_string(),
    }
}

#[test]
fn section_menu_lists_projects_with_their_sections() {
    assert_eq!(section_menu_options(&vec![]), vec![]);
    let groups = vec![
        (project("1", "Home"), vec![section("7", "Chores"), section("8", "Garden")]),
        (project("2", "Work"), vec![]),
    ];
    assert_eq!(
        section_menu_options(&groups),
        vec![
            menu_option("Home", "1", "Add to project: Home"),
            menu_option("Home / Chores", "1-7", "Add to section: Chores"),
            menu_option("Home / Garden", "1-8", "Add to section: Garden"),
            menu_option("Work", "2", "Add to project: Work"),
        ]
    );
}

#[test]
fn created_response_shows_the_task_and_the_menu() {
    let options = vec![menu_option("Home", "1", "Add to project: Home")];
    let expected = InteractionResponse {
        kind: InteractionResponseType::ChannelMessageWithSource,
        data: Some(InteractionResponseData {
            components: Some(vec![Component::Container {
                accent_color: Some(Some(0x00AA00)),
                components: vec![
                    Component::Section {
                        components: vec![text_display("V Created task:\n**buy milk**")],
                        accessory: Box::new(Component::Button {
                            custom_id: None,
                            emoji: Some("🔗".to_string()),
                            label: Some("View Task".to_string()),
                            style: ButtonStyle::Link,
                            url: Some("https://app.todoist.com/app/task/42".to_string()),
                        }),
                    },
                    Component::Separator { divider: Some(true), spacing: Some(SeparatorSpacingSize::Large) },
                    Component::ActionRow {
                        components: vec![Component::SelectMenu {
                            custom_id: "section_select:42".to_string(),
                            options: options.clone(),
                            placeholder: Some("Update Section".to_string()),
                        }],
                    },
                ],
                spoiler: None,
            }]),
            content: None,
            flags: Some(MessageFlags { bits: 64 | 32768 }),
        }),
    };
    assert_eq!(created_response("V", &task("42", "buy milk"), options), expected);
}

fn dated(id: &str, day: Option<i64>, time: u64) -> DatedTask {
    DatedTask { task: task(id, id), due_day: day, due_time: time }
}

fn ids(tasks: &[DatedTask]) -> Vec<String> {
    tasks.iter().map(|t| t.task.id.clone()).collect()
}

#[test]
fn tasks_due_today_are_picked_and_ordered_by_time() {
    let tasks = vec![
        dated("late", Some(100), 72_000_000_000_000),
        dated("other-day", Some(99), 0),
        dated("no-due", None, 0),
        dated("early", Some(100), 3_600_000_000_001),
        dated("earlier", Some(100), 3_600_000_000_000),
        dated("all-day", Some(100), 0),
        dated("tomorrow", Some(101), 10),
    ];
    assert_eq!(ids(&tasks_due_today(tasks, 100)), vec!["all-day", "earlier", "early", "late"]);
    assert!(tasks_due_today(vec![], 1).is_empty());
    assert!(tasks_due_today(vec![dated("a", None, 0)], 1).is_empty());
}

#[test]
fn tasks_due_at_the_same_time_keep_their_order() {
    let tasks = vec![
        dated("b1", Some(1), 50),
        dated("a1", Some(1), 10),
        dated("b2", Some(1), 50),
        dated("a2", Some(1), 10),
        dated("b3", Some(1), 50),
    ];
    assert_eq!(ids(&tasks_due_today(tasks, 1)), vec!["a1", "a2", "b1", "b2", "b3"]);
}

#[test]
fn sections_endpoint_names_the_project() {
    assert_eq!(sections_endpoint("123"), "/sections?project_id=123");
}

#[test]
fn due_is_date_only_for_a_calendar_date() {
    let due = |date: &str| Due {
        date: date.to_string(),
        timezone: None,
        string: String::new(),
        lang: "en".to_string(),
        is_recurring: false,
    };
    assert!(due("2025-01-02").is_date_only());
    assert!(!due("2025-01-02T10:00:00").is_date_only());
    assert!(!due("2025-01-02T10:00:00Z").is_date_only());
    assert!(!due("2025-13-02").is_date_only());
    assert!(!due("").is_date_only());
    assert!(!due("tomorrow").is_date_only());
}
