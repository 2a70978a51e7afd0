//! What the command handlers compute: the text of a message to make a reminder
//! from, and the responses that show the tasks of the day.

use crate::interactions::commands::arguments::{CommandOption, CommandOptionView, Error};
use crate::interactions::commands::Command;
use crate::model::interaction::CommandDataOption;
use crate::claude::models::{InputMessage, MessageRequest};
use crate::model::interaction::CommandData;
use crate::model::message::{ButtonStyle, ComponentView, SelectMenuOption, SelectMenuOptionView};
use crate::model::message::SeparatorSpacingSize;
use crate::model::message::{Component, Embed, EmbedField, Message};
use crate::model::response::text_message;
use crate::todoist::http::models::{Project, Section};
use crate::todoist::NewTask;
use crate::model::response::{container_message, text_container, InteractionResponse};
use crate::model::response::InteractionResponseView;
use crate::text::{concat_str, decimal, signed_decimal, to_decimal, to_signed_decimal};
use crate::todoist::http::models::{task_url_prefix, Task};
use vstd::prelude::*;
use vstd::string::*;

verus! {

/// The command that shows the reminders that are due today. It has no
/// arguments.
#[derive(Debug, Clone, Copy, PartialEq, Eq, Structural)]
pub struct TodayReminders;

impl Command for TodayReminders {
    open spec fn spec_name() -> Seq<char> {
        "today"@
    }

    open spec fn spec_description() -> Seq<char> {
        "Get reminders due today"@
    }

    open spec fn spec_options() -> Seq<CommandOptionView> {
        Seq::empty()
    }

    /// The command binds to every option list.
    open spec fn binds(data: Seq<CommandDataOption>, r: Result<TodayReminders, Error>) -> bool {
        r == Ok::<TodayReminders, Error>(TodayReminders)
    }

    fn options() -> (r: Vec<CommandOption>) {
        let r: Vec<CommandOption> = Vec::new();
        assert(r.deep_view() =~= Seq::empty());
        r
    }

    fn from_command_data(data: Vec<CommandDataOption>) -> (r: Result<TodayReminders, Error>) {
        Ok(TodayReminders)
    }

    fn description() -> (r: &'static str) {
        "Get reminders due today"
    }

    fn name() -> (r: &'static str) {
        "today"
    }
}

/// The text that a component shows: the content of a text display, and for a
/// section or a container the texts of its components, each on a line of its
/// own. A component of another kind, or one without text in it, shows nothing.
pub open spec fn component_text(component: Component) -> Option<Seq<char>>
    decreases component,
{
    match component {
        Component::TextDisplay { content } => Some(content@),
        Component::Section { components, accessory } => {
            let lines = components_text(components@);
            if lines.len() > 0 {
                Some(lines)
            } else {
                None
            }
        },
        Component::Container { accent_color, components, spoiler } => {
            let lines = components_text(components@);
            if lines.len() > 0 {
                Some(lines)
            } else {
                None
            }
        },
        _ => None,
    }
}

/// The texts that the components of a list show, each followed by a line
/// break.
pub open spec fn components_text(list: Seq<Component>) -> Seq<char>
    decreases list,
{
    if list.len() == 0 {
        Seq::empty()
    } else {
        components_text(list.drop_last()) + match component_text(list.last()) {
            Some(text) => text.push('\n'),
            None => Seq::empty(),
        }
    }
}

/// The text that a component shows.
pub fn handle_component(component: &Component) -> (r: Option<String>)
    ensures
        r.deep_view() == component_text(*component),
    decreases component, 0nat,
{
    match component {
        Component::Section { components, accessory } => handle_components(components),
        Component::Container { accent_color, components, spoiler } => handle_components(components),
        Component::TextDisplay { content } => Some(content.clone()),
        _ => None,
    }
}

/// The texts of the components of a section or a container, or nothing where
/// none of them shows text.
fn handle_components(components: &Vec<Component>) -> (r: Option<String>)
    ensures
        r.deep_view() == if components_text(components@).len() > 0 {
            Some(components_text(components@))
        } else {
            None
        },
    decreases components, 1nat,
{
    let contents = gather_components(components);
    if contents.as_str().is_empty() {
        None
    } else {
        Some(contents)
    }
}

/// The texts that the components of a list show, each followed by a line
/// break.
fn gather_components(components: &Vec<Component>) -> (r: String)
    ensures
        r@ == components_text(components@),
    decreases components, 0nat,
{
    let mut contents = String::new();
    let mut i: usize = 0;
    proof {
        reveal_strlit("\n");
        assert("\n"@ == seq!['\n']);
    }
    while i < components.len()
        invariant
            i <= components.len(),
            contents@ == components_text(components@.take(i as int)),
            "\n"@ == seq!['\n'],
        decreases components.len() - i,
    {
        proof {
            assert(components@.take(i + 1).drop_last() == components@.take(i as int));
            assert(components@.take(i + 1).last() == components@[i as int]);
            vstd::std_specs::vec::axiom_vec_index_decreases(*components, i as int);
        }
        if let Some(text) = handle_component(&components[i]) {
            contents.append(text.as_str());
            contents.append("\n");
        }
        i += 1;
    }
    proof {
        assert(components@.take(components.len() as int) == components@);
    }
    contents
}

/// The lines `name: value` of the fields of an embed, with a line break
/// between neighbours.
pub open spec fn fields_text(fields: Seq<EmbedField>) -> Seq<char>
    decreases fields.len(),
{
    if fields.len() == 0 {
        Seq::empty()
    } else if fields.len() == 1 {
        fields[0].name@ + ": "@ + fields[0].value@
    } else {
        fields_text(fields.drop_last()) + seq!['\n'] + fields.last().name@ + ": "@
            + fields.last().value@
    }
}

/// The text of an embed: its title and its description, each on a line of its
/// own where it is there, then its fields.
pub open spec fn embed_text(embed: Embed) -> Seq<char> {
    (match embed.title {
        Some(title) => title@.push('\n'),
        None => Seq::empty(),
    }) + (match embed.description {
        Some(description) => description@.push('\n'),
        None => Seq::empty(),
    }) + fields_text(embed.fields@)
}

/// The texts of the embeds of a list, each followed by a line break.
pub open spec fn embeds_text(embeds: Seq<Embed>) -> Seq<char>
    decreases embeds.len(),
{
    if embeds.len() == 0 {
        Seq::empty()
    } else {
        embeds_text(embeds.drop_last()) + embed_text(embeds.last()).push('\n')
    }
}

/// The text of a message: its content, then its embeds, then what its
/// components show.
pub open spec fn message_text(message: Message) -> Seq<char> {
    message.content@ + embeds_text(message.embeds@) + components_text(message.components@)
}

/// The text of an embed.
fn embed_to_string(embed: &Embed) -> (r: String)
    ensures
        r@ == embed_text(*embed),
{
    proof {
        reveal_strlit("\n");
        assert("\n"@ == seq!['\n']);
    }
    let mut out = String::new();
    if let Some(title) = &embed.title {
        out.append(title.as_str());
        out.append("\n");
    }
    if let Some(description) = &embed.description {
        out.append(description.as_str());
        out.append("\n");
    }
    let ghost head = out@;
    let mut i: usize = 0;
    while i < embed.fields.len()
        invariant
            i <= embed.fields.len(),
            out@ == head + fields_text(embed.fields@.take(i as int)),
            "\n"@ == seq!['\n'],
        decreases embed.fields.len() - i,
    {
        proof {
            assert(embed.fields@.take(i + 1).drop_last() == embed.fields@.take(i as int));
            assert(embed.fields@.take(i + 1).last() == embed.fields@[i as int]);
            if i == 0 {
                assert(embed.fields@.take(1)[0] == embed.fields@[0]);
            }
        }
        if i > 0 {
            out.append("\n");
        }
        out.append(embed.fields[i].name.as_str());
        out.append(": ");
        out.append(embed.fields[i].value.as_str());
        i += 1;
    }
    proof {
        assert(embed.fields@.take(embed.fields.len() as int) == embed.fields@);
    }
    out
}

/// The text of a message, to make a reminder from.
pub fn message_to_string(message: &Message) -> (r: String)
    ensures
        r@ == message_text(*message),
{
    proof {
        reveal_strlit("\n");
        assert("\n"@ == seq!['\n']);
    }
    let mut content = String::new();
    content.append(message.content.as_str());
    let mut i: usize = 0;
    while i < message.embeds.len()
        invariant
            i <= message.embeds.len(),
            content@ == message.content@ + embeds_text(message.embeds@.take(i as int)),
            "\n"@ == seq!['\n'],
        decreases message.embeds.len() - i,
    {
        proof {
            assert(message.embeds@.take(i + 1).drop_last() == message.embeds@.take(i as int));
            assert(message.embeds@.take(i + 1).last() == message.embeds@[i as int]);
        }
        let text = embed_to_string(&message.embeds[i]);
        content.append(text.as_str());
        content.append("\n");
        i += 1;
    }
    proof {
        assert(message.embeds@.take(message.embeds.len() as int) == message.embeds@);
    }
    let shown = gather_components(&message.components);
    content.append(shown.as_str());
    content
}

/// A task that is due today, with the moment at which it is due where the due
/// date has a time of day: the seconds since the Unix epoch.
pub struct DueTask {
    pub task: Task,
    pub due_timestamp: Option<i64>,
}

/// The accent colour of the list of today's tasks where there is none.
pub const NOTHING_DUE_COLOR: u32 = 0x00AA00;

/// The accent colour of the list of today's tasks where there are some.
pub const TASKS_DUE_COLOR: u32 = 0xAAAA00;

/// The line that shows one task: a link to it under its content, and the time
/// at which it is due where it has one.
pub open spec fn task_line(entry: DueTask) -> Seq<char> {
    "- ["@ + entry.task.content@ + "]("@ + task_url_prefix() + entry.task.id@ + ")"@ + (
    match entry.due_timestamp {
        Some(moment) => " <t:"@ + signed_decimal(moment as int) + ":t>"@,
        None => Seq::empty(),
    }) + "\n"@
}

/// The lines of the tasks of a list.
pub open spec fn task_lines(entries: Seq<DueTask>) -> Seq<char>
    decreases entries.len(),
{
    if entries.len() == 0 {
        Seq::empty()
    } else {
        task_lines(entries.drop_last()) + task_line(entries.last())
    }
}

/// The text of the list of today's tasks.
pub open spec fn today_text(entries: Seq<DueTask>) -> Seq<char> {
    if entries.len() == 0 {
        "You have no more tasks due today!"@
    } else {
        "There are **"@ + decimal(entries.len()) + "** tasks due today:\n"@ + task_lines(entries)
    }
}

/// The response that shows today's tasks.
pub open spec fn today_view(entries: Seq<DueTask>) -> InteractionResponseView {
    container_message(
        text_container(
            if entries.len() == 0 {
                NOTHING_DUE_COLOR
            } else {
                TASKS_DUE_COLOR
            },
            today_text(entries),
        ),
    )
}

/// Renders the tasks that are due today, in the order given.
pub fn today_response(entries: &Vec<DueTask>) -> (r: InteractionResponse)
    ensures
        r.deep_view() == today_view(entries@),
{
    if entries.len() == 0 {
        let text = "You have no more tasks due today!".to_owned();
        return InteractionResponse::new_container(
            Component::new_text_container(NOTHING_DUE_COLOR, text),
        );
    }
    let mut content = concat_str("There are **", to_decimal(entries.len() as u64).as_str());
    content.append("** tasks due today:\n");
    let ghost head = content@;
    let mut i: usize = 0;
    while i < entries.len()
        invariant
            i <= entries.len(),
            content@ == head + task_lines(entries@.take(i as int)),
        decreases entries.len() - i,
    {
        proof {
            assert(entries@.take(i + 1).drop_last() == entries@.take(i as int));
            assert(entries@.take(i + 1).last() == entries@[i as int]);
        }
        let entry = &entries[i];
        let ghost before = content@;
        content.append("- [");
        content.append(entry.task.content.as_str());
        content.append("](");
        content.append(entry.task.get_url().as_str());
        content.append(")");
        if let Some(moment) = entry.due_timestamp {
            content.append(" <t:");
            content.append(to_signed_decimal(moment).as_str());
            content.append(":t>");
        }
        content.append("\n");
        assert(content@ =~= before + task_line(*entry));
        i += 1;
    }
    proof {
        assert(entries@.take(entries.len() as int) == entries@);
    }
    InteractionResponse::new_container(Component::new_text_container(TASKS_DUE_COLOR, content))
}

/// The first message of a list that has the id `id`.
pub open spec fn message_with_id(messages: Seq<Message>, id: u64) -> Option<Message>
    decreases messages.len(),
{
    if messages.len() == 0 {
        None
    } else if messages.first().id == id {
        Some(messages.first())
    } else {
        message_with_id(messages.drop_first(), id)
    }
}

/// The message that a message command is aimed at: the resolved message whose
/// id is the target id.
pub open spec fn targeted(data: CommandData) -> Option<Message> {
    match (data.resolved, data.target_id) {
        (Some(resolved), Some(target)) => message_with_id(resolved.messages@, target),
        _ => None,
    }
}

/// Finds the message that a message command is aimed at.
pub fn target_message(data: &CommandData) -> (r: Option<&Message>)
    ensures
        match r {
            Some(message) => targeted(*data) == Some(*message),
            None => targeted(*data) is None,
        },
{
    let resolved = match &data.resolved {
        Some(resolved) => resolved,
        None => {
            return None;
        },
    };
    let target = match data.target_id {
        Some(target) => target,
        None => {
            return None;
        },
    };
    let mut i: usize = 0;
    proof {
        assert(resolved.messages@.skip(0) == resolved.messages@);
    }
    while i < resolved.messages.len()
        invariant
            i <= resolved.messages.len(),
            data.resolved == Some(*resolved),
            data.target_id == Some(target),
            message_with_id(resolved.messages@, target) == message_with_id(
                resolved.messages@.skip(i as int),
                target,
            ),
        decreases resolved.messages.len() - i,
    {
        proof {
            let rest = resolved.messages@.skip(i as int);
            assert(rest.first() == resolved.messages@[i as int]);
            assert(rest.drop_first() == resolved.messages@.skip(i + 1));
        }
        if resolved.messages[i].id == target {
            return Some(&resolved.messages[i]);
        }
        i += 1;
    }
    None
}

/// What the text-generation service is asked first: to make a reminder from
/// the text of the message.
pub open spec fn reminder_prompt(content: Seq<char>) -> Seq<char> {
    "Create a reminder to add to my to-do list from the following message: "@ + content
}

/// How the text-generation service is told to answer.
pub open spec fn reminder_instructions() -> Seq<char> {
    "You are a helpful assistant that creates reminders. Use concise language, and only respond with the reminder text without any additional commentary. The reminder should be suitable for adding to a to-do list application."@
}

/// The request that asks the model `model` for a reminder from `content`.
pub fn reminder_request(model: &str, content: &str) -> (r: MessageRequest)
    ensures
        r.model@ == model@,
        r.max_tokens == 1000,
        r.messages@.len() == 1,
        r.messages@[0].role@ == "user"@,
        r.messages@[0].content@ == reminder_prompt(content@),
        r.system matches Some(system) && system@ == reminder_instructions(),
{
    let mut messages: Vec<InputMessage> = Vec::new();
    messages.push(
        InputMessage {
            role: "user".to_owned(),
            content: concat_str(
                "Create a reminder to add to my to-do list from the following message: ",
                content,
            ),
        },
    );
    MessageRequest {
        model: model.to_owned(),
        messages,
        max_tokens: 1000,
        system: Some(
            "You are a helpful assistant that creates reminders. Use concise language, and only respond with the reminder text without any additional commentary. The reminder should be suitable for adding to a to-do list application.".to_owned(),
        ),
    }
}

/// The notice for a message command without its message.
pub fn missing_target_response(error_mark: &str) -> (r: InteractionResponse)
    ensures
        r.deep_view() == text_message(
            error_mark@ + " Could not find the target message to create a reminder from."@,
            None,
        ),
{
    InteractionResponse::new_text(
        concat_str(error_mark, " Could not find the target message to create a reminder from."),
        None,
    )
}

/// The reply of a dry run, in which no task is created.
pub fn dry_run_response(success_mark: &str, reminder: &str) -> (r: InteractionResponse)
    ensures
        r.deep_view() == text_message(
            success_mark@ + " (Dry Run) Created reminder: **"@ + reminder@ + "**"@,
            None,
        ),
{
    let mut text = concat_str(success_mark, " (Dry Run) Created reminder: **");
    text.append(reminder);
    text.append("**");
    InteractionResponse::new_text(text, None)
}

/// Where a message stands: in a guild, or among the direct messages.
pub open spec fn message_link(guild_id: Option<u64>, channel_id: u64, message_id: u64) -> Seq<char> {
    "https://discord.com/channels/"@ + (match guild_id {
        Some(guild) => decimal(guild as nat),
        None => "@me"@,
    }) + "/"@ + decimal(channel_id as nat) + "/"@ + decimal(message_id as nat)
}

/// The task to create for a reminder: the reminder as its content, and the
/// place of the message it was made from as its description.
pub fn reminder_task(reminder: &str, guild_id: Option<u64>, channel_id: u64, message_id: u64) -> (r:
    NewTask)
    ensures
        r.content@ == reminder@,
        r.description matches Some(description) && description@ == "Created from message: "@
            + message_link(guild_id, channel_id, message_id),
        r.project_id is None,
        r.section_id is None,
        r.parent_id is None,
        r.order is None,
        r.labels is None,
        r.priority is None,
        r.assignee_id is None,
        r.due_string is None,
        r.due_date is None,
        r.due_datetime is None,
        r.due_lang is None,
        r.duration is None,
        r.duration_unit is None,
        r.deadline_date is None,
{
    let mut link = "Created from message: https://discord.com/channels/".to_owned();
    let ghost start = link@;
    proof {
        reveal_strlit("Created from message: https://discord.com/channels/");
        reveal_strlit("Created from message: ");
        reveal_strlit("https://discord.com/channels/");
        assert(start =~= "Created from message: "@ + "https://discord.com/channels/"@);
    }
    match guild_id {
        Some(guild) => link.append(to_decimal(guild).as_str()),
        None => link.append("@me"),
    }
    link.append("/");
    link.append(to_decimal(channel_id).as_str());
    link.append("/");
    link.append(to_decimal(message_id).as_str());
    assert(link@ =~= "Created from message: "@ + message_link(guild_id, channel_id, message_id));
    let mut task = NewTask::default();
    task.content = reminder.to_owned();
    task.description = Some(link);
    task
}

/// The menu entry that moves a task to a project.
pub open spec fn project_option(project: Project) -> SelectMenuOptionView {
    SelectMenuOptionView {
        description: Some("Add to project: "@ + project.name@),
        label: project.name@,
        value: project.id@,
    }
}

/// The menu entry that moves a task to a section of a project.
pub open spec fn section_option(project: Project, section: Section) -> SelectMenuOptionView {
    SelectMenuOptionView {
        description: Some("Add to section: "@ + section.name@),
        label: project.name@ + " / "@ + section.name@,
        value: project.id@ + "-"@ + section.id@,
    }
}

/// The menu entries of the sections of a project, in order.
pub open spec fn section_options(project: Project, sections: Seq<Section>) -> Seq<SelectMenuOptionView> {
    Seq::new(sections.len(), |i: int| section_option(project, sections[i]))
}

/// The menu entries for a list of projects with their sections: each project
/// is followed by its sections.
pub open spec fn menu_options(groups: Seq<(Project, Vec<Section>)>) -> Seq<SelectMenuOptionView>
    decreases groups.len(),
{
    if groups.len() == 0 {
        Seq::empty()
    } else {
        menu_options(groups.drop_last()) + seq![project_option(groups.last().0)] + section_options(
            groups.last().0,
            groups.last().1@,
        )
    }
}

/// Builds the entries of the menu that moves a task to a project or a section.
pub fn section_menu_options(groups: &Vec<(Project, Vec<Section>)>) -> (r: Vec<SelectMenuOption>)
    ensures
        r.deep_view() == menu_options(groups@),
{
    let mut out: Vec<SelectMenuOption> = Vec::new();
    let mut i: usize = 0;
    assert(out.deep_view() =~= menu_options(groups@.take(0)));
    while i < groups.len()
        invariant
            i <= groups.len(),
            out.deep_view() == menu_options(groups@.take(i as int)),
        decreases groups.len() - i,
    {
        proof {
            assert(groups@.take(i + 1).drop_last() == groups@.take(i as int));
            assert(groups@.take(i + 1).last() == groups@[i as int]);
        }
        let project = &groups[i].0;
        let sections = &groups[i].1;
        let ghost before = out.deep_view();
        let entry = SelectMenuOption {
            description: Some(concat_str("Add to project: ", project.name.as_str())),
            label: project.name.clone(),
            value: project.id.clone(),
        };
        out.push(entry);
        assert(out.deep_view() =~= before + seq![project_option(*project)]);
        let ghost middle = out.deep_view();
        let mut j: usize = 0;
        while j < sections.len()
            invariant
                j <= sections.len(),
                out.deep_view() == middle + section_options(*project, sections@.take(j as int)),
            decreases sections.len() - j,
        {
            let section = &sections[j];
            let ghost inner = out.deep_view();
            let mut label = concat_str(project.name.as_str(), " / ");
            label.append(section.name.as_str());
            let mut value = concat_str(project.id.as_str(), "-");
            value.append(section.id.as_str());
            let entry = SelectMenuOption {
                description: Some(concat_str("Add to section: ", section.name.as_str())),
                label,
                value,
            };
            out.push(entry);
            proof {
                assert(out.deep_view() =~= inner.push(section_option(*project, *section)));
                assert(section_options(*project, sections@.take(j + 1)) =~= section_options(
                    *project,
                    sections@.take(j as int),
                ).push(section_option(*project, *section)));
            }
            j += 1;
        }
        proof {
            assert(sections@.take(sections.len() as int) == sections@);
        }
        i += 1;
    }
    proof {
        assert(groups@.take(groups.len() as int) == groups@);
    }
    out
}

/// The text over a created task.
pub open spec fn created_text(success_mark: Seq<char>, content: Seq<char>) -> Seq<char> {
    success_mark + " Created task:\n**"@ + content + "**"@
}

/// The response that shows a created task: its content beside a link to it,
/// and under a divider the menu that moves it to a project or a section.
pub open spec fn created_view(
    success_mark: Seq<char>,
    task: Task,
    options: Seq<SelectMenuOptionView>,
) -> InteractionResponseView {
    container_message(
        ComponentView::Container {
            accent_color: Some(Some(NOTHING_DUE_COLOR)),
            components: seq![
                ComponentView::Section {
                    components: seq![
                        ComponentView::TextDisplay {
                            content: created_text(success_mark, task.content@),
                        },
                    ],
                    accessory: Box::new(
                        ComponentView::Button {
                            custom_id: None,
                            emoji: Some("\u{1F517}"@),
                            label: Some("View Task"@),
                            style: ButtonStyle::Link,
                            url: Some(task_url_prefix() + task.id@),
                        },
                    ),
                },
                ComponentView::Separator {
                    divider: Some(true),
                    spacing: Some(SeparatorSpacingSize::Large),
                },
                ComponentView::ActionRow {
                    components: seq![
                        ComponentView::SelectMenu {
                            custom_id: "section_select:"@ + task.id@,
                            options,
                            placeholder: Some("Update Section"@),
                        },
                    ],
                },
            ],
            spoiler: None,
        },
    )
}

/// Renders the response that shows a created task.
pub fn created_response(success_mark: &str, task: &Task, options: Vec<SelectMenuOption>) -> (r:
    InteractionResponse)
    ensures
        r.deep_view() == created_view(success_mark@, *task, options.deep_view()),
{
    let mut text = concat_str(success_mark, " Created task:\n**");
    text.append(task.content.as_str());
    text.append("**");
    let header = Component::TextDisplay { content: text };
    let accessory = Component::Button {
        custom_id: None,
        emoji: Some("\u{1F517}".to_owned()),
        label: Some("View Task".to_owned()),
        style: ButtonStyle::Link,
        url: Some(task.get_url()),
    };
    let mut beside: Vec<Component> = Vec::new();
    beside.push(header);
    let section = Component::Section { components: beside, accessory: Box::new(accessory) };
    let separator = Component::Separator {
        divider: Some(true),
        spacing: Some(SeparatorSpacingSize::Large),
    };
    let menu = Component::SelectMenu {
        custom_id: concat_str("section_select:", task.id.as_str()),
        options,
        placeholder: Some("Update Section".to_owned()),
    };
    let mut row: Vec<Component> = Vec::new();
    row.push(menu);
    let action_row = Component::ActionRow { components: row };
    let mut components: Vec<Component> = Vec::new();
    components.push(section);
    components.push(separator);
    components.push(action_row);
    let container = Component::Container {
        accent_color: Some(Some(NOTHING_DUE_COLOR)),
        components,
        spoiler: None,
    };
    proof {
        reveal_with_fuel(Component::abstraction, 4);
        let want = created_view(success_mark@, *task, options.deep_view()).data->0.components->0[0];
        assert(section.deep_view()->Section_components =~= want->Container_components[0]->Section_components);
        assert(action_row.deep_view()->ActionRow_components
            =~= want->Container_components[2]->ActionRow_components);
        assert(container.deep_view()->Container_components =~= want->Container_components);
    }
    InteractionResponse::new_container(container)
}

} // verus!
