//! Message-component interactions: what the identifier of a component asks for.

use crate::interactions::render::{no_component_handler, render_no_component_handler};
use crate::model::interaction::MessageComponentInteractionData;
use crate::model::response::{ephemeral_message, InteractionResponse, InteractionResponseView};
use crate::text::{concat_str, lemma_join_split, split, split_char, str_eq, views};
use crate::todoist::{MoveTask, MoveTaskView};
use vstd::prelude::*;

verus! {

/// What a component interaction leads to: a reply at once, or a task to move
/// first.
pub enum ComponentPlan {
    Reply(InteractionResponse),
    Move(MoveTask),
}

/// The abstract value of a [`ComponentPlan`].
pub enum ComponentPlanView {
    Reply(InteractionResponseView),
    Move(MoveTaskView),
}

impl DeepView for ComponentPlan {
    type V = ComponentPlanView;

    open spec fn deep_view(&self) -> ComponentPlanView {
        match self {
            ComponentPlan::Reply(response) => ComponentPlanView::Reply(response.deep_view()),
            ComponentPlan::Move(task) => ComponentPlanView::Move(task.deep_view()),
        }
    }
}

/// The project and the section that a selected value names: `project-section`,
/// or `project` alone. A value with more than one `-` names nothing.
pub open spec fn selection_target(selection: Seq<char>) -> (Option<Seq<char>>, Option<Seq<char>>) {
    let parts = split(selection, '-');
    if parts.len() == 2 {
        (Some(parts[0]), Some(parts[1]))
    } else if parts.len() == 1 {
        (Some(parts[0]), None)
    } else {
        (None, None)
    }
}

/// The notice for a selection that names no project.
pub open spec fn no_project(error_mark: Seq<char>) -> InteractionResponseView {
    ephemeral_message(error_mark + " No project ID found in selection."@)
}

/// The notice for a section selection that names no task.
pub open spec fn no_task() -> InteractionResponseView {
    ephemeral_message("No task ID provided."@)
}

/// The notice for a task that was moved.
pub open spec fn moved(success_mark: Seq<char>) -> InteractionResponseView {
    ephemeral_message(success_mark + " Moved task to the selected project and section."@)
}

/// The notice for a task that could not be moved.
pub open spec fn not_moved(error_mark: Seq<char>, error: Seq<char>) -> InteractionResponseView {
    ephemeral_message(error_mark + " Failed to move task: "@ + error)
}

/// What the component with the identifier `custom_id` and the selected
/// `values` leads to. The identifier is `command:argument`; the only command is
/// `section_select`, whose argument is the task to move to the first selected
/// value.
pub open spec fn component_plan(
    custom_id: Seq<char>,
    values: Seq<Seq<char>>,
    error_mark: Seq<char>,
) -> ComponentPlanView {
    let parts = split(custom_id, ':');
    let command = parts[0];
    if command == "section_select"@ {
        if parts.len() > 1 {
            let selection = if values.len() > 0 {
                values[0]
            } else {
                Seq::empty()
            };
            let (project, section) = selection_target(selection);
            match project {
                None => ComponentPlanView::Reply(no_project(error_mark)),
                Some(p) => ComponentPlanView::Move(
                    MoveTaskView {
                        task_id: parts[1],
                        project_id: Some(p),
                        section_id: section,
                        parent_id: None,
                    },
                ),
            }
        } else {
            ComponentPlanView::Reply(no_task())
        }
    } else {
        ComponentPlanView::Reply(no_component_handler(command))
    }
}

/// Decides what a component interaction leads to.
pub fn plan_component(data: &MessageComponentInteractionData, error_mark: &str) -> (r: ComponentPlan)
    ensures
        r.deep_view() == component_plan(data.custom_id@, views(data.values@), error_mark@),
{
    let parts = split_char(data.custom_id.as_str(), ':');
    proof {
        lemma_join_split(data.custom_id@, ':');
    }
    assert(views(parts@)[0] == parts@[0]@);
    if !str_eq(parts[0].as_str(), "section_select") {
        return ComponentPlan::Reply(render_no_component_handler(parts[0].as_str()));
    }
    if parts.len() < 2 {
        return ComponentPlan::Reply(InteractionResponse::new_ephemeral("No task ID provided.".to_owned()));
    }
    assert(views(parts@)[1] == parts@[1]@);
    let selected = if data.values.len() > 0 {
        assert(views(data.values@)[0] == data.values@[0]@);
        split_char(data.values[0].as_str(), '-')
    } else {
        split_char("", '-')
    };
    proof {
        reveal_strlit("");
        assert(""@ =~= Seq::<char>::empty());
    }
    if selected.len() == 2 {
        assert(views(selected@)[0] == selected@[0]@);
        assert(views(selected@)[1] == selected@[1]@);
        ComponentPlan::Move(
            MoveTask {
                task_id: parts[1].clone(),
                project_id: Some(selected[0].clone()),
                section_id: Some(selected[1].clone()),
                parent_id: None,
            },
        )
    } else if selected.len() == 1 {
        assert(views(selected@)[0] == selected@[0]@);
        ComponentPlan::Move(
            MoveTask {
                task_id: parts[1].clone(),
                project_id: Some(selected[0].clone()),
                section_id: None,
                parent_id: None,
            },
        )
    } else {
        ComponentPlan::Reply(
            InteractionResponse::new_ephemeral(concat_str(error_mark, " No project ID found in selection.")),
        )
    }
}

/// Renders the outcome of moving a task.
pub fn render_moved(outcome: Result<(), String>, success_mark: &str, error_mark: &str) -> (r:
    InteractionResponse)
    ensures
        r.deep_view() == match outcome {
            Ok(_) => moved(success_mark@),
            Err(error) => not_moved(error_mark@, error@),
        },
{
    match outcome {
        Ok(_) => InteractionResponse::new_ephemeral(
            concat_str(success_mark, " Moved task to the selected project and section."),
        ),
        Err(error) => {
            let mut text = concat_str(error_mark, " Failed to move task: ");
            text.append(error.as_str());
            InteractionResponse::new_ephemeral(text)
        },
    }
}

/// The markup that shows a custom emoji: its name and its id between `<:`,
/// `:` and `>`.
pub fn emoji_markup(name: &str, id: &str) -> (r: String)
    ensures
        r@ == "<:"@ + name@ + ":"@ + id@ + ">"@,
{
    let mut text = concat_str("<:", name);
    text.append(":");
    text.append(id);
    text.append(">");
    text
}

} // verus!
