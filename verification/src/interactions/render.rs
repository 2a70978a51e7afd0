//! The responses that the dispatcher itself renders: the placeholder of a
//! deferred response and the uniform notices for failures.

use crate::model::interaction::InteractionType;
use crate::model::message::Component;
use crate::model::response::{container_message, ephemeral_message, text_container};
use crate::model::response::{InteractionResponse, InteractionResponseView};
use crate::text::concat_str;
use vstd::prelude::*;
use vstd::string::*;

verus! {

/// The accent colour of the notice for a failed slash command.
pub const SLASH_ERROR_COLOR: u32 = 0xAA0000;

/// The accent colour of the notice for a failed context command.
pub const CONTEXT_ERROR_COLOR: u32 = 0xFF0000;

/// The text of the notice for the handler error `error`.
pub open spec fn error_text(error: Seq<char>) -> Seq<char> {
    "An error occurred: "@ + error
}

/// The notice for a handler that failed with `error`: a container of the
/// accent colour around the error text, shown to the invoking user only.
pub open spec fn error_notice(accent_color: u32, error: Seq<char>) -> InteractionResponseView {
    container_message(text_container(accent_color, error_text(error)))
}

/// What is sent for the outcome of a handler: its response as it is, or the
/// notice for its error.
pub open spec fn rendered(
    accent_color: u32,
    outcome: Result<InteractionResponse, String>,
) -> InteractionResponseView {
    match outcome {
        Ok(response) => response.deep_view(),
        Err(error) => error_notice(accent_color, error@),
    }
}

/// The notice for options that could not be bound to the command's arguments.
pub open spec fn parse_failure() -> InteractionResponseView {
    ephemeral_message("Failed to parse command data."@)
}

/// The notice for a command that no handler is registered for.
pub open spec fn no_handler(name: Seq<char>) -> InteractionResponseView {
    ephemeral_message("No handler found for command: `"@ + name + "`"@)
}

/// The notice for an interaction of a kind that no handler is registered for.
pub open spec fn no_kind_handler(kind: InteractionType) -> InteractionResponseView {
    ephemeral_message("No handler found for interaction kind: `"@ + kind.spec_name() + "`"@)
}

/// The notice for an interaction whose payload is not of its kind;
/// `description` says what the payload was.
pub open spec fn unhandled(description: Seq<char>) -> InteractionResponseView {
    ephemeral_message("Unhandled interaction type: `"@ + description + "`"@)
}

/// The notice for a component that no handler is registered for.
pub open spec fn no_component_handler(command: Seq<char>) -> InteractionResponseView {
    ephemeral_message("No handler for message component command: `"@ + command + "`"@)
}

/// The notice for a context command whose handler came to no response.
pub open spec fn context_failure() -> InteractionResponseView {
    ephemeral_message("An error occurred while processing your command."@)
}

/// The notice for a handler that broke off with `error`; `mark` is put in
/// front as a severity marker.
pub open spec fn broken_handler(mark: Seq<char>, error: Seq<char>) -> InteractionResponseView {
    ephemeral_message(mark + " An error occurred while processing your command: "@ + error)
}

/// Renders the notice for a handler that failed with `error`.
pub fn render_error(accent_color: u32, error: &str) -> (r: InteractionResponse)
    ensures
        r.deep_view() == error_notice(accent_color, error@),
{
    let text = concat_str("An error occurred: ", error);
    InteractionResponse::new_container(Component::new_text_container(accent_color, text))
}

/// Renders the outcome of a handler: its response as it is, or the notice for
/// its error. Every reply that comes from a handler passes through here, the
/// one given at once and the one that follows a deferred acknowledgement.
pub fn render_outcome(accent_color: u32, outcome: Result<InteractionResponse, String>) -> (r:
    InteractionResponse)
    ensures
        r.deep_view() == rendered(accent_color, outcome),
        outcome matches Ok(response) ==> r == response,
{
    match outcome {
        Ok(response) => response,
        Err(error) => render_error(accent_color, error.as_str()),
    }
}

/// Renders the notice for options that could not be bound.
pub fn render_parse_failure() -> (r: InteractionResponse)
    ensures
        r.deep_view() == parse_failure(),
{
    InteractionResponse::new_ephemeral("Failed to parse command data.".to_owned())
}

/// `prefix`, then `middle`, then `suffix`.
fn wrap(prefix: &str, middle: &str, suffix: &str) -> (r: String)
    ensures
        r@ == prefix@ + middle@ + suffix@,
{
    let mut text = concat_str(prefix, middle);
    text.append(suffix);
    text
}

/// Renders the notice for a command that no handler is registered for.
pub fn render_no_handler(name: &str) -> (r: InteractionResponse)
    ensures
        r.deep_view() == no_handler(name@),
{
    InteractionResponse::new_ephemeral(wrap("No handler found for command: `", name, "`"))
}

/// Renders the notice for an interaction of a kind that no handler is
/// registered for.
pub fn render_no_kind_handler(kind: InteractionType) -> (r: InteractionResponse)
    ensures
        r.deep_view() == no_kind_handler(kind),
{
    InteractionResponse::new_ephemeral(wrap("No handler found for interaction kind: `", kind.name(), "`"))
}

/// Renders the notice for an interaction whose payload is not of its kind.
pub fn render_unhandled(description: &str) -> (r: InteractionResponse)
    ensures
        r.deep_view() == unhandled(description@),
{
    InteractionResponse::new_ephemeral(wrap("Unhandled interaction type: `", description, "`"))
}

/// Renders the notice for a component that no handler is registered for.
pub fn render_no_component_handler(command: &str) -> (r: InteractionResponse)
    ensures
        r.deep_view() == no_component_handler(command@),
{
    InteractionResponse::new_ephemeral(
        wrap("No handler for message component command: `", command, "`"),
    )
}

/// Renders the notice for a context command whose handler came to no response.
pub fn render_context_failure() -> (r: InteractionResponse)
    ensures
        r.deep_view() == context_failure(),
{
    InteractionResponse::new_ephemeral("An error occurred while processing your command.".to_owned())
}

/// Renders the notice for a handler that broke off.
pub fn render_broken_handler(mark: &str, error: &str) -> (r: InteractionResponse)
    ensures
        r.deep_view() == broken_handler(mark@, error@),
{
    InteractionResponse::new_ephemeral(
        wrap(mark, " An error occurred while processing your command: ", error),
    )
}

} // verus!
