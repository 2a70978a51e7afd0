//! What is sent back to the platform for an interaction.

use crate::model::message::{Component, ComponentView};
use vstd::prelude::*;

verus! {

/// The kind of a response.
#[derive(Debug, Clone, Copy, PartialEq, Eq, Structural)]
pub enum InteractionResponseType {
    /// Answers a ping.
    Pong,
    /// Responds with a message now.
    ChannelMessageWithSource,
    /// Acknowledges now; the message follows later.
    DeferredChannelMessageWithSource,
    /// Acknowledges a component interaction; an edit follows later.
    DeferredUpdateMessage,
    /// Edits the message that the component is on.
    UpdateMessage,
    /// Answers an autocomplete interaction.
    ApplicationCommandAutocompleteResult,
    /// Opens a modal.
    Modal,
}

/// A set of message flags, as the bits of the platform's bit field.
#[derive(Debug, Clone, Copy, PartialEq, Eq, Structural)]
pub struct MessageFlags {
    pub bits: u64,
}

/// The bit of the flag that shows a message to the invoking user only.
pub const EPHEMERAL: u64 = 64;

/// The bit of the flag that lets a message consist of components alone.
pub const IS_COMPONENTS_V2: u64 = 32768;

impl MessageFlags {
    /// The flag that shows a message to the invoking user only.
    pub fn ephemeral() -> (r: MessageFlags)
        ensures
            r.bits == EPHEMERAL,
    {
        MessageFlags { bits: EPHEMERAL }
    }

    /// The flag that lets a message consist of components alone.
    pub fn components_v2() -> (r: MessageFlags)
        ensures
            r.bits == IS_COMPONENTS_V2,
    {
        MessageFlags { bits: IS_COMPONENTS_V2 }
    }

    /// The flags of either set.
    pub fn union(self, other: MessageFlags) -> (r: MessageFlags)
        ensures
            r.bits == self.bits | other.bits,
    {
        MessageFlags { bits: self.bits | other.bits }
    }

    /// Whether every flag of `other` is in this set.
    pub fn contains(self, other: MessageFlags) -> (r: bool)
        ensures
            r == (self.bits & other.bits == other.bits),
    {
        self.bits & other.bits == other.bits
    }

    /// Whether the message is shown to the invoking user only.
    pub open spec fn is_ephemeral(self) -> bool {
        self.bits & EPHEMERAL == EPHEMERAL
    }
}

/// The body of a response.
#[derive(Debug, PartialEq, Eq)]
pub struct InteractionResponseData {
    pub components: Option<Vec<Component>>,
    pub content: Option<String>,
    pub flags: Option<MessageFlags>,
}

/// The abstract value of an [`InteractionResponseData`].
pub struct InteractionResponseDataView {
    pub components: Option<Seq<ComponentView>>,
    pub content: Option<Seq<char>>,
    pub flags: Option<MessageFlags>,
}

impl DeepView for InteractionResponseData {
    type V = InteractionResponseDataView;

    open spec fn deep_view(&self) -> InteractionResponseDataView {
        InteractionResponseDataView {
            components: self.components.deep_view(),
            content: self.content.deep_view(),
            flags: self.flags,
        }
    }
}

/// A response to an interaction.
#[derive(Debug, PartialEq, Eq)]
pub struct InteractionResponse {
    pub kind: InteractionResponseType,
    pub data: Option<InteractionResponseData>,
}

/// The abstract value of an [`InteractionResponse`].
pub struct InteractionResponseView {
    pub kind: InteractionResponseType,
    pub data: Option<InteractionResponseDataView>,
}

impl DeepView for InteractionResponse {
    type V = InteractionResponseView;

    open spec fn deep_view(&self) -> InteractionResponseView {
        InteractionResponseView { kind: self.kind, data: self.data.deep_view() }
    }
}

/// The answer to a ping.
pub open spec fn pong() -> InteractionResponseView {
    InteractionResponseView { kind: InteractionResponseType::Pong, data: None }
}

/// A message of plain text with the given flags.
pub open spec fn text_message(content: Seq<char>, flags: Option<MessageFlags>) -> InteractionResponseView {
    InteractionResponseView {
        kind: InteractionResponseType::ChannelMessageWithSource,
        data: Some(InteractionResponseDataView { components: None, content: Some(content), flags }),
    }
}

/// A message of plain text that only the invoking user sees.
pub open spec fn ephemeral_message(content: Seq<char>) -> InteractionResponseView {
    text_message(content, Some(MessageFlags { bits: EPHEMERAL }))
}

/// The placeholder that acknowledges an interaction whose result is not ready:
/// a deferred response without content, shown to the invoking user only.
pub open spec fn deferred_ack() -> InteractionResponseView {
    InteractionResponseView {
        kind: InteractionResponseType::DeferredChannelMessageWithSource,
        data: Some(
            InteractionResponseDataView {
                components: None,
                content: None,
                flags: Some(MessageFlags { bits: EPHEMERAL }),
            },
        ),
    }
}

/// A message that consists of one container, shown to the invoking user only.
pub open spec fn container_message(container: ComponentView) -> InteractionResponseView {
    InteractionResponseView {
        kind: InteractionResponseType::ChannelMessageWithSource,
        data: Some(
            InteractionResponseDataView {
                components: Some(seq![container]),
                content: None,
                flags: Some(MessageFlags { bits: EPHEMERAL | IS_COMPONENTS_V2 }),
            },
        ),
    }
}

/// A container of the given accent colour around one block of text.
pub open spec fn text_container(accent_color: u32, text: Seq<char>) -> ComponentView {
    ComponentView::Container {
        accent_color: Some(Some(accent_color)),
        components: seq![ComponentView::TextDisplay { content: text }],
        spoiler: None,
    }
}

impl InteractionResponse {
    /// The answer to a ping.
    pub fn new_pong() -> (r: InteractionResponse)
        ensures
            r.deep_view() == pong(),
    {
        InteractionResponse { kind: InteractionResponseType::Pong, data: None }
    }

    /// A message of plain text with the given flags.
    pub fn new_text(content: String, flags: Option<MessageFlags>) -> (r: InteractionResponse)
        ensures
            r.deep_view() == text_message(content@, flags),
    {
        InteractionResponse {
            kind: InteractionResponseType::ChannelMessageWithSource,
            data: Some(InteractionResponseData { components: None, content: Some(content), flags }),
        }
    }

    /// A message of plain text that only the invoking user sees.
    pub fn new_ephemeral(content: String) -> (r: InteractionResponse)
        ensures
            r.deep_view() == ephemeral_message(content@),
    {
        InteractionResponse::new_text(content, Some(MessageFlags::ephemeral()))
    }

    /// The placeholder that acknowledges an interaction whose result is not ready.
    pub fn new_deferred_ack() -> (r: InteractionResponse)
        ensures
            r.deep_view() == deferred_ack(),
    {
        InteractionResponse {
            kind: InteractionResponseType::DeferredChannelMessageWithSource,
            data: Some(
                InteractionResponseData {
                    components: None,
                    content: None,
                    flags: Some(MessageFlags::ephemeral()),
                },
            ),
        }
    }

    /// A message that consists of one container, shown to the invoking user only.
    pub fn new_container(container: Component) -> (r: InteractionResponse)
        requires
            container is Container,
        ensures
            r.deep_view() == container_message(container.deep_view()),
    {
        let mut components: Vec<Component> = Vec::new();
        components.push(container);
        let flags = MessageFlags::ephemeral().union(MessageFlags::components_v2());
        let r = InteractionResponse {
            kind: InteractionResponseType::ChannelMessageWithSource,
            data: Some(
                InteractionResponseData { components: Some(components), content: None, flags: Some(flags) },
            ),
        };
        assert(r.deep_view().data->0.components->0 =~= seq![container.deep_view()]);
        r
    }
}

impl Component {
    /// A block of text.
    pub fn new_text_display(content: String) -> (r: Component)
        ensures
            r.deep_view() == (ComponentView::TextDisplay { content: content@ }),
    {
        Component::TextDisplay { content }
    }

    /// A container of the given accent colour around one block of text.
    pub fn new_text_container(accent_color: u32, text: String) -> (r: Component)
        ensures
            r is Container,
            r.deep_view() == text_container(accent_color, text@),
    {
        let mut components: Vec<Component> = Vec::new();
        components.push(Component::TextDisplay { content: text });
        let r = Component::Container { accent_color: Some(Some(accent_color)), components, spoiler: None };
        assert(r.deep_view()->Container_components =~= seq![ComponentView::TextDisplay { content: text@ }]) by {
            reveal_with_fuel(Component::abstraction, 2);
        }
        r
    }
}

} // verus!
