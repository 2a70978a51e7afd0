//! Messages and the component tree that a message or a response carries.

use vstd::prelude::*;

verus! {

/// The look of a button.
#[derive(Debug, Clone, Copy, PartialEq, Eq, Structural)]
pub enum ButtonStyle {
    Primary,
    Secondary,
    Success,
    Danger,
    Link,
    Premium,
}

/// The room that a separator takes.
#[derive(Debug, Clone, Copy, PartialEq, Eq, Structural)]
pub enum SeparatorSpacingSize {
    Small,
    Large,
}

/// One entry of a text select menu.
#[derive(Debug, Clone, PartialEq, Eq)]
pub struct SelectMenuOption {
    pub description: Option<String>,
    pub label: String,
    pub value: String,
}

/// The abstract value of a [`SelectMenuOption`].
pub struct SelectMenuOptionView {
    pub description: Option<Seq<char>>,
    pub label: Seq<char>,
    pub value: Seq<char>,
}

impl DeepView for SelectMenuOption {
    type V = SelectMenuOptionView;

    open spec fn deep_view(&self) -> SelectMenuOptionView {
        SelectMenuOptionView {
            description: self.description.deep_view(),
            label: self.label@,
            value: self.value@,
        }
    }
}

/// A node of the component tree.
#[allow(inconsistent_fields)]
#[derive(Debug, PartialEq, Eq)]
pub enum Component {
    /// A row of interactive components.
    ActionRow { components: Vec<Component> },
    /// A button; `emoji` is the name of a Unicode emoji.
    Button {
        custom_id: Option<String>,
        emoji: Option<String>,
        label: Option<String>,
        style: ButtonStyle,
        url: Option<String>,
    },
    /// A select menu with a list of text options.
    SelectMenu { custom_id: String, options: Vec<SelectMenuOption>, placeholder: Option<String> },
    /// A block of text.
    TextDisplay { content: String },
    /// Text beside an accessory.
    Section { components: Vec<Component>, accessory: Box<Component> },
    /// Spacing between components.
    Separator { divider: Option<bool>, spacing: Option<SeparatorSpacingSize> },
    /// A framed group of components. `accent_color` is unset, cleared or a colour.
    Container { accent_color: Option<Option<u32>>, components: Vec<Component>, spoiler: Option<bool> },
    /// A component of another kind, by its wire number.
    Unknown { kind: u8 },
}

/// The abstract value of a [`Component`].
#[allow(inconsistent_fields)]
pub enum ComponentView {
    ActionRow { components: Seq<ComponentView> },
    Button {
        custom_id: Option<Seq<char>>,
        emoji: Option<Seq<char>>,
        label: Option<Seq<char>>,
        style: ButtonStyle,
        url: Option<Seq<char>>,
    },
    SelectMenu {
        custom_id: Seq<char>,
        options: Seq<SelectMenuOptionView>,
        placeholder: Option<Seq<char>>,
    },
    TextDisplay { content: Seq<char> },
    Section { components: Seq<ComponentView>, accessory: Box<ComponentView> },
    Separator { divider: Option<bool>, spacing: Option<SeparatorSpacingSize> },
    Container {
        accent_color: Option<Option<u32>>,
        components: Seq<ComponentView>,
        spoiler: Option<bool>,
    },
    Unknown { kind: u8 },
}

impl Component {
    /// The abstract value of the component, with those of the components in it.
    pub open spec fn abstraction(self) -> ComponentView
        decreases self,
    {
        match self {
            Component::ActionRow { components } => ComponentView::ActionRow {
                components: Seq::new(
                    components@.len(),
                    |i: int|
                        if 0 <= i < components@.len() {
                            components@[i].abstraction()
                        } else {
                            arbitrary()
                        },
                ),
            },
            Component::Button { custom_id, emoji, label, style, url } => ComponentView::Button {
                custom_id: custom_id.deep_view(),
                emoji: emoji.deep_view(),
                label: label.deep_view(),
                style,
                url: url.deep_view(),
            },
            Component::SelectMenu { custom_id, options, placeholder } => ComponentView::SelectMenu {
                custom_id: custom_id@,
                options: options.deep_view(),
                placeholder: placeholder.deep_view(),
            },
            Component::TextDisplay { content } => ComponentView::TextDisplay { content: content@ },
            Component::Section { components, accessory } => ComponentView::Section {
                components: Seq::new(
                    components@.len(),
                    |i: int|
                        if 0 <= i < components@.len() {
                            components@[i].abstraction()
                        } else {
                            arbitrary()
                        },
                ),
                accessory: Box::new(accessory.abstraction()),
            },
            Component::Separator { divider, spacing } => ComponentView::Separator { divider, spacing },
            Component::Container { accent_color, components, spoiler } => ComponentView::Container {
                accent_color,
                components: Seq::new(
                    components@.len(),
                    |i: int|
                        if 0 <= i < components@.len() {
                            components@[i].abstraction()
                        } else {
                            arbitrary()
                        },
                ),
                spoiler,
            },
            Component::Unknown { kind } => ComponentView::Unknown { kind },
        }
    }
}

impl DeepView for Component {
    type V = ComponentView;

    open spec fn deep_view(&self) -> ComponentView {
        self.abstraction()
    }
}

/// A name and a value shown in an embed.
#[derive(Debug, Clone, PartialEq, Eq)]
pub struct EmbedField {
    pub name: String,
    pub value: String,
}

/// Rich content attached to a message.
#[derive(Debug, Clone, PartialEq, Eq)]
pub struct Embed {
    pub description: Option<String>,
    pub fields: Vec<EmbedField>,
    pub title: Option<String>,
}

/// A message of a channel.
#[derive(Debug, PartialEq, Eq)]
pub struct Message {
    pub channel_id: u64,
    pub components: Vec<Component>,
    pub content: String,
    pub embeds: Vec<Embed>,
    pub id: u64,
}

} // verus!
