//! What a page sends out: embeds, interactive controls and forms, held as
//! plain data, each with the mathematical value that contracts speak of.

use vstd::prelude::*;
use vstd::string::*;

verus! {

/// How a button is drawn.
#[derive(Clone, Copy, Debug, PartialEq, Eq, Structural)]
pub enum ButtonStyle {
    Primary,
    Secondary,
    Success,
    Danger,
    Link,
}

impl DeepView for ButtonStyle {
    type V = ButtonStyle;

    open spec fn deep_view(&self) -> ButtonStyle {
        *self
    }
}

/// A clickable control.
#[derive(Clone, Debug, PartialEq, Eq)]
pub struct Button {
    pub custom_id: Option<String>,
    pub disabled: bool,
    pub label: Option<String>,
    pub style: ButtonStyle,
    pub url: Option<String>,
}

/// The mathematical value of a [`Button`].
pub struct ButtonView {
    pub custom_id: Option<Seq<char>>,
    pub disabled: bool,
    pub label: Option<Seq<char>>,
    pub style: ButtonStyle,
    pub url: Option<Seq<char>>,
}

impl DeepView for Button {
    type V = ButtonView;

    open spec fn deep_view(&self) -> ButtonView {
        ButtonView {
            custom_id: self.custom_id.deep_view(),
            disabled: self.disabled,
            label: self.label.deep_view(),
            style: self.style,
            url: self.url.deep_view(),
        }
    }
}

/// One choice of a select menu.
#[derive(Clone, Debug, PartialEq, Eq)]
pub struct SelectMenuOption {
    pub default: bool,
    pub description: Option<String>,
    pub label: String,
    pub value: String,
}

/// The mathematical value of a [`SelectMenuOption`].
pub struct SelectMenuOptionView {
    pub default: bool,
    pub description: Option<Seq<char>>,
    pub label: Seq<char>,
    pub value: Seq<char>,
}

impl DeepView for SelectMenuOption {
    type V = SelectMenuOptionView;

    open spec fn deep_view(&self) -> SelectMenuOptionView {
        SelectMenuOptionView {
            default: self.default,
            description: self.description.deep_view(),
            label: self.label@,
            value: self.value@,
        }
    }
}

/// A control that lets the user pick among options.
#[derive(Clone, Debug, PartialEq, Eq)]
pub struct SelectMenu {
    pub custom_id: String,
    pub disabled: bool,
    pub max_values: Option<u8>,
    pub min_values: Option<u8>,
    pub options: Vec<SelectMenuOption>,
    pub placeholder: Option<String>,
}

/// The mathematical value of a [`SelectMenu`].
pub struct SelectMenuView {
    pub custom_id: Seq<char>,
    pub disabled: bool,
    pub max_values: Option<u8>,
    pub min_values: Option<u8>,
    pub options: Seq<SelectMenuOptionView>,
    pub placeholder: Option<Seq<char>>,
}

impl DeepView for SelectMenu {
    type V = SelectMenuView;

    open spec fn deep_view(&self) -> SelectMenuView {
        SelectMenuView {
            custom_id: self.custom_id@,
            disabled: self.disabled,
            max_values: self.max_values,
            min_values: self.min_values,
            options: self.options.deep_view(),
            placeholder: self.placeholder.deep_view(),
        }
    }
}

/// An interactive control.
#[derive(Clone, Debug, PartialEq, Eq)]
pub enum Component {
    Button(Button),
    SelectMenu(SelectMenu),
}

/// The mathematical value of a [`Component`].
pub enum ComponentView {
    Button(ButtonView),
    SelectMenu(SelectMenuView),
}

impl DeepView for Component {
    type V = ComponentView;

    open spec fn deep_view(&self) -> ComponentView {
        match self {
            Component::Button(button) => ComponentView::Button(button.deep_view()),
            Component::SelectMenu(menu) => ComponentView::SelectMenu(menu.deep_view()),
        }
    }
}

/// One row of controls below a message.
#[derive(Clone, Debug, PartialEq, Eq)]
pub struct ActionRow {
    pub components: Vec<Component>,
}

/// The mathematical value of an [`ActionRow`].
pub struct ActionRowView {
    pub components: Seq<ComponentView>,
}

impl DeepView for ActionRow {
    type V = ActionRowView;

    open spec fn deep_view(&self) -> ActionRowView {
        ActionRowView { components: self.components.deep_view() }
    }
}

/// A titled value shown in an embed.
#[derive(Clone, Debug, PartialEq, Eq)]
pub struct EmbedField {
    pub inline: bool,
    pub name: String,
    pub value: String,
}

/// The mathematical value of an [`EmbedField`].
pub struct EmbedFieldView {
    pub inline: bool,
    pub name: Seq<char>,
    pub value: Seq<char>,
}

impl DeepView for EmbedField {
    type V = EmbedFieldView;

    open spec fn deep_view(&self) -> EmbedFieldView {
        EmbedFieldView { inline: self.inline, name: self.name@, value: self.value@ }
    }
}

/// The rendered body of a page.
#[derive(Clone, Debug, PartialEq, Eq)]
pub struct EmbedBuilder {
    pub title: Option<String>,
    pub fields: Vec<EmbedField>,
}

/// The mathematical value of an [`EmbedBuilder`].
pub struct EmbedBuilderView {
    pub title: Option<Seq<char>>,
    pub fields: Seq<EmbedFieldView>,
}

impl DeepView for EmbedBuilder {
    type V = EmbedBuilderView;

    open spec fn deep_view(&self) -> EmbedBuilderView {
        EmbedBuilderView { title: self.title.deep_view(), fields: self.fields.deep_view() }
    }
}

impl EmbedBuilder {
    /// An embed without title and fields.
    pub fn new() -> (embed: Self)
        ensures
            embed.deep_view() == (EmbedBuilderView { title: None, fields: Seq::empty() }),
    {
        let embed = EmbedBuilder { title: None, fields: Vec::new() };
        assert(embed.fields.deep_view() =~= Seq::empty());
        embed
    }

    /// Sets the title.
    pub fn title(self, title: &str) -> (embed: Self)
        ensures
            embed.deep_view() == (EmbedBuilderView { title: Some(title@), ..self.deep_view() }),
    {
        EmbedBuilder { title: Some(String::from_str(title)), fields: self.fields }
    }

    /// Replaces the fields.
    pub fn fields(self, fields: Vec<EmbedField>) -> (embed: Self)
        ensures
            embed.deep_view() == (EmbedBuilderView {
                fields: fields.deep_view(),
                ..self.deep_view()
            }),
    {
        EmbedBuilder { title: self.title, fields }
    }
}

/// A message to send: text, an embed, and controls. An absent part leaves
/// what the message already shows untouched; present but empty controls
/// strip them.
#[derive(Clone, Debug, PartialEq, Eq)]
pub struct MessageBuilder {
    pub content: Option<String>,
    pub embed: Option<EmbedBuilder>,
    pub components: Option<Vec<ActionRow>>,
}

/// The mathematical value of a [`MessageBuilder`].
pub struct MessageBuilderView {
    pub content: Option<Seq<char>>,
    pub embed: Option<EmbedBuilderView>,
    pub components: Option<Seq<ActionRowView>>,
}

impl DeepView for MessageBuilder {
    type V = MessageBuilderView;

    open spec fn deep_view(&self) -> MessageBuilderView {
        MessageBuilderView {
            content: self.content.deep_view(),
            embed: self.embed.deep_view(),
            components: self.components.deep_view(),
        }
    }
}

impl MessageBuilder {
    /// A message with no part set.
    pub fn new() -> (message: Self)
        ensures
            message.deep_view() == (MessageBuilderView {
                content: None,
                embed: None,
                components: None,
            }),
    {
        MessageBuilder { content: None, embed: None, components: None }
    }

    /// Sets the text.
    pub fn content(self, content: &str) -> (message: Self)
        ensures
            message.deep_view() == (MessageBuilderView {
                content: Some(content@),
                ..self.deep_view()
            }),
    {
        MessageBuilder {
            content: Some(String::from_str(content)),
            embed: self.embed,
            components: self.components,
        }
    }

    /// Sets the embed.
    pub fn embed(self, embed: EmbedBuilder) -> (message: Self)
        ensures
            message.deep_view() == (MessageBuilderView {
                embed: Some(embed.deep_view()),
                ..self.deep_view()
            }),
    {
        MessageBuilder { content: self.content, embed: Some(embed), components: self.components }
    }

    /// Sets the controls.
    pub fn components(self, components: Vec<ActionRow>) -> (message: Self)
        ensures
            message.deep_view() == (MessageBuilderView {
                components: Some(components.deep_view()),
                ..self.deep_view()
            }),
    {
        MessageBuilder { content: self.content, embed: self.embed, components: Some(components) }
    }
}

/// One text input of a form.
#[derive(Clone, Debug, PartialEq, Eq)]
pub struct TextInputBuilder {
    pub custom_id: String,
    pub label: String,
    pub required: Option<bool>,
    pub max_len: Option<u16>,
}

/// The mathematical value of a [`TextInputBuilder`].
pub struct TextInputBuilderView {
    pub custom_id: Seq<char>,
    pub label: Seq<char>,
    pub required: Option<bool>,
    pub max_len: Option<u16>,
}

impl DeepView for TextInputBuilder {
    type V = TextInputBuilderView;

    open spec fn deep_view(&self) -> TextInputBuilderView {
        TextInputBuilderView {
            custom_id: self.custom_id@,
            label: self.label@,
            required: self.required,
            max_len: self.max_len,
        }
    }
}

impl TextInputBuilder {
    /// A text input with the given identifier and label and no constraint.
    pub fn new(custom_id: &str, label: &str) -> (input: Self)
        ensures
            input.deep_view() == (TextInputBuilderView {
                custom_id: custom_id@,
                label: label@,
                required: None,
                max_len: None,
            }),
    {
        TextInputBuilder {
            custom_id: String::from_str(custom_id),
            label: String::from_str(label),
            required: None,
            max_len: None,
        }
    }

    /// Says whether the input must be filled in.
    pub fn required(self, required: bool) -> (input: Self)
        ensures
            input.deep_view() == (TextInputBuilderView {
                required: Some(required),
                ..self.deep_view()
            }),
    {
        TextInputBuilder {
            custom_id: self.custom_id,
            label: self.label,
            required: Some(required),
            max_len: self.max_len,
        }
    }

    /// Limits the length of what may be entered.
    pub fn max_len(self, max_len: u16) -> (input: Self)
        ensures
            input.deep_view() == (TextInputBuilderView {
                max_len: Some(max_len),
                ..self.deep_view()
            }),
    {
        TextInputBuilder {
            custom_id: self.custom_id,
            label: self.label,
            required: self.required,
            max_len: Some(max_len),
        }
    }
}

/// A form to present to the user.
#[derive(Clone, Debug, PartialEq, Eq)]
pub struct ModalBuilder {
    pub custom_id: String,
    pub title: String,
    pub inputs: Vec<TextInputBuilder>,
}

/// The mathematical value of a [`ModalBuilder`].
pub struct ModalBuilderView {
    pub custom_id: Seq<char>,
    pub title: Seq<char>,
    pub inputs: Seq<TextInputBuilderView>,
}

impl DeepView for ModalBuilder {
    type V = ModalBuilderView;

    open spec fn deep_view(&self) -> ModalBuilderView {
        ModalBuilderView {
            custom_id: self.custom_id@,
            title: self.title@,
            inputs: self.inputs.deep_view(),
        }
    }
}

impl ModalBuilder {
    /// A form with the given identifier and title and no input yet.
    pub fn new(custom_id: &str, title: &str) -> (modal: Self)
        ensures
            modal.deep_view() == (ModalBuilderView {
                custom_id: custom_id@,
                title: title@,
                inputs: Seq::empty(),
            }),
    {
        let modal = ModalBuilder {
            custom_id: String::from_str(custom_id),
            title: String::from_str(title),
            inputs: Vec::new(),
        };
        assert(modal.inputs.deep_view() =~= Seq::empty());
        modal
    }

    /// Adds an input below those already there.
    pub fn input(self, input: TextInputBuilder) -> (modal: Self)
        ensures
            modal.deep_view() == (ModalBuilderView {
                inputs: self.deep_view().inputs.push(input.deep_view()),
                ..self.deep_view()
            }),
    {
        let mut inputs = self.inputs;
        let ghost before = inputs.deep_view();
        inputs.push(input);
        assert(inputs.deep_view() =~= before.push(input.deep_view()));
        ModalBuilder { custom_id: self.custom_id, title: self.title, inputs }
    }
}

} // verus!
