//! What arrives from the chat platform, reduced to the values that the
//! pages and the routing code read.

use vstd::prelude::*;

verus! {

/// A chat message that a page is opened for.
#[derive(Clone, Debug, PartialEq, Eq)]
pub struct Message {
    pub id: u64,
    pub channel_id: u64,
    /// Name of the user who wrote the message.
    pub author: String,
    pub content: String,
    /// Address of each attachment, in the order of the message.
    pub attachments: Vec<String>,
}

/// The mathematical value of a [`Message`].
pub struct MessageView {
    pub id: u64,
    pub channel_id: u64,
    pub author: Seq<char>,
    pub content: Seq<char>,
    pub attachments: Seq<Seq<char>>,
}

impl DeepView for Message {
    type V = MessageView;

    open spec fn deep_view(&self) -> MessageView {
        MessageView {
            id: self.id,
            channel_id: self.channel_id,
            author: self.author@,
            content: self.content@,
            attachments: self.attachments.deep_view(),
        }
    }
}

/// A click on a button, or a choice in a select menu, below a message.
#[derive(Clone, Debug, PartialEq, Eq)]
pub struct InteractionComponent {
    /// The message that carries the control.
    pub message_id: u64,
    /// Identifier of the control.
    pub custom_id: String,
    /// The chosen values of a select menu; empty for a button.
    pub values: Vec<String>,
}

/// The mathematical value of an [`InteractionComponent`].
pub struct InteractionComponentView {
    pub message_id: u64,
    pub custom_id: Seq<char>,
    pub values: Seq<Seq<char>>,
}

impl DeepView for InteractionComponent {
    type V = InteractionComponentView;

    open spec fn deep_view(&self) -> InteractionComponentView {
        InteractionComponentView {
            message_id: self.message_id,
            custom_id: self.custom_id@,
            values: self.values.deep_view(),
        }
    }
}

/// One submitted text input of a form.
#[derive(Clone, Debug, PartialEq, Eq)]
pub struct ModalInput {
    pub custom_id: String,
    pub value: Option<String>,
}

/// The mathematical value of a [`ModalInput`].
pub struct ModalInputView {
    pub custom_id: Seq<char>,
    pub value: Option<Seq<char>>,
}

impl DeepView for ModalInput {
    type V = ModalInputView;

    open spec fn deep_view(&self) -> ModalInputView {
        ModalInputView { custom_id: self.custom_id@, value: self.value.deep_view() }
    }
}

/// One row of a submitted form.
#[derive(Clone, Debug, PartialEq, Eq)]
pub struct ModalRow {
    pub components: Vec<ModalInput>,
}

/// The mathematical value of a [`ModalRow`].
pub struct ModalRowView {
    pub components: Seq<ModalInputView>,
}

impl DeepView for ModalRow {
    type V = ModalRowView;

    open spec fn deep_view(&self) -> ModalRowView {
        ModalRowView { components: self.components.deep_view() }
    }
}

/// A submitted form.
#[derive(Clone, Debug, PartialEq, Eq)]
pub struct InteractionModal {
    /// The message whose control opened the form, where the platform names it.
    pub message_id: Option<u64>,
    /// Identifier of the form.
    pub custom_id: String,
    pub components: Vec<ModalRow>,
}

/// The mathematical value of an [`InteractionModal`].
pub struct InteractionModalView {
    pub message_id: Option<u64>,
    pub custom_id: Seq<char>,
    pub components: Seq<ModalRowView>,
}

impl DeepView for InteractionModal {
    type V = InteractionModalView;

    open spec fn deep_view(&self) -> InteractionModalView {
        InteractionModalView {
            message_id: self.message_id,
            custom_id: self.custom_id@,
            components: self.components.deep_view(),
        }
    }
}

impl InteractionModalView {
    /// Whether the form has a first row with a first input.
    pub open spec fn has_first_input(self) -> bool {
        self.components.len() > 0 && self.components[0].components.len() > 0
    }

    /// What was entered into the first input of the first row.
    pub open spec fn first_value(self) -> Option<Seq<char>>
        recommends
            self.has_first_input(),
    {
        self.components[0].components[0].value
    }

    /// The form with the value of its first input taken out.
    pub open spec fn without_first_value(self) -> InteractionModalView
        recommends
            self.has_first_input(),
    {
        let row = self.components[0];
        let input = ModalInputView { value: None, ..row.components[0] };
        InteractionModalView {
            components: self.components.update(
                0,
                ModalRowView { components: row.components.update(0, input) },
            ),
            ..self
        }
    }
}

impl InteractionModal {
    /// Takes what was entered into the first input of the first row out of
    /// the form. `None` where the form has no such input; the form is then
    /// left as it was.
    pub fn take_first_value(&mut self) -> (taken: Option<Option<String>>)
        ensures
            old(self).deep_view().has_first_input() ==> taken.deep_view() == Some(
                old(self).deep_view().first_value(),
            ) && final(self).deep_view() == old(self).deep_view().without_first_value(),
            !old(self).deep_view().has_first_input() ==> taken is None && final(self).deep_view()
                == old(self).deep_view(),
    {
        let ghost before = self.deep_view();
        if self.components.len() == 0 {
            return None;
        }
        let mut row = self.components.remove(0);
        let ghost row_before = row.deep_view();
        if row.components.len() == 0 {
            self.components.insert(0, row);
            assert(self.components.deep_view() =~= before.components);
            return None;
        }
        let mut input = row.components.remove(0);
        let ghost input_before = input.deep_view();
        let value = input.value.take();
        row.components.insert(0, input);
        assert(row.components.deep_view() =~= row_before.components.update(
            0,
            ModalInputView { value: None, ..input_before },
        ));
        self.components.insert(0, row);
        assert(self.components.deep_view() =~= before.components.update(0, row.deep_view()));
        Some(value)
    }
}

} // verus!
