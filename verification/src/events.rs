//! What to do with an interaction that the platform delivers: who may use
//! the bot, and which part of it an interaction goes to.

use vstd::prelude::*;

use crate::commands::slash::{
    command_named, Handler, InteractionCommand, InteractionCommandView, InteractionCommands,
};
use crate::util::config::DiscordConfig;
use crate::util::interaction::{
    InteractionComponent, InteractionComponentView, InteractionModal, InteractionModalView,
    ModalRow, ModalRowView,
};

verus! {

/// What kind of interaction the platform says it delivers.
#[derive(Clone, Copy, Debug, PartialEq, Eq, Structural)]
pub enum InteractionType {
    Ping,
    ApplicationCommand,
    MessageComponent,
    ApplicationCommandAutocomplete,
    ModalSubmit,
}

/// What an interaction carries.
#[derive(Clone, Debug, PartialEq, Eq)]
pub enum InteractionData {
    /// A command, by name.
    ApplicationCommand { name: String },
    /// A click on a control.
    MessageComponent { custom_id: String, values: Vec<String> },
    /// A submitted form.
    ModalSubmit { custom_id: String, components: Vec<ModalRow> },
}

/// The mathematical value of an [`InteractionData`].
pub enum InteractionDataView {
    ApplicationCommand { name: Seq<char> },
    MessageComponent { custom_id: Seq<char>, values: Seq<Seq<char>> },
    ModalSubmit { custom_id: Seq<char>, components: Seq<ModalRowView> },
}

impl DeepView for InteractionData {
    type V = InteractionDataView;

    open spec fn deep_view(&self) -> InteractionDataView {
        match self {
            InteractionData::ApplicationCommand { name } => InteractionDataView::ApplicationCommand {
                name: name@,
            },
            InteractionData::MessageComponent { custom_id, values } => {
                InteractionDataView::MessageComponent {
                    custom_id: custom_id@,
                    values: values.deep_view(),
                }
            },
            InteractionData::ModalSubmit { custom_id, components } => {
                InteractionDataView::ModalSubmit {
                    custom_id: custom_id@,
                    components: components.deep_view(),
                }
            },
        }
    }
}

/// An interaction as the platform delivers it, reduced to what the
/// routing reads.
#[derive(Clone, Debug, PartialEq, Eq)]
pub struct Interaction {
    pub channel_id: Option<u64>,
    pub data: Option<InteractionData>,
    pub kind: InteractionType,
    /// The user as named in the guild member record, if any.
    pub member_user: Option<u64>,
    /// The message that the interaction came from, if any.
    pub message_id: Option<u64>,
    /// The user as named outside a guild, if any.
    pub user: Option<u64>,
}

/// The mathematical value of an [`Interaction`].
pub struct InteractionView {
    pub channel_id: Option<u64>,
    pub data: Option<InteractionDataView>,
    pub kind: InteractionType,
    pub member_user: Option<u64>,
    pub message_id: Option<u64>,
    pub user: Option<u64>,
}

impl DeepView for Interaction {
    type V = InteractionView;

    open spec fn deep_view(&self) -> InteractionView {
        InteractionView {
            channel_id: self.channel_id,
            data: self.data.deep_view(),
            kind: self.kind,
            member_user: self.member_user,
            message_id: self.message_id,
            user: self.user,
        }
    }
}

/// Why an interaction is dropped.
#[derive(Clone, Copy, Debug, PartialEq, Eq, Structural)]
pub enum Ignored {
    /// It names no user.
    NoUser,
    /// Its user is not an operator.
    NotOperator { user: u64 },
    /// It names no channel.
    NoChannel,
    /// It carries a command, but is of a kind that carries none.
    UnexpectedKind,
    /// It carries a click, but names no message.
    NoMessage,
    /// It carries nothing to act on.
    Nothing,
}

/// Where an interaction goes.
#[derive(Clone, Debug, PartialEq, Eq)]
pub enum Dispatch {
    /// Nowhere.
    Ignored(Ignored),
    /// To the command of this name.
    Command { name: String },
    /// To the completion of the command of this name.
    Autocomplete { name: String },
    /// To the page that shows the control.
    Component(InteractionComponent),
    /// To the page that opened the form.
    Modal(InteractionModal),
}

/// The mathematical value of a [`Dispatch`].
pub enum DispatchView {
    Ignored(Ignored),
    Command { name: Seq<char> },
    Autocomplete { name: Seq<char> },
    Component(InteractionComponentView),
    Modal(InteractionModalView),
}

impl DeepView for Dispatch {
    type V = DispatchView;

    open spec fn deep_view(&self) -> DispatchView {
        match self {
            Dispatch::Ignored(reason) => DispatchView::Ignored(*reason),
            Dispatch::Command { name } => DispatchView::Command { name: name@ },
            Dispatch::Autocomplete { name } => DispatchView::Autocomplete { name: name@ },
            Dispatch::Component(component) => DispatchView::Component(component.deep_view()),
            Dispatch::Modal(modal) => DispatchView::Modal(modal.deep_view()),
        }
    }
}

/// The user of an interaction: the one of the member record where there is
/// one, else the one named outside a guild.
pub open spec fn acting_user(i: InteractionView) -> Option<u64> {
    match i.member_user {
        Some(user) => Some(user),
        None => i.user,
    }
}

/// Where an interaction goes, given the operators.
///
/// An interaction without a user, of a user who is no operator, or without
/// a channel is dropped, in this order. Else a command goes to the command
/// or to its completion, as the kind says; a click goes to the page of its
/// message; a form goes to the page of the message it names, if any.
pub open spec fn dispatch_of(operators: Seq<u64>, i: InteractionView) -> DispatchView {
    match acting_user(i) {
        None => DispatchView::Ignored(Ignored::NoUser),
        Some(user) => if !operators.contains(user) {
            DispatchView::Ignored(Ignored::NotOperator { user })
        } else if i.channel_id is None {
            DispatchView::Ignored(Ignored::NoChannel)
        } else {
            match i.data {
                Some(InteractionDataView::ApplicationCommand { name }) => match i.kind {
                    InteractionType::ApplicationCommand => DispatchView::Command { name },
                    InteractionType::ApplicationCommandAutocomplete => DispatchView::Autocomplete {
                        name,
                    },
                    _ => DispatchView::Ignored(Ignored::UnexpectedKind),
                },
                Some(InteractionDataView::MessageComponent { custom_id, values }) => match i.message_id {
                    Some(message_id) => DispatchView::Component(
                        InteractionComponentView { message_id, custom_id, values },
                    ),
                    None => DispatchView::Ignored(Ignored::NoMessage),
                },
                Some(InteractionDataView::ModalSubmit { custom_id, components }) => {
                    DispatchView::Modal(
                        InteractionModalView { message_id: i.message_id, custom_id, components },
                    )
                },
                None => DispatchView::Ignored(Ignored::Nothing),
            }
        },
    }
}

/// Decides where `interaction` goes.
pub fn handle_interaction(config: &DiscordConfig, interaction: Interaction) -> (dispatch: Dispatch)
    ensures
        dispatch.deep_view() == dispatch_of(config.operator_id@, interaction.deep_view()),
{
    let user = match interaction.member_user {
        Some(user) => Some(user),
        None => interaction.user,
    };
    let user = match user {
        Some(user) => user,
        None => {
            return Dispatch::Ignored(Ignored::NoUser);
        },
    };
    if !config.is_operator(user) {
        return Dispatch::Ignored(Ignored::NotOperator { user });
    }
    if interaction.channel_id.is_none() {
        return Dispatch::Ignored(Ignored::NoChannel);
    }
    match interaction.data {
        Some(InteractionData::ApplicationCommand { name }) => match interaction.kind {
            InteractionType::ApplicationCommand => Dispatch::Command { name },
            InteractionType::ApplicationCommandAutocomplete => Dispatch::Autocomplete { name },
            _ => Dispatch::Ignored(Ignored::UnexpectedKind),
        },
        Some(InteractionData::MessageComponent { custom_id, values }) => match interaction.message_id {
            Some(message_id) => Dispatch::Component(
                InteractionComponent { message_id, custom_id, values },
            ),
            None => Dispatch::Ignored(Ignored::NoMessage),
        },
        Some(InteractionData::ModalSubmit { custom_id, components }) => Dispatch::Modal(
            InteractionModal { message_id: interaction.message_id, custom_id, components },
        ),
        None => Dispatch::Ignored(Ignored::Nothing),
    }
}

/// How a command is carried out.
#[derive(Clone, Copy, Debug, PartialEq, Eq, Structural)]
pub struct CommandPlan {
    /// Whether the command is acknowledged before it runs, and if so,
    /// whether the acknowledgement is visible to the user alone.
    pub defer: Option<bool>,
    /// The routine that carries the command out.
    pub handler: Handler,
}

/// How `command` is carried out: a command typed into the chat is
/// acknowledged first unless its flags say that it answers by itself; a
/// command from the menu of a message is never acknowledged first.
pub open spec fn plan_of(command: InteractionCommandView) -> CommandPlan {
    match command {
        InteractionCommandView::Chat { handler, flags, .. } => CommandPlan {
            defer: if flags.skip_defer {
                None
            } else {
                Some(flags.ephemeral)
            },
            handler,
        },
        InteractionCommandView::Message { handler, .. } => CommandPlan { defer: None, handler },
    }
}

/// Says how `cmd` is carried out.
pub fn process_command(cmd: &InteractionCommand) -> (plan: CommandPlan)
    ensures
        plan == plan_of(cmd.deep_view()),
{
    match cmd {
        InteractionCommand::Chat(cmd) => CommandPlan {
            defer: if cmd.flags.defer() {
                Some(cmd.flags.ephemeral())
            } else {
                None
            },
            handler: cmd.handler,
        },
        InteractionCommand::Message(cmd) => CommandPlan { defer: None, handler: cmd.handler },
    }
}

/// Finds the command called `name` and says how it is carried out;
/// nothing where the table has no command of that name.
pub fn handle_command(commands: &InteractionCommands, name: &str) -> (plan: Option<CommandPlan>)
    requires
        commands.well_formed(),
    ensures
        plan == match command_named(commands.deep_view(), name@) {
            Some(command) => Some(plan_of(command)),
            None => None,
        },
{
    match commands.command(name) {
        Some(cmd) => Some(process_command(cmd)),
        None => None,
    }
}

/// Completes the input of the command called `name`. No command offers
/// completion, so every name is turned down and handed back.
pub fn handle_autocomplete(name: String) -> (outcome: Result<(), String>)
    ensures
        outcome == Err::<(), String>(name),
{
    Err(name)
}

} // verus!
