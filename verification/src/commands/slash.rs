//! The commands that the bot offers, found by name.

use vstd::prelude::*;
use vstd::string::*;

use crate::commands::flags::{CommandFlags, CommandFlagsView, SKIP_DEFER};

verus! {

/// A radix trie of the `radix_trie` crate. Nothing of its inside is known
/// here.
#[verifier::external_type_specification]
#[verifier::external_body]
#[verifier::reject_recursive_types(K)]
#[verifier::reject_recursive_types(V)]
pub struct ExTrie<K, V>(radix_trie::Trie<K, V>);

/// The key-value pairs that a trie holds.
pub uninterp spec fn trie_entries(trie: radix_trie::Trie<String, usize>) -> Map<Seq<char>, usize>;

/// `Trie::new`: a trie that holds nothing.
#[verifier::external_body]
fn trie_new() -> (made: radix_trie::Trie<String, usize>)
    ensures
        trie_entries(made) =~= Map::empty(),
{
    radix_trie::Trie::new()
}

/// `Trie::insert`: afterwards the trie maps `key` to `value` and holds
/// every other pair as before; the result is the value that `key` had, if
/// it had one.
#[verifier::external_body]
fn trie_insert(trie: &mut radix_trie::Trie<String, usize>, key: String, value: usize) -> (previous:
    Option<usize>)
    ensures
        trie_entries(*final(trie)) == trie_entries(*old(trie)).insert(key@, value),
        previous == if trie_entries(*old(trie)).contains_key(key@) {
            Some(trie_entries(*old(trie))[key@])
        } else {
            None::<usize>
        },
{
    trie.insert(key, value)
}

/// `Trie::get`: the value that the trie maps exactly `key` to, if any.
#[verifier::external_body]
fn trie_get(trie: &radix_trie::Trie<String, usize>, key: &str) -> (found: Option<usize>)
    ensures
        found == if trie_entries(*trie).contains_key(key@) {
            Some(trie_entries(*trie)[key@])
        } else {
            None::<usize>
        },
{
    trie.get(key).copied()
}

/// The routine that carries a command out.
#[derive(Clone, Copy, Debug, PartialEq, Eq, Structural)]
pub enum Handler {
    /// Answers with the time that an answer takes.
    Ping,
    /// Opens the issue wizard for the message that the command was used on.
    CreateIssue,
}

/// A command that is typed into the chat.
#[derive(Clone, Debug, PartialEq, Eq)]
pub struct SlashCommand {
    pub name: String,
    pub description: String,
    pub handler: Handler,
    pub flags: CommandFlags,
}

/// A command that is picked from the menu of a message.
#[derive(Clone, Debug, PartialEq, Eq)]
pub struct MessageCommand {
    pub name: String,
    pub handler: Handler,
}

/// A command of either kind.
#[derive(Clone, Debug, PartialEq, Eq)]
pub enum InteractionCommand {
    Chat(SlashCommand),
    Message(MessageCommand),
}

/// The mathematical value of an [`InteractionCommand`].
pub enum InteractionCommandView {
    Chat { name: Seq<char>, description: Seq<char>, handler: Handler, flags: CommandFlagsView },
    Message { name: Seq<char>, handler: Handler },
}

impl InteractionCommandView {
    /// The name that the command is found by.
    pub open spec fn name(self) -> Seq<char> {
        match self {
            InteractionCommandView::Chat { name, .. } => name,
            InteractionCommandView::Message { name, .. } => name,
        }
    }
}

impl DeepView for InteractionCommand {
    type V = InteractionCommandView;

    open spec fn deep_view(&self) -> InteractionCommandView {
        match self {
            InteractionCommand::Chat(command) => InteractionCommandView::Chat {
                name: command.name@,
                description: command.description@,
                handler: command.handler,
                flags: command.flags@,
            },
            InteractionCommand::Message(command) => InteractionCommandView::Message {
                name: command.name@,
                handler: command.handler,
            },
        }
    }
}

impl InteractionCommand {
    /// The name that the command is found by.
    pub fn name(&self) -> (name: &String)
        ensures
            name@ == self.deep_view().name(),
    {
        match self {
            InteractionCommand::Chat(command) => &command.name,
            InteractionCommand::Message(command) => &command.name,
        }
    }
}

/// Where a command appears on the platform.
#[derive(Clone, Copy, Debug, PartialEq, Eq, Structural)]
pub enum CommandKind {
    /// Typed into the chat.
    ChatInput,
    /// Picked from the menu of a message.
    Message,
}

/// What the platform is told when a command is registered with it.
#[derive(Clone, Debug, PartialEq, Eq)]
pub struct CommandRegistration {
    pub kind: CommandKind,
    pub name: String,
    pub description: String,
    /// The guild that the command is registered in.
    pub guild_id: u64,
    /// Whether the command may be used in direct messages, where that is
    /// said.
    pub dm_permission: Option<bool>,
}

/// The mathematical value of a [`CommandRegistration`].
pub struct CommandRegistrationView {
    pub kind: CommandKind,
    pub name: Seq<char>,
    pub description: Seq<char>,
    pub guild_id: u64,
    pub dm_permission: Option<bool>,
}

impl DeepView for CommandRegistration {
    type V = CommandRegistrationView;

    open spec fn deep_view(&self) -> CommandRegistrationView {
        CommandRegistrationView {
            kind: self.kind,
            name: self.name@,
            description: self.description@,
            guild_id: self.guild_id,
            dm_permission: self.dm_permission,
        }
    }
}

/// What the platform is told about `command` when it is registered in
/// `guild`: a command typed into the chat goes with its description; a
/// command from the menu of a message has none and is kept out of direct
/// messages.
pub open spec fn registration_of(command: InteractionCommandView, guild: u64)
    -> CommandRegistrationView {
    match command {
        InteractionCommandView::Chat { name, description, .. } => CommandRegistrationView {
            kind: CommandKind::ChatInput,
            name,
            description,
            guild_id: guild,
            dm_permission: None,
        },
        InteractionCommandView::Message { name, .. } => CommandRegistrationView {
            kind: CommandKind::Message,
            name,
            description: Seq::empty(),
            guild_id: guild,
            dm_permission: Some(false),
        },
    }
}

impl InteractionCommand {
    /// What the platform is told about the command when it is registered
    /// in `guild`.
    pub fn create(&self, guild: u64) -> (registration: CommandRegistration)
        ensures
            registration.deep_view() == registration_of(self.deep_view(), guild),
    {
        match self {
            InteractionCommand::Chat(command) => CommandRegistration {
                kind: CommandKind::ChatInput,
                name: command.name.clone(),
                description: command.description.clone(),
                guild_id: guild,
                dm_permission: None,
            },
            InteractionCommand::Message(command) => CommandRegistration {
                kind: CommandKind::Message,
                name: command.name.clone(),
                description: String::new(),
                guild_id: guild,
                dm_permission: Some(false),
            },
        }
    }
}

/// The names of `commands`, in order.
pub open spec fn names_of(commands: Seq<InteractionCommandView>) -> Seq<Seq<char>> {
    Seq::new(commands.len(), |i: int| commands[i].name())
}

/// The command called `name` among `commands`, if there is one.
pub open spec fn command_named(commands: Seq<InteractionCommandView>, name: Seq<char>) -> Option<
    InteractionCommandView,
> {
    if names_of(commands).contains(name) {
        Some(commands[names_of(commands).index_of(name)])
    } else {
        None
    }
}

/// `commands` with `command` entered: in place of the command of the same
/// name where there is one, else at the end.
pub open spec fn with_command(
    commands: Seq<InteractionCommandView>,
    command: InteractionCommandView,
) -> Seq<InteractionCommandView> {
    if names_of(commands).contains(command.name()) {
        commands.update(names_of(commands).index_of(command.name()), command)
    } else {
        commands.push(command)
    }
}

/// Among commands without a repeated name, every command is found by its
/// own name.
pub proof fn law_command_is_found_by_its_name(commands: Seq<InteractionCommandView>, i: int)
    requires
        names_of(commands).no_duplicates(),
        0 <= i < commands.len(),
    ensures
        command_named(commands, commands[i].name()) == Some(commands[i]),
{
    let names = names_of(commands);
    assert(names[i] == commands[i].name());
    let found = names.index_of(commands[i].name());
    assert(names[found] == names[i]);
}

/// The commands that the bot offers. No two have the same name.
pub struct InteractionCommands {
    index: radix_trie::Trie<String, usize>,
    commands: Vec<InteractionCommand>,
}

impl DeepView for InteractionCommands {
    type V = Seq<InteractionCommandView>;

    closed spec fn deep_view(&self) -> Seq<InteractionCommandView> {
        self.commands.deep_view()
    }
}

impl InteractionCommands {
    /// The trie maps each command's name to the command's place, and holds
    /// nothing else.
    pub closed spec fn well_formed(&self) -> bool {
        let entries = trie_entries(self.index);
        let names = names_of(self.commands.deep_view());
        &&& forall|name: Seq<char>| #[trigger]
            entries.contains_key(name) ==> entries[name] < names.len() && names[entries[name] as int]
                == name
        &&& forall|i: int|
            0 <= i < names.len() ==> entries.contains_key(#[trigger] names[i]) && entries[names[i]]
                == i
    }

    /// In a well-formed table no name occurs twice.
    pub proof fn lemma_names_are_distinct(&self)
        requires
            self.well_formed(),
        ensures
            names_of(self.deep_view()).no_duplicates(),
    {
    }

    /// A table without commands.
    pub fn new() -> (table: Self)
        ensures
            table.well_formed(),
            table.deep_view() == Seq::<InteractionCommandView>::empty(),
    {
        let table = InteractionCommands { index: trie_new(), commands: Vec::new() };
        assert(table.commands.deep_view() =~= Seq::empty());
        table
    }

    /// How many commands the table holds.
    pub fn len(&self) -> (count: usize)
        ensures
            count == self.deep_view().len(),
    {
        self.commands.len()
    }

    /// The command at place `i`, in the order in which the names came in.
    pub fn get(&self, i: usize) -> (command: &InteractionCommand)
        requires
            i < self.deep_view().len(),
        ensures
            command.deep_view() == self.deep_view()[i as int],
    {
        &self.commands[i]
    }

    /// The command called `command`, if the table has one.
    pub fn command(&self, command: &str) -> (found: Option<&InteractionCommand>)
        requires
            self.well_formed(),
        ensures
            found.deep_view() == command_named(self.deep_view(), command@),
    {
        let ghost names = names_of(self.commands.deep_view());
        match trie_get(&self.index, command) {
            Some(place) => {
                proof {
                    assert(names[place as int] == command@);
                    assert(names.contains(command@));
                    let first = names.index_of(command@);
                    assert(names[first] == command@);
                }
                Some(&self.commands[place])
            },
            None => {
                proof {
                    if names.contains(command@) {
                        let i = names.index_of(command@);
                        assert(names[i] == command@);
                    }
                }
                None
            },
        }
    }

    /// Enters `command` under its name: in place of the command of that
    /// name where the table has one, else at the end.
    pub fn insert(&mut self, command: InteractionCommand)
        requires
            old(self).well_formed(),
        ensures
            final(self).well_formed(),
            final(self).deep_view() == with_command(old(self).deep_view(), command.deep_view()),
    {
        let ghost before = self.commands.deep_view();
        let ghost names = names_of(before);
        let ghost name = command.deep_view().name();
        let key = command.name().clone();
        match trie_get(&self.index, key.as_str()) {
            Some(place) => {
                proof {
                    assert(names[place as int] == name);
                    assert(names.contains(name));
                    let first = names.index_of(name);
                    assert(names[first] == name);
                }
                self.commands.set(place, command);
                assert(self.commands.deep_view() =~= before.update(
                    place as int,
                    command.deep_view(),
                ));
                assert(names_of(self.commands.deep_view()) =~= names);
            },
            None => {
                proof {
                    if names.contains(name) {
                        let i = names.index_of(name);
                        assert(names[i] == name);
                    }
                }
                let place = self.commands.len();
                self.commands.push(command);
                trie_insert(&mut self.index, key, place);
                assert(self.commands.deep_view() =~= before.push(command.deep_view()));
                assert(names_of(self.commands.deep_view()) =~= names.push(name));
                assert forall|i: int| 0 <= i < names.len() + 1 implies trie_entries(
                    self.index,
                ).contains_key(#[trigger] names.push(name)[i]) && trie_entries(self.index)[names.push(
                    name,
                )[i]] == i by {
                    if i < names.len() {
                        assert(names.push(name)[i] == names[i]);
                        assert(names[i] != name);
                    }
                }
            },
        }
    }
}

/// The commands that the bot offers: `ping` typed into the chat, which
/// answers by itself, and `Create github issue` in the menu of a message.
pub open spec fn offered_commands() -> Seq<InteractionCommandView> {
    seq![
        InteractionCommandView::Chat {
            name: "ping"@,
            description: "Check if the bot is online"@,
            handler: Handler::Ping,
            flags: CommandFlagsView { ephemeral: false, skip_defer: true },
        },
        InteractionCommandView::Message { name: "Create github issue"@, handler: Handler::CreateIssue },
    ]
}

/// The table of the commands that the bot offers.
pub fn interaction_commands() -> (table: InteractionCommands)
    ensures
        table.well_formed(),
        table.deep_view() == offered_commands(),
{
    let mut table = InteractionCommands::new();
    let flags = CommandFlags::from_bits_truncate(SKIP_DEFER);
    assert(2u8 & 1u8 != 1u8 && 2u8 & 2u8 == 2u8) by (bit_vector);
    table.insert(
        InteractionCommand::Chat(
            SlashCommand {
                name: String::from_str("ping"),
                description: String::from_str("Check if the bot is online"),
                handler: Handler::Ping,
                flags,
            },
        ),
    );
    proof {
        reveal_strlit("ping");
        reveal_strlit("Create github issue");
        let first = seq![offered_commands()[0]];
        assert(table.deep_view() =~= first);
        assert(names_of(first) =~= seq!["ping"@]);
        assert("ping"@.len() != "Create github issue"@.len());
        assert(!names_of(first).contains("Create github issue"@));
        assert(first.push(offered_commands()[1]) =~= offered_commands());
    }
    table.insert(
        InteractionCommand::Message(
            MessageCommand {
                name: String::from_str("Create github issue"),
                handler: Handler::CreateIssue,
            },
        ),
    );
    table
}

} // verus!
