//! Live pages: the contract every page meets, the issue wizard, the registry
//! of pages by message, the idle-timeout supervisor and the routing of
//! events to pages.

use std::collections::HashMap;

use vstd::prelude::*;

use self::create_issue::CreateIssueView;
pub use self::create_issue::{CreateIssue, Label};
use self::page::{
    ComponentResultView, ModalError, ModalErrorView, PageAction, PageActionView, PageEvent,
    PageEventView,
};
pub use self::page::{ComponentResult, IActiveMessage};
pub use self::route::ActiveMessagesBuilder;
use self::timeout::{
    all_keepalive, lemma_keepalives_keep_waiting, strip_controls, supervisor_after,
    supervisor_step, Supervisor, TimeoutActionView, TimeoutEvent, TimeoutState,
};
use crate::util::builder::{ActionRow, ActionRowView};
use crate::util::interaction::{
    InteractionComponent, InteractionComponentView, InteractionModal, InteractionModalView,
};

pub mod create_issue;
pub mod page;
pub mod route;
pub mod timeout;

verus! {

broadcast use vstd::std_specs::hash::group_hash_axioms;

/// A page of any kind.
#[derive(Clone, Debug, PartialEq, Eq)]
pub enum ActiveMessage {
    CreateIssue(CreateIssue),
}

/// The state of a page of any kind.
pub enum ActiveMessageView {
    CreateIssue(CreateIssueView),
}

impl DeepView for ActiveMessage {
    type V = ActiveMessageView;

    open spec fn deep_view(&self) -> ActiveMessageView {
        match self {
            ActiveMessage::CreateIssue(page) => ActiveMessageView::CreateIssue(page.deep_view()),
        }
    }
}

impl From<CreateIssue> for ActiveMessage {
    fn from(page: CreateIssue) -> (wrapped: ActiveMessage) {
        ActiveMessage::CreateIssue(page)
    }
}

impl vstd::std_specs::convert::FromSpecImpl<CreateIssue> for ActiveMessage {
    open spec fn obeys_from_spec() -> bool {
        true
    }

    open spec fn from_spec(page: CreateIssue) -> ActiveMessage {
        ActiveMessage::CreateIssue(page)
    }
}

impl IActiveMessage for ActiveMessage {
    open spec fn spec_terminal(state: ActiveMessageView) -> bool {
        match state {
            ActiveMessageView::CreateIssue(page) => CreateIssue::spec_terminal(page),
        }
    }

    open spec fn spec_completed(state: ActiveMessageView) -> bool {
        match state {
            ActiveMessageView::CreateIssue(page) => CreateIssue::spec_completed(page),
        }
    }

    open spec fn spec_stage(state: ActiveMessageView) -> nat {
        match state {
            ActiveMessageView::CreateIssue(page) => CreateIssue::spec_stage(page),
        }
    }

    open spec fn spec_build_page(state: ActiveMessageView, event: PageEventView) -> (
        ActiveMessageView,
        PageActionView,
    ) {
        match state {
            ActiveMessageView::CreateIssue(page) => {
                let (next, action) = CreateIssue::spec_build_page(page, event);
                (ActiveMessageView::CreateIssue(next), action)
            },
        }
    }

    open spec fn spec_build_components(state: ActiveMessageView) -> Seq<ActionRowView> {
        match state {
            ActiveMessageView::CreateIssue(page) => CreateIssue::spec_build_components(page),
        }
    }

    open spec fn spec_handle_component(
        state: ActiveMessageView,
        component: InteractionComponentView,
    ) -> (ActiveMessageView, ComponentResultView, InteractionComponentView) {
        match state {
            ActiveMessageView::CreateIssue(page) => {
                let (next, result, left) = CreateIssue::spec_handle_component(page, component);
                (ActiveMessageView::CreateIssue(next), result, left)
            },
        }
    }

    open spec fn spec_handle_modal(state: ActiveMessageView, modal: InteractionModalView) -> (
        ActiveMessageView,
        Result<(), ModalErrorView>,
        InteractionModalView,
    ) {
        match state {
            ActiveMessageView::CreateIssue(page) => {
                let (next, result, left) = CreateIssue::spec_handle_modal(page, modal);
                (ActiveMessageView::CreateIssue(next), result, left)
            },
        }
    }

    fn build_page(&mut self, event: PageEvent) -> (action: PageAction) {
        match self {
            ActiveMessage::CreateIssue(page) => page.build_page(event),
        }
    }

    fn build_components(&self) -> (rows: Vec<ActionRow>) {
        match self {
            ActiveMessage::CreateIssue(page) => page.build_components(),
        }
    }

    fn handle_component(&mut self, component: &mut InteractionComponent) -> (result:
        ComponentResult) {
        match self {
            ActiveMessage::CreateIssue(page) => page.handle_component(component),
        }
    }

    fn handle_modal(&mut self, modal: &mut InteractionModal) -> (result: Result<(), ModalError>) {
        match self {
            ActiveMessage::CreateIssue(page) => page.handle_modal(modal),
        }
    }

    proof fn law_terminal_shows_no_controls(state: ActiveMessageView) {
        match state {
            ActiveMessageView::CreateIssue(page) => CreateIssue::law_terminal_shows_no_controls(
                page,
            ),
        }
    }

    proof fn law_completed_render_is_stable(state: ActiveMessageView, event: PageEventView) {
        match state {
            ActiveMessageView::CreateIssue(page) => CreateIssue::law_completed_render_is_stable(
                page,
                event,
            ),
        }
    }

    proof fn law_forward_only(
        state: ActiveMessageView,
        event: PageEventView,
        component: InteractionComponentView,
        modal: InteractionModalView,
    ) {
        match state {
            ActiveMessageView::CreateIssue(page) => CreateIssue::law_forward_only(
                page,
                event,
                component,
                modal,
            ),
        }
    }

    proof fn law_failure_keeps_state(
        state: ActiveMessageView,
        event: PageEventView,
        component: InteractionComponentView,
        modal: InteractionModalView,
    ) {
        match state {
            ActiveMessageView::CreateIssue(page) => CreateIssue::law_failure_keeps_state(
                page,
                event,
                component,
                modal,
            ),
        }
    }
}

/// What the registry keeps for one message.
#[derive(Clone, Debug, PartialEq, Eq)]
pub struct FullActiveMessage<K> {
    /// The page.
    pub active_msg: ActiveMessage,
    /// The sender of keepalives to the entry's supervisor.
    pub tx: K,
    /// The number that tells this entry from every other that the registry
    /// has held or will hold, also under the same message.
    pub instance: u64,
}

/// The registry of live pages, by message. It holds at most one entry per
/// message, and numbers the entries in the order in which they come in.
///
/// `K` is the type of the sender of keepalives; the registry only keeps it.
pub struct ActiveMessages<K> {
    inner: HashMap<u64, FullActiveMessage<K>>,
    next_instance: u64,
}

impl<K> View for ActiveMessages<K> {
    type V = Map<u64, FullActiveMessage<K>>;

    closed spec fn view(&self) -> Map<u64, FullActiveMessage<K>> {
        self.inner@
    }
}

/// What removing the entry of `msg` does to the entries `m`, and what it
/// hands back: the entry, or nothing where there was none.
pub open spec fn registry_remove<K>(m: Map<u64, FullActiveMessage<K>>, msg: u64) -> (
    Map<u64, FullActiveMessage<K>>,
    Option<FullActiveMessage<K>>,
) {
    if m.contains_key(msg) {
        (m.remove(msg), Some(m[msg]))
    } else {
        (m, None)
    }
}

/// What a supervisor's removal does: it removes the entry of `msg` only if
/// that entry has the supervisor's instance number.
pub open spec fn registry_expire<K>(m: Map<u64, FullActiveMessage<K>>, msg: u64, instance: u64)
    -> (Map<u64, FullActiveMessage<K>>, Option<FullActiveMessage<K>>) {
    if m.contains_key(msg) && m[msg].instance == instance {
        (m.remove(msg), Some(m[msg]))
    } else {
        (m, None)
    }
}

/// Whether every entry of `m` has a number below `next`.
pub open spec fn numbered_below<K>(m: Map<u64, FullActiveMessage<K>>, next: u64) -> bool {
    forall|msg: u64| m.contains_key(msg) ==> (#[trigger] m[msg]).instance < next
}

impl<K> ActiveMessages<K> {
    /// The number that the next entry gets.
    pub closed spec fn spec_next_instance(&self) -> u64 {
        self.next_instance
    }

    /// Every entry has a number that was given out already. This holds of
    /// a new registry, and every operation keeps it.
    pub closed spec fn well_formed(&self) -> bool {
        numbered_below(self.inner@, self.next_instance)
    }

    /// What well-formedness says, over the registry's value.
    pub proof fn lemma_well_formed(&self)
        ensures
            self.well_formed() == numbered_below(self@, self.spec_next_instance()),
    {
    }

    /// A registry without entries.
    pub fn new() -> (registry: Self)
        ensures
            registry@ == Map::<u64, FullActiveMessage<K>>::empty(),
            registry.spec_next_instance() == 0,
            registry.well_formed(),
    {
        ActiveMessages { inner: HashMap::new(), next_instance: 0 }
    }

    /// Whether `msg` has an entry.
    pub fn contains(&self, msg: u64) -> (present: bool)
        ensures
            present == self@.contains_key(msg),
    {
        self.inner.contains_key(&msg)
    }

    /// The entry of `msg`, if it has one.
    pub fn get(&self, msg: u64) -> (entry: Option<&FullActiveMessage<K>>)
        ensures
            match entry {
                Some(found) => self@.contains_key(msg) && *found == self@[msg],
                None => !self@.contains_key(msg),
            },
    {
        self.inner.get(&msg)
    }

    /// The sender of keepalives of the entry of `msg`, if it has one.
    pub fn keepalive(&self, msg: u64) -> (tx: Option<&K>)
        ensures
            match tx {
                Some(found) => self@.contains_key(msg) && *found == self@[msg].tx,
                None => !self@.contains_key(msg),
            },
    {
        match self.inner.get(&msg) {
            Some(entry) => Some(&entry.tx),
            None => None,
        }
    }

    /// Makes `active_msg` the page of `msg`, in place of any page that
    /// `msg` had, and hands back the number of the new entry. The numbers
    /// run from zero; where they are used up, nothing is inserted.
    pub fn insert(&mut self, msg: u64, active_msg: ActiveMessage, tx: K) -> (instance: Option<u64>)
        requires
            old(self).well_formed(),
        ensures
            final(self).well_formed(),
            match instance {
                Some(number) => {
                    &&& number == old(self).spec_next_instance()
                    &&& final(self).spec_next_instance() == number + 1
                    &&& final(self)@ == old(self)@.insert(
                        msg,
                        FullActiveMessage { active_msg, tx, instance: number },
                    )
                },
                None => {
                    &&& old(self).spec_next_instance() == u64::MAX
                    &&& final(self).spec_next_instance() == u64::MAX
                    &&& final(self)@ == old(self)@
                },
            },
    {
        if self.next_instance == u64::MAX {
            return None;
        }
        let number = self.next_instance;
        self.inner.insert(msg, FullActiveMessage { active_msg, tx, instance: number });
        self.next_instance = number + 1;
        Some(number)
    }

    /// Removes the entry of `msg` and hands it back; nothing where `msg`
    /// has no entry.
    pub fn remove(&mut self, msg: u64) -> (removed: Option<FullActiveMessage<K>>)
        requires
            old(self).well_formed(),
        ensures
            final(self).well_formed(),
            (final(self)@, removed) == registry_remove(old(self)@, msg),
            final(self).spec_next_instance() == old(self).spec_next_instance(),
            removed is Some ==> removed->0.instance < old(self).spec_next_instance(),
    {
        self.inner.remove(&msg)
    }

    /// Puts back an entry that was taken out with [`Self::remove`].
    pub(crate) fn restore(&mut self, msg: u64, entry: FullActiveMessage<K>)
        requires
            old(self).well_formed(),
            entry.instance < old(self).spec_next_instance(),
        ensures
            final(self).well_formed(),
            final(self)@ == old(self)@.insert(msg, entry),
            final(self).spec_next_instance() == old(self).spec_next_instance(),
    {
        self.inner.insert(msg, entry);
    }

    /// The removal that a supervisor asks for: removes the entry of `msg`
    /// if it has the number `instance`, and hands it back. An entry that
    /// came in later under the same message has another number and stays.
    pub fn expire(&mut self, msg: u64, instance: u64) -> (removed: Option<FullActiveMessage<K>>)
        requires
            old(self).well_formed(),
        ensures
            final(self).well_formed(),
            (final(self)@, removed) == registry_expire(old(self)@, msg, instance),
            final(self).spec_next_instance() == old(self).spec_next_instance(),
    {
        let same = match self.inner.get(&msg) {
            Some(entry) => entry.instance == instance,
            None => false,
        };
        if same {
            self.inner.remove(&msg)
        } else {
            None
        }
    }

    /// How many messages have an entry.
    pub fn len(&self) -> (count: usize)
        ensures
            count == self@.len(),
    {
        self.inner.len()
    }
}

/// Of two removals of the same entry, whichever path they come from, only
/// the first finds it: the second gets nothing and changes nothing.
pub proof fn law_second_removal_finds_nothing<K>(
    m: Map<u64, FullActiveMessage<K>>,
    msg: u64,
    instance: u64,
)
    ensures
        registry_remove(registry_remove(m, msg).0, msg) == (registry_remove(m, msg).0, None::<
            FullActiveMessage<K>,
        >),
        registry_expire(registry_remove(m, msg).0, msg, instance) == (
            registry_remove(m, msg).0,
            None::<FullActiveMessage<K>>,
        ),
        registry_remove(registry_expire(m, msg, instance).0, msg).1 is Some ==> registry_expire(
            m,
            msg,
            instance,
        ).1 is None,
        registry_expire(registry_expire(m, msg, instance).0, msg, instance) == (
            registry_expire(m, msg, instance).0,
            None::<FullActiveMessage<K>>,
        ),
{
}

/// A supervisor cannot remove an entry that came in after its own under
/// the same message: once a new entry is inserted, the removal asked for
/// with any number given out before finds nothing and changes nothing.
pub proof fn law_supervisor_removes_own_entry_only<K>(
    m: Map<u64, FullActiveMessage<K>>,
    next: u64,
    msg: u64,
    entry: FullActiveMessage<K>,
    earlier: u64,
)
    requires
        numbered_below(m, next),
        entry.instance == next,
        earlier < next,
    ensures
        registry_expire(m.insert(msg, entry), msg, earlier) == (
            m.insert(msg, entry),
            None::<FullActiveMessage<K>>,
        ),
        next < u64::MAX ==> numbered_below(m.insert(msg, entry), (next + 1) as u64),
{
}

/// What is done to the entry of one message leaves the entries of all
/// other messages as they are.
pub proof fn law_messages_are_independent<K>(
    m: Map<u64, FullActiveMessage<K>>,
    msg: u64,
    other: u64,
    instance: u64,
    entry: FullActiveMessage<K>,
)
    requires
        msg != other,
    ensures
        registry_remove(m, msg).0.contains_key(other) == m.contains_key(other),
        registry_expire(m, msg, instance).0.contains_key(other) == m.contains_key(other),
        m.insert(msg, entry).contains_key(other) == m.contains_key(other),
        m.contains_key(other) ==> registry_remove(m, msg).0[other] == m[other] && registry_expire(
            m,
            msg,
            instance,
        ).0[other] == m[other] && m.insert(msg, entry)[other] == m[other],
{
}

/// When two supervisors come to remove the entry of the same message, one
/// after the other, at most one of them finds it, and only the one that
/// finds it goes on to strip the controls; the other stops without more.
pub proof fn law_cleanup_follows_first_removal_only<K>(
    m: Map<u64, FullActiveMessage<K>>,
    first: Supervisor,
    second: Supervisor,
)
    requires
        first.state == TimeoutState::Removing,
        second.state == TimeoutState::Removing,
        first.msg == second.msg,
    ensures
        ({
            let (left, found_first) = registry_expire(m, first.msg, first.instance);
            let (_, found_second) = registry_expire(left, second.msg, second.instance);
            let first_action = supervisor_step(
                first,
                TimeoutEvent::Removed { present: found_first is Some },
            ).1;
            let second_action = supervisor_step(
                second,
                TimeoutEvent::Removed { present: found_second is Some },
            ).1;
            &&& !(found_first is Some && found_second is Some)
            &&& first_action is StripControls <==> found_first is Some
            &&& second_action is StripControls <==> found_second is Some
            &&& found_first is None ==> first_action is Stop
            &&& found_second is None ==> second_action is Stop
        }),
{
}

/// An entry that sees no keepalive for the idle time is removed and its
/// message cleaned up: when the idle time passes on the supervisor of an
/// entry that is still in the registry, after any number of keepalives,
/// the removal that the supervisor asks for takes exactly that entry out
/// and leaves every other, and the supervisor goes on to strip the
/// controls of the entry's message.
pub proof fn law_idle_entry_is_removed<K>(
    m: Map<u64, FullActiveMessage<K>>,
    s: Supervisor,
    keepalives: Seq<TimeoutEvent>,
)
    requires
        s.state == TimeoutState::Active,
        all_keepalive(keepalives),
        m.contains_key(s.msg),
        m[s.msg].instance == s.instance,
    ensures
        ({
            let (expiring, asked) = supervisor_step(
                supervisor_after(s, keepalives),
                TimeoutEvent::Elapsed,
            );
            let (left, removed) = registry_expire(m, s.msg, s.instance);
            let (ended, cleanup) = supervisor_step(
                expiring,
                TimeoutEvent::Removed { present: removed is Some },
            );
            &&& asked == TimeoutActionView::Remove { msg: s.msg, instance: s.instance }
            &&& removed == Some(m[s.msg])
            &&& left == m.remove(s.msg)
            &&& cleanup == TimeoutActionView::StripControls {
                msg: s.msg,
                channel: s.channel,
                update: strip_controls(),
            }
            &&& ended.state == TimeoutState::Finished
        }),
{
    lemma_keepalives_keep_waiting(s, keepalives);
}

} // verus!
