//! The idle-timeout supervisor of one registry entry.
//!
//! A supervisor waits for a keepalive or for the idle time to pass,
//! whichever comes first. A keepalive starts the wait anew. When the idle
//! time passes, the supervisor has its entry removed and, if the entry was
//! still there, has the controls stripped from the message. The waiting,
//! the removal and the stripping are done by the driver; the supervisor
//! decides.

use vstd::prelude::*;

use crate::util::builder::{MessageBuilder, MessageBuilderView};

verus! {

/// How long an entry lives without a keepalive, in seconds.
pub const IDLE_SECONDS: u64 = 60;

/// Where a supervisor stands.
#[derive(Clone, Copy, Debug, PartialEq, Eq, Structural)]
pub enum TimeoutState {
    /// Waiting for a keepalive or for the idle time to pass.
    Active,
    /// The idle time has passed; the entry is being removed.
    Removing,
    /// Nothing is left to do.
    Finished,
}

/// What the driver reports to a supervisor.
#[derive(Clone, Copy, Debug, PartialEq, Eq, Structural)]
pub enum TimeoutEvent {
    /// A keepalive came in while waiting.
    Keepalive,
    /// The sender of keepalives is gone: the entry was dropped.
    Closed,
    /// The idle time passed without a keepalive.
    Elapsed,
    /// The removal was tried; `present` says whether the entry was still
    /// there and is now removed.
    Removed { present: bool },
}

/// What a supervisor asks the driver to do next.
#[derive(Clone, Debug, PartialEq, Eq)]
pub enum TimeoutAction {
    /// Wait for a keepalive, for at most this many seconds.
    Wait { seconds: u64 },
    /// Remove the entry of message `msg` if it is still the one with this
    /// instance number.
    Remove { msg: u64, instance: u64 },
    /// Send `update` to message `msg` in `channel`, once, and stop whether
    /// or not that succeeds.
    StripControls { msg: u64, channel: u64, update: MessageBuilder },
    /// Stop.
    Stop,
}

/// The mathematical value of a [`TimeoutAction`].
pub enum TimeoutActionView {
    Wait { seconds: u64 },
    Remove { msg: u64, instance: u64 },
    StripControls { msg: u64, channel: u64, update: MessageBuilderView },
    Stop,
}

impl DeepView for TimeoutAction {
    type V = TimeoutActionView;

    open spec fn deep_view(&self) -> TimeoutActionView {
        match self {
            TimeoutAction::Wait { seconds } => TimeoutActionView::Wait { seconds: *seconds },
            TimeoutAction::Remove { msg, instance } => TimeoutActionView::Remove {
                msg: *msg,
                instance: *instance,
            },
            TimeoutAction::StripControls { msg, channel, update } => {
                TimeoutActionView::StripControls {
                    msg: *msg,
                    channel: *channel,
                    update: update.deep_view(),
                }
            },
            TimeoutAction::Stop => TimeoutActionView::Stop,
        }
    }
}

/// The supervisor of one registry entry. It is bound to that entry: to the
/// message, and to the instance number that the entry got when it was
/// inserted.
#[derive(Clone, Copy, Debug, PartialEq, Eq, Structural)]
pub struct Supervisor {
    pub msg: u64,
    pub channel: u64,
    pub instance: u64,
    pub state: TimeoutState,
}

/// The update that strips the controls from a message and leaves the rest
/// of it alone.
pub open spec fn strip_controls() -> MessageBuilderView {
    MessageBuilderView { content: None, embed: None, components: Some(Seq::empty()) }
}

/// The action that a supervisor in state `s.state` is waiting on.
pub open spec fn pending(s: Supervisor) -> TimeoutActionView {
    match s.state {
        TimeoutState::Active => TimeoutActionView::Wait { seconds: IDLE_SECONDS },
        TimeoutState::Removing => TimeoutActionView::Remove { msg: s.msg, instance: s.instance },
        TimeoutState::Finished => TimeoutActionView::Stop,
    }
}

/// One step of a supervisor: the next state and what to do next.
///
/// While waiting: a keepalive starts the full wait anew; a closed channel
/// ends the supervisor; the idle time having passed, the supervisor asks
/// for the removal of its entry. While removing: if the entry was there,
/// the supervisor asks for the controls to be stripped and is finished; if
/// not, it is finished without more. An event that the state did not ask
/// for changes nothing, and the pending action is asked for again; so a
/// keepalive that comes after the idle time has passed is without effect.
pub open spec fn supervisor_step(s: Supervisor, event: TimeoutEvent) -> (
    Supervisor,
    TimeoutActionView,
) {
    match (s.state, event) {
        (TimeoutState::Active, TimeoutEvent::Closed) => (
            Supervisor { state: TimeoutState::Finished, ..s },
            TimeoutActionView::Stop,
        ),
        (TimeoutState::Active, TimeoutEvent::Elapsed) => (
            Supervisor { state: TimeoutState::Removing, ..s },
            TimeoutActionView::Remove { msg: s.msg, instance: s.instance },
        ),
        (TimeoutState::Removing, TimeoutEvent::Removed { present }) => (
            Supervisor { state: TimeoutState::Finished, ..s },
            if present {
                TimeoutActionView::StripControls {
                    msg: s.msg,
                    channel: s.channel,
                    update: strip_controls(),
                }
            } else {
                TimeoutActionView::Stop
            },
        ),
        _ => (s, pending(s)),
    }
}

/// The supervisor after it was told `events`, one after the other.
pub open spec fn supervisor_after(s: Supervisor, events: Seq<TimeoutEvent>) -> Supervisor
    decreases events.len(),
{
    if events.len() == 0 {
        s
    } else {
        supervisor_step(supervisor_after(s, events.drop_last()), events.last()).0
    }
}

impl Supervisor {
    /// A supervisor for the entry of message `msg` in `channel` that got
    /// the instance number `instance`, together with its first action: the
    /// full wait.
    pub fn new(msg: u64, channel: u64, instance: u64) -> (started: (Self, TimeoutAction))
        ensures
            started.0 == (Supervisor { msg, channel, instance, state: TimeoutState::Active }),
            started.1.deep_view() == (TimeoutActionView::Wait { seconds: IDLE_SECONDS }),
    {
        (
            Supervisor { msg, channel, instance, state: TimeoutState::Active },
            TimeoutAction::Wait { seconds: IDLE_SECONDS },
        )
    }

    /// Takes in what the driver reports and says what to do next.
    pub fn step(&mut self, event: TimeoutEvent) -> (action: TimeoutAction)
        ensures
            (*final(self), action.deep_view()) == supervisor_step(*old(self), event),
    {
        match (self.state, event) {
            (TimeoutState::Active, TimeoutEvent::Closed) => {
                self.state = TimeoutState::Finished;
                TimeoutAction::Stop
            },
            (TimeoutState::Active, TimeoutEvent::Elapsed) => {
                self.state = TimeoutState::Removing;
                TimeoutAction::Remove { msg: self.msg, instance: self.instance }
            },
            (TimeoutState::Removing, TimeoutEvent::Removed { present }) => {
                self.state = TimeoutState::Finished;
                if present {
                    let update = MessageBuilder::new().components(Vec::new());
                    assert(update.deep_view().components =~= strip_controls().components);
                    TimeoutAction::StripControls {
                        msg: self.msg,
                        channel: self.channel,
                        update,
                    }
                } else {
                    TimeoutAction::Stop
                }
            },
            (TimeoutState::Active, _) => TimeoutAction::Wait { seconds: IDLE_SECONDS },
            (TimeoutState::Removing, _) => TimeoutAction::Remove {
                msg: self.msg,
                instance: self.instance,
            },
            (TimeoutState::Finished, _) => TimeoutAction::Stop,
        }
    }

    /// Whether nothing is left to do.
    pub fn is_finished(&self) -> (finished: bool)
        ensures
            finished == (self.state == TimeoutState::Finished),
    {
        match self.state {
            TimeoutState::Finished => true,
            _ => false,
        }
    }
}

/// Whether every one of `events` is a keepalive.
pub open spec fn all_keepalive(events: Seq<TimeoutEvent>) -> bool {
    forall|i: int| 0 <= i < events.len() ==> events[i] == TimeoutEvent::Keepalive
}

/// A supervisor that has seen nothing but keepalives is still waiting, for
/// the same entry.
pub proof fn lemma_keepalives_keep_waiting(s: Supervisor, events: Seq<TimeoutEvent>)
    requires
        s.state == TimeoutState::Active,
        all_keepalive(events),
    ensures
        supervisor_after(s, events) == s,
    decreases events.len(),
{
    if events.len() > 0 {
        lemma_keepalives_keep_waiting(s, events.drop_last());
    }
}

/// The removal of an entry is asked for exactly when the idle time passes
/// without a keepalive: of a waiting supervisor that has seen nothing but
/// keepalives, the next event leads to the removal if and only if it is
/// the idle time having passed; and every keepalive is answered by a wait
/// of the full idle time.
pub proof fn law_removed_iff_idle(s: Supervisor, events: Seq<TimeoutEvent>, next: TimeoutEvent)
    requires
        s.state == TimeoutState::Active,
        all_keepalive(events),
    ensures
        supervisor_step(supervisor_after(s, events), next).1 is Remove <==> next
            == TimeoutEvent::Elapsed,
        next == TimeoutEvent::Elapsed ==> supervisor_step(supervisor_after(s, events), next).1 == (
            TimeoutActionView::Remove { msg: s.msg, instance: s.instance }
        ),
        next == TimeoutEvent::Keepalive ==> supervisor_step(supervisor_after(s, events), next)
            == (s, TimeoutActionView::Wait { seconds: IDLE_SECONDS }),
{
    lemma_keepalives_keep_waiting(s, events);
}

/// A supervisor stays bound to its entry, never goes back to waiting once
/// the idle time has passed, and asks for a removal only of its own entry.
pub proof fn law_supervisor_is_bound(s: Supervisor, event: TimeoutEvent)
    ensures
        supervisor_step(s, event).0.msg == s.msg,
        supervisor_step(s, event).0.channel == s.channel,
        supervisor_step(s, event).0.instance == s.instance,
        s.state != TimeoutState::Active ==> supervisor_step(s, event).0.state
            != TimeoutState::Active,
        supervisor_step(s, event).1 is Remove ==> supervisor_step(s, event).1 == (
            TimeoutActionView::Remove { msg: s.msg, instance: s.instance }
        ),
        supervisor_step(s, event).1 is StripControls ==> s.state == TimeoutState::Removing
            && event == (TimeoutEvent::Removed { present: true }),
{
}

} // verus!
