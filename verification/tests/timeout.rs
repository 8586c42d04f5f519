use issue_bot::active::timeout::{
    Supervisor, TimeoutAction, TimeoutEvent, TimeoutState, IDLE_SECONDS,
};
use issue_bot::util::builder::MessageBuilder;

fn fresh() -> Supervisor {
    Supervisor::new(10, 20, 3).0
}

fn strip() -> TimeoutAction {
    TimeoutAction::StripControls {
        msg: 10,
        channel: 20,
        update: MessageBuilder { content: None, embed: None, components: Some(Vec::new()) },
    }
}

#[test]
fn idle_time_is_sixty_seconds() {
    assert_eq!(IDLE_SECONDS, 60);
}

#[test]
fn new_supervisor_waits_the_full_idle_time() {
    let (supervisor, action) = Supervisor::new(10, 20, 3);
    assert_eq!(supervisor, Supervisor { msg: 10, channel: 20, instance: 3, state: TimeoutState::Active });
    assert_eq!(action, TimeoutAction::Wait { seconds: 60 });
    assert!(!supervisor.is_finished());
}

#[test]
fn keepalive_restarts_the_wait() {
    let mut supervisor = fresh();
    for _ in 0..5 {
        assert_eq!(supervisor.step(TimeoutEvent::Keepalive), TimeoutAction::Wait { seconds: 60 });
        assert_eq!(supervisor, fresh());
    }
}

#[test]
fn closed_channel_stops_the_supervisor() {
    let mut supervisor = fresh();
    assert_eq!(supervisor.step(TimeoutEvent::Closed), TimeoutAction::Stop);
    assert!(supervisor.is_finished());
}

#[test]
fn elapsed_wait_asks_for_the_removal_of_the_own_entry() {
    let mut supervisor = fresh();
    supervisor.step(TimeoutEvent::Keepalive);
    assert_eq!(supervisor.step(TimeoutEvent::Elapsed), TimeoutAction::Remove { msg: 10, instance: 3 });
    assert_eq!(supervisor.state, TimeoutState::Removing);
}

#[test]
fn removal_of_a_present_entry_is_followed_by_cleanup() {
    let mut supervisor = fresh();
    supervisor.step(TimeoutEvent::Elapsed);
    assert_eq!(supervisor.step(TimeoutEvent::Removed { present: true }), strip());
    assert!(supervisor.is_finished());
}

#[test]
fn removal_of_an_absent_entry_ends_silently() {
    let mut supervisor = fresh();
    supervisor.step(TimeoutEvent::Elapsed);
    assert_eq!(supervisor.step(TimeoutEvent::Removed { present: false }), TimeoutAction::Stop);
    assert!(supervisor.is_finished());
}

#[test]
fn keepalive_after_expiry_has_begun_is_without_effect() {
    let mut supervisor = fresh();
    supervisor.step(TimeoutEvent::Elapsed);
    for event in [TimeoutEvent::Keepalive, TimeoutEvent::Closed, TimeoutEvent::Elapsed] {
        assert_eq!(supervisor.step(event), TimeoutAction::Remove { msg: 10, instance: 3 });
        assert_eq!(supervisor.state, TimeoutState::Removing);
    }
    assert_eq!(supervisor.step(TimeoutEvent::Removed { present: true }), strip());
}

#[test]
fn finished_supervisor_only_stops() {
    let mut supervisor = fresh();
    supervisor.step(TimeoutEvent::Closed);
    for event in [
        TimeoutEvent::Keepalive,
        TimeoutEvent::Closed,
        TimeoutEvent::Elapsed,
        TimeoutEvent::Removed { present: true },
        TimeoutEvent::Removed { present: false },
    ] {
        assert_eq!(supervisor.step(event), TimeoutAction::Stop);
        assert!(supervisor.is_finished());
    }
}

#[test]
fn removal_report_while_waiting_changes_nothing() {
    let mut supervisor = fresh();
    assert_eq!(
        supervisor.step(TimeoutEvent::Removed { present: true }),
        TimeoutAction::Wait { seconds: 60 }
    );
    assert_eq!(supervisor, fresh());
}

#[test]
fn supervisor_stays_bound_to_its_entry() {
    let mut supervisor = fresh();
    for event in [
        TimeoutEvent::Keepalive,
        TimeoutEvent::Elapsed,
        TimeoutEvent::Keepalive,
        TimeoutEvent::Removed { present: true },
        TimeoutEvent::Elapsed,
    ] {
        supervisor.step(event);
        assert_eq!((supervisor.msg, supervisor.channel, supervisor.instance), (10, 20, 3));
    }
}
