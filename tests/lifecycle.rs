use nozomi_tproxy::guard::{GuardError, GuardState, RedirectionGuard};
use nozomi_tproxy::plan::{setup_effects, teardown_effects, Effect, RedirectionKey, Strategy};
use nozomi_tproxy::supervisor::{
    select_session, Action, ConfigError, Event, Mode, Session, Supervisor,
};

#[test]
fn guard_acquire_then_release() {
    let key = RedirectionKey::new(4242, 1081, Strategy::Redirect);
    let mut g = RedirectionGuard::new(key);
    assert_eq!(g.state(), GuardState::Uninitialized);
    assert_eq!(g.key(), key);
    assert_eq!(g.acquire_plan(), setup_effects(&key));
    assert_eq!(g.complete_acquire(Ok(())), Ok(()));
    assert_eq!(g.state(), GuardState::Active);
    assert!(g.acquire_plan().is_empty());
    assert_eq!(g.complete_acquire(Ok(())), Ok(()));
    let t = g.release();
    assert_eq!(t, teardown_effects(&setup_effects(&key)));
    assert_eq!(g.state(), GuardState::Released);
}

#[test]
fn second_release_issues_nothing() {
    let key = RedirectionKey::new(1, 1081, Strategy::TransparentProxy);
    let mut g = RedirectionGuard::new(key);
    g.complete_acquire(Ok(())).unwrap();
    assert_eq!(g.release().len(), 5);
    assert!(g.release().is_empty());
    assert!(g.release().is_empty());
    assert_eq!(g.state(), GuardState::Released);
    assert_eq!(g.complete_acquire(Ok(())), Err(GuardError::AlreadyReleased));
    assert!(g.acquire_plan().is_empty());
}

#[test]
fn release_before_setup_issues_nothing() {
    let mut g = RedirectionGuard::new(RedirectionKey::new(3, 80, Strategy::Redirect));
    assert!(g.release().is_empty());
    assert_eq!(g.state(), GuardState::Uninitialized);
}

#[test]
fn setup_failure_leaves_group_behind() {
    let key = RedirectionKey::new(4242, 1081, Strategy::Redirect);
    let mut g = RedirectionGuard::new(key);
    // The chain effect (index 1) failed after the group was created.
    assert_eq!(g.complete_acquire(Err(1)), Err(GuardError::SetupFailed { failed_at: 1 }));
    assert_eq!(g.state(), GuardState::Uninitialized);
    assert_eq!(g.left_behind(1), vec![Effect::Enroll { pid: 4242, class_id: 1081 }]);
    assert!(g.release().is_empty());
}

#[test]
fn teardown_failure_is_inconsistent_state() {
    let g = RedirectionGuard::new(RedirectionKey::new(5, 1081, Strategy::Redirect));
    assert_eq!(g.complete_release(Ok(())), Ok(()));
    assert_eq!(
        g.complete_release(Err(2)),
        Err(GuardError::InconsistentKernelState { failed_at: 2 })
    );
}

#[test]
fn attach_interrupt_releases_once() {
    let mut s = Supervisor::new(Mode::Attach);
    assert_eq!(s.step(Event::Polled { running: true }), Action::Wait);
    assert_eq!(s.step(Event::Interrupted), Action::ClearRunning);
    assert_eq!(s.step(Event::Interrupted), Action::ClearRunning);
    assert_eq!(s.step(Event::Polled { running: false }), Action::Release);
    assert!(s.released);
    assert_eq!(s.step(Event::Polled { running: false }), Action::Done);
    assert_eq!(s.step(Event::Exited), Action::Done);
}

#[test]
fn spawn_exit_releases_once() {
    let mut s = Supervisor::new(Mode::Spawn);
    assert_eq!(s.step(Event::Interrupted), Action::Notice);
    assert!(!s.released);
    assert_eq!(s.step(Event::Exited), Action::Release);
    assert_eq!(s.step(Event::Interrupted), Action::Notice);
    assert_eq!(s.step(Event::Exited), Action::Done);
}

#[test]
fn attach_transparent_interrupt_scenario() {
    let session = select_session(1081, true, Some(4242), false, 1).unwrap();
    assert_eq!(session.mode, Mode::Attach);
    let key = session.key;
    assert_eq!(key, RedirectionKey::new(4242, 1081, Strategy::TransparentProxy));
    let mut g = RedirectionGuard::new(key);
    let setup = g.acquire_plan();
    assert_eq!(setup.len(), 5);
    assert_eq!(setup[0], Effect::AddRoutingRule { mark: 4242 });
    assert_eq!(setup[1], Effect::AddLocalRoute { mark: 4242 });
    assert_eq!(setup[2], Effect::Enroll { pid: 4242, class_id: 1081 });
    g.complete_acquire(Ok(())).unwrap();
    let mut s = Supervisor::new(session.mode);
    assert_eq!(s.step(Event::Polled { running: true }), Action::Wait);
    assert_eq!(s.step(Event::Interrupted), Action::ClearRunning);
    assert_eq!(s.step(Event::Polled { running: false }), Action::Release);
    let down = g.release();
    assert_eq!(down.len(), 5);
    for i in 0..5 {
        assert_eq!(down[i], setup[4 - i].inverse());
    }
}

#[test]
fn session_selection() {
    assert_eq!(
        select_session(1081, false, None, true, 99),
        Ok(Session { mode: Mode::Spawn, key: RedirectionKey::new(99, 1081, Strategy::Redirect) })
    );
    assert_eq!(
        select_session(8080, false, Some(12), false, 99),
        Ok(Session { mode: Mode::Attach, key: RedirectionKey::new(12, 8080, Strategy::Redirect) })
    );
    assert_eq!(select_session(1081, true, None, false, 99), Err(ConfigError::MissingCommand));
}
