use prust::{CommandQueue, Error, Event, EventStatus, Mem, ReadLock, WaitState, WriteLock};

#[test]
fn status_codes() {
    assert_eq!(EventStatus::from_code(0), EventStatus::Complete);
    assert_eq!(EventStatus::from_code(1), EventStatus::Running);
    assert_eq!(EventStatus::from_code(2), EventStatus::Submitted);
    assert_eq!(EventStatus::from_code(3), EventStatus::Queued);
}

#[test]
fn waiting_twice_is_a_noop_the_second_time() {
    let q = CommandQueue::new(1);
    let mut m = Mem::new(1);
    let mut g = q.read_buffer(&mut m, Ok(Event { id: 4 })).unwrap();
    assert!(g.needs_wait());
    assert_eq!(g.wait(Ok(())), Ok(()));
    assert_eq!(g.state, WaitState::Complete);
    assert!(!g.needs_wait());
    assert_eq!(g.wait(Err(-5)), Ok(()));
    assert_eq!(g.state, WaitState::Complete);
    assert_eq!(g.evt, Event { id: 4 });
}

#[test]
fn failed_wait_is_reported_every_time() {
    let mut g = ReadLock::new(Event { id: 2 });
    assert_eq!(g.wait(Err(-14)), Err(Error::RuntimeWait(-14)));
    assert_eq!(g.state, WaitState::Failed(-14));
    assert!(!g.needs_wait());
    assert_eq!(g.wait(Ok(())), Err(Error::RuntimeWait(-14)));
}

#[test]
fn wait_state_settles_once() {
    let mut s = WaitState::Pending;
    assert!(s.needs_wait());
    assert_eq!(s.settle(Ok(())), Ok(()));
    assert_eq!(s, WaitState::Complete);
    assert_eq!(s.settle(Err(-1)), Ok(()));
    assert_eq!(s, WaitState::Complete);
}

#[test]
fn write_lock_starts_pending() {
    let mut g = WriteLock::new(Event { id: 8 });
    assert_eq!(g.state, WaitState::Pending);
    assert!(g.needs_wait());
    assert_eq!(g.wait(Ok(())), Ok(()));
    assert_eq!(g.wait(Ok(())), Ok(()));
}
