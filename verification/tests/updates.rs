use serde_json::Value;
use zkstate::update::{UpdateAction, UpdateEvent, UpdateSession};
use zkstate::{ZkError, ZkState, ZkStructError};

type Object = Vec<String>;

fn to_value(o: &Object) -> Value {
    serde_json::to_value(o).unwrap()
}

fn to_vec(o: &Object) -> Vec<u8> {
    serde_json::to_vec(o).unwrap()
}

fn from_value(v: Value) -> Object {
    serde_json::from_value(v).unwrap()
}

/// A node with a version, as the service keeps it.
struct Node {
    data: Vec<u8>,
    version: i32,
}

impl Node {
    fn set(&mut self, data: Vec<u8>, version: Option<i32>) -> Result<(), ZkError> {
        if version == Some(self.version) {
            self.data = data;
            self.version += 1;
            Ok(())
        } else {
            Err(ZkError::BadVersion)
        }
    }
}

fn update(s: &mut ZkState<Object>, node: &mut Node, item: &str) -> Result<(), ZkStructError> {
    let (mut session, latch) = s.update();
    assert_eq!(latch.path, "/dir/write_lock");
    assert_eq!(&latch.id, s.get_id());
    let mut action = session.next(UpdateEvent::LatchStarted(Ok(())));
    loop {
        action = match action.unwrap() {
            UpdateAction::PollLeadership => session.next(UpdateEvent::Leadership(true)),
            UpdateAction::Sleep(_) => session.next(UpdateEvent::Slept),
            UpdateAction::Edit => {
                let item = item.to_string();
                let write = s
                    .edit(&mut session, |o: &mut Object| o.push(item), to_value, to_vec)
                    .unwrap();
                session.next(UpdateEvent::DataSet(node.set(write.data, write.version)))
            }
            UpdateAction::StopLatch => session.next(UpdateEvent::LatchStopped(Ok(()))),
            UpdateAction::Finish(result) => return result,
        };
    }
}

fn instance() -> ZkState<Object> {
    ZkState::new("/dir".to_string(), vec![])
}

fn finish(action: Option<UpdateAction>) -> Result<(), ZkStructError> {
    match action {
        Some(UpdateAction::Finish(result)) => result,
        other => panic!("{:?}", other),
    }
}

#[test]
fn an_update_of_the_latest_version_is_written() {
    let mut s = instance();
    let mut node = Node { data: b"[]".to_vec(), version: 0 };
    assert_eq!(update(&mut s, &mut node, "a"), Ok(()));
    assert_eq!(node.data, br#"["a"]"#.to_vec());
    assert_eq!(node.version, 1);
}

#[test]
fn an_update_of_an_old_version_is_refused() {
    let mut s = instance();
    let mut node = Node { data: br#"["z"]"#.to_vec(), version: 7 };
    assert_eq!(update(&mut s, &mut node, "a"), Err(ZkStructError::StaleWrite));
    assert_eq!(node.data, br#"["z"]"#.to_vec());
    assert_eq!(node.version, 7);
}

#[test]
fn a_second_update_needs_a_pull() {
    let mut s = instance();
    let mut node = Node { data: b"[]".to_vec(), version: 0 };
    assert_eq!(update(&mut s, &mut node, "a"), Ok(()));
    assert_eq!(update(&mut s, &mut node, "b"), Err(ZkStructError::StaleWrite));
    s.state_change(&node.data, node.version, to_value, from_value);
    assert_eq!(s.d_read(false), Ok(&vec!["a".to_string()]));
    assert_eq!(update(&mut s, &mut node, "b"), Ok(()));
    assert_eq!(node.data, br#"["a","b"]"#.to_vec());
}

#[test]
fn two_instances_do_not_overwrite_each_other() {
    let (mut s, mut t) = (instance(), instance());
    let mut node = Node { data: b"[]".to_vec(), version: 0 };
    assert_eq!(update(&mut s, &mut node, "s"), Ok(()));
    assert_eq!(update(&mut t, &mut node, "t"), Err(ZkStructError::StaleWrite));
    t.state_change(&node.data, node.version, to_value, from_value);
    assert_eq!(update(&mut t, &mut node, "t"), Ok(()));
    assert_eq!(node.data, br#"["s","t"]"#.to_vec());
}

#[test]
fn a_lock_that_is_never_free_times_out() {
    let mut session = UpdateSession::Enrolling;
    let mut action = session.next(UpdateEvent::LatchStarted(Ok(())));
    let (mut polls, mut slept) = (0, 0);
    let result = loop {
        action = match action.unwrap() {
            UpdateAction::PollLeadership => {
                polls += 1;
                session.next(UpdateEvent::Leadership(false))
            }
            UpdateAction::Sleep(millis) => {
                slept += millis;
                session.next(UpdateEvent::Slept)
            }
            UpdateAction::Finish(result) => break result,
            other => panic!("{:?}", other),
        };
    };
    assert_eq!(result, Err(ZkStructError::LockAcquireTimeout));
    assert_eq!(polls, 202);
    assert_eq!(slept, 1010);
}

#[test]
fn a_lock_that_becomes_free_late_is_taken() {
    let mut session = UpdateSession::Enrolling;
    session.next(UpdateEvent::LatchStarted(Ok(())));
    for _ in 0..201 {
        assert!(matches!(
            session.next(UpdateEvent::Leadership(false)),
            Some(UpdateAction::Sleep(5))
        ));
        assert!(matches!(
            session.next(UpdateEvent::Slept),
            Some(UpdateAction::PollLeadership)
        ));
    }
    assert!(matches!(session.next(UpdateEvent::Leadership(true)), Some(UpdateAction::Edit)));
}

#[test]
fn a_latch_that_does_not_start_fails_the_update() {
    let mut session = UpdateSession::Enrolling;
    let action = session.next(UpdateEvent::LatchStarted(Err(ZkError::SessionExpired)));
    assert_eq!(finish(action), Err(ZkStructError::ZkError(ZkError::SessionExpired)));
}

#[test]
fn a_failed_write_is_reported_after_the_lock_is_let_go() {
    for (reply, expected) in [
        (ZkError::BadVersion, ZkStructError::StaleWrite),
        (ZkError::ConnectionLoss, ZkStructError::ZkError(ZkError::ConnectionLoss)),
    ] {
        for stopped in [Ok(()), Err(ZkError::NoNode)] {
            let mut session = UpdateSession::Writing;
            assert!(matches!(
                session.next(UpdateEvent::DataSet(Err(reply))),
                Some(UpdateAction::StopLatch)
            ));
            let action = session.next(UpdateEvent::LatchStopped(stopped));
            assert_eq!(finish(action), Err(expected));
        }
    }
}

#[test]
fn a_latch_that_does_not_stop_is_reported() {
    let mut session = UpdateSession::Writing;
    session.next(UpdateEvent::DataSet(Ok(())));
    let action = session.next(UpdateEvent::LatchStopped(Err(ZkError::NoAuth)));
    assert_eq!(finish(action), Err(ZkStructError::ZkError(ZkError::NoAuth)));
}

#[test]
fn an_event_that_answers_nothing_is_ignored_in_an_update() {
    let mut session = UpdateSession::Enrolling;
    assert!(session.next(UpdateEvent::Slept).is_none());
    assert!(matches!(session, UpdateSession::Enrolling));
    let mut session = UpdateSession::Editing;
    assert!(session.next(UpdateEvent::DataSet(Ok(()))).is_none());
    assert!(matches!(session, UpdateSession::Editing));
}
