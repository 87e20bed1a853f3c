use serde_json::Value;
use zkstate::clock::Timestamp;
use zkstate::payload::PullError;
use zkstate::refresh::{handle_zk_watcher, PullRequest, Refresh, WatchedEventType};
use zkstate::update::{UpdateEvent, UpdateSession};
use zkstate::{Change, Key, ZkError, ZkState, ZkStructError};

type Object = Vec<String>;

fn object(items: &[&str]) -> Object {
    items.iter().map(|s| s.to_string()).collect()
}

fn at(secs: i64, nanos: u32) -> Timestamp {
    Timestamp::new(secs, nanos).unwrap()
}

fn instance(items: &[&str]) -> ZkState<Object> {
    ZkState::new_with("me".to_string(), "/dir".to_string(), object(items), at(1000, 0))
}

fn to_value(o: &Object) -> Value {
    serde_json::to_value(o).unwrap()
}

fn to_vec(o: &Object) -> Vec<u8> {
    serde_json::to_vec(o).unwrap()
}

fn from_value(v: Value) -> Object {
    serde_json::from_value(v).unwrap()
}

fn pull(s: &mut ZkState<Object>, raw: &str, version: i32) {
    s.state_change(raw.as_bytes(), version, to_value, from_value);
}

fn session_with_the_lock() -> UpdateSession {
    let mut session = UpdateSession::Enrolling;
    session.next(UpdateEvent::LatchStarted(Ok(())));
    session.next(UpdateEvent::Leadership(true));
    session
}

#[test]
fn a_read_fails_after_thirty_seconds() {
    let s = instance(&["a"]);
    assert_eq!(s.read_at(&at(1000, 0), false), Ok(&object(&["a"])));
    assert_eq!(s.read_at(&at(1030, 0), false), Ok(&object(&["a"])));
    assert_eq!(s.read_at(&at(1030, 999_999), false), Ok(&object(&["a"])));
    assert_eq!(s.read_at(&at(1030, 1_000_000), false), Err(ZkStructError::StaleRead));
    assert_eq!(s.read_at(&at(5000, 0), false), Err(ZkStructError::StaleRead));
    assert_eq!(s.read_at(&at(0, 0), false), Ok(&object(&["a"])));
}

#[test]
fn a_stale_object_is_reported_before_a_poisoned_one() {
    let s = instance(&["a"]);
    assert_eq!(s.read_at(&at(1000, 0), true), Err(ZkStructError::Poisoned));
    assert_eq!(s.read_at(&at(1031, 0), true), Err(ZkStructError::StaleRead));
}

#[test]
fn a_dirty_read_does_not_ask_for_the_age() {
    let s = instance(&["a"]);
    assert_eq!(s.read(false), Err(ZkStructError::StaleRead));
    assert_eq!(s.d_read(false), Ok(&object(&["a"])));
    assert_eq!(s.d_read(true), Err(ZkStructError::Poisoned));
}

#[test]
fn a_new_instance_can_be_read_at_once() {
    let s = ZkState::new("/dir".to_string(), object(&["a"]));
    assert_eq!(s.read(false), Ok(&object(&["a"])));
    assert_eq!(s.read(true), Err(ZkStructError::Poisoned));
}

#[test]
fn verifying_an_object_makes_it_fresh() {
    let mut s = instance(&["a"]);
    s.verified_at(at(2000, 0));
    assert_eq!(s.read_at(&at(2030, 0), false), Ok(&object(&["a"])));
    assert_eq!(s.read_at(&at(2031, 0), false), Err(ZkStructError::StaleRead));
    assert_eq!(s.read(false), Err(ZkStructError::StaleRead));
    s.mark_verified();
    assert_eq!(s.read(false), Ok(&object(&["a"])));
}

#[test]
fn a_pull_replaces_the_object_and_reports_the_changes() {
    let mut s = instance(&["systemd*", "rsync*"]);
    let rx = s.get_update_channel();
    pull(&mut s, r#"["systemd*","rsync*","firefox*"]"#, 5);
    assert_eq!(s.read(false), Ok(&object(&["systemd*", "rsync*", "firefox*"])));
    assert_eq!(s.refresh(Some(5)), Refresh::Verified);
    assert_eq!(s.metadata(), (1, 0));
    assert_eq!(
        rx.try_recv().unwrap(),
        Change::Added(vec![Key::Index(2)], Value::from("firefox*"))
    );
    assert_eq!(s.metadata(), (0, 0));
    assert!(rx.try_recv().is_err());
}

#[test]
fn a_pull_of_the_same_object_reports_nothing() {
    let mut s = instance(&["a"]);
    pull(&mut s, r#"["a"]"#, 9);
    assert_eq!(s.metadata(), (0, 0));
    assert_eq!(s.refresh(Some(9)), Refresh::Verified);
}

#[test]
fn a_payload_that_is_no_json_changes_nothing() {
    let mut s = instance(&["a"]);
    for raw in ["[", "", "[] []", "{'x':1}"] {
        let pulled = s.try_state_change(raw.as_bytes(), 9, to_value, try_from_value);
        assert_eq!(pulled, Err(PullError::NotJson));
    }
    assert_eq!(s.d_read(false), Ok(&object(&["a"])));
    assert_eq!(s.refresh(Some(0)), Refresh::Verified);
    assert_eq!(s.read(false), Err(ZkStructError::StaleRead));
    assert_eq!(s.metadata(), (0, 0));
}

#[test]
fn an_edit_is_reported_and_asks_for_a_conditional_write() {
    let mut s = instance(&["a"]);
    pull(&mut s, r#"["a"]"#, 3);
    let rx = s.get_update_channel();
    let mut session = session_with_the_lock();
    let write = s
        .edit(&mut session, |o: &mut Object| o[0] = "b".to_string(), to_value, to_vec)
        .unwrap();
    assert!(matches!(session, UpdateSession::Writing));
    assert_eq!(write.path, "/dir/payload");
    assert_eq!(write.data, br#"["b"]"#.to_vec());
    assert_eq!(write.version, Some(3));
    assert_eq!(s.d_read(false), Ok(&object(&["b"])));
    assert_eq!(
        rx.try_recv().unwrap(),
        Change::Modified(vec![Key::Index(0)], Value::from("a"), Value::from("b"))
    );
    assert!(rx.try_recv().is_err());
    assert_eq!(s.refresh(Some(3)), Refresh::Verified);
}

#[test]
fn an_own_change_is_reported_once() {
    let mut s = instance(&["a"]);
    let mut session = session_with_the_lock();
    let write = s
        .edit(&mut session, |o: &mut Object| o.push("b".to_string()), to_value, to_vec)
        .unwrap();
    let rx = s.get_update_channel();
    s.state_change(&write.data, 1, to_value, from_value);
    assert_eq!(rx.len(), 1);
    assert_eq!(
        rx.try_recv().unwrap(),
        Change::Added(vec![Key::Index(1)], Value::from("b"))
    );
}

#[test]
fn without_the_lock_nothing_is_edited() {
    let mut s = instance(&["a"]);
    let mut session = UpdateSession::Enrolling;
    let write = s.edit(&mut session, |o: &mut Object| o.clear(), to_value, to_vec);
    assert!(write.is_none());
    assert!(matches!(session, UpdateSession::Enrolling));
    assert_eq!(s.d_read(false), Ok(&object(&["a"])));
    assert_eq!(s.metadata(), (0, 0));
}

#[test]
fn every_receiver_stays_on_the_stream() {
    let mut s = instance(&[]);
    let early = s.get_update_channel();
    pull(&mut s, r#"["a"]"#, 1);
    let late = s.get_update_channel();
    pull(&mut s, r#"["a","b"]"#, 2);
    assert_eq!(s.metadata(), (2, 0));
    assert_eq!(early.try_recv().unwrap(), Change::Added(vec![Key::Index(0)], Value::from("a")));
    assert_eq!(late.try_recv().unwrap(), Change::Added(vec![Key::Index(1)], Value::from("b")));
    assert_eq!(s.metadata(), (0, 0));
}

#[test]
fn the_background_check_pulls_on_drift_only() {
    let mut s = instance(&["a"]);
    assert_eq!(s.refresh(None), Refresh::Skip);
    assert_eq!(s.refresh(Some(0)), Refresh::Verified);
    assert_eq!(s.refresh(Some(1)), Refresh::Resync);
    pull(&mut s, r#"["z"]"#, 1);
    assert_eq!(s.refresh(Some(1)), Refresh::Verified);
    assert_eq!(s.refresh(Some(0)), Refresh::Resync);
}

#[test]
fn a_consistent_read_compares_the_versions() {
    let mut s = instance(&["a"]);
    assert_eq!(s.c_read(Ok(Some(0)), false), Ok(Some(&object(&["a"]))));
    assert_eq!(s.c_read(Ok(Some(4)), false), Ok(None));
    pull(&mut s, r#"["b"]"#, 4);
    assert_eq!(s.c_read(Ok(Some(4)), false), Ok(Some(&object(&["b"]))));
}

#[test]
fn a_consistent_read_fails_without_an_answer() {
    let s = instance(&["a"]);
    assert_eq!(s.c_read(Ok(None), false), Err(ZkStructError::ZkError(ZkError::NoNode)));
    assert_eq!(
        s.c_read(Err(ZkError::ConnectionLoss), false),
        Err(ZkStructError::ZkError(ZkError::ConnectionLoss))
    );
    assert_eq!(s.c_read(Ok(Some(0)), true), Err(ZkStructError::Poisoned));
}

#[test]
fn only_written_data_makes_a_watch_pull() {
    assert!(handle_zk_watcher(WatchedEventType::NodeDataChanged));
    for other in [
        WatchedEventType::Connection,
        WatchedEventType::NodeCreated,
        WatchedEventType::NodeDeleted,
        WatchedEventType::NodeChildrenChanged,
        WatchedEventType::DataWatchRemoved,
        WatchedEventType::ChildWatchRemoved,
    ] {
        assert!(!handle_zk_watcher(other));
    }
}

fn try_from_value(v: Value) -> Option<Object> {
    serde_json::from_value(v).ok()
}

#[test]
fn a_pull_notes_when_it_took_place() {
    let mut s = instance(&["a"]);
    s.state_change_at(br#"["b"]"#, 3, at(2000, 5), to_value, from_value);
    assert_eq!(s.read_at(&at(2030, 5), false), Ok(&object(&["b"])));
    assert_eq!(s.read_at(&at(2030, 1_000_004), false), Ok(&object(&["b"])));
    assert_eq!(s.read_at(&at(2030, 1_000_005), false), Err(ZkStructError::StaleRead));
    assert_eq!(s.refresh(Some(3)), Refresh::Verified);
    assert_eq!(s.metadata(), (1, 0));
}

#[test]
fn a_payload_that_is_no_object_changes_nothing() {
    let mut s = instance(&["a"]);
    let pulled = s.try_state_change(br#"{"x":1}"#, 3, to_value, try_from_value);
    assert_eq!(pulled, Err(PullError::NoObject));
    let pulled = s.try_state_change(b"[", 3, to_value, try_from_value);
    assert_eq!(pulled, Err(PullError::NotJson));
    assert_eq!(s.d_read(false), Ok(&object(&["a"])));
    assert_eq!(s.refresh(Some(0)), Refresh::Verified);
    assert_eq!(s.metadata(), (0, 0));
    assert_eq!(s.read_at(&at(1031, 0), false), Err(ZkStructError::StaleRead));

    let pulled = s.try_state_change(br#"["a","b"]"#, 4, to_value, try_from_value);
    assert_eq!(pulled, Ok(()));
    assert_eq!(s.d_read(false), Ok(&object(&["a", "b"])));
    assert_eq!(s.refresh(Some(4)), Refresh::Verified);
    assert_eq!(s.metadata(), (1, 0));
    assert_eq!(s.read(false), Ok(&object(&["a", "b"])));
}

#[test]
fn metadata_is_the_number_of_waiting_changes_and_zero() {
    assert_eq!(ZkState::<Object>::metadata_with(0), (0, 0));
    assert_eq!(ZkState::<Object>::metadata_with(17), (17, 0));
    let mut s = instance(&[]);
    pull(&mut s, r#"["a","b"]"#, 1);
    let waiting = s.get_update_channel().len();
    assert_eq!(s.metadata(), ZkState::<Object>::metadata_with(waiting));
    s.get_update_channel().try_recv().unwrap();
    assert_eq!(s.metadata(), (waiting - 1, 0));
}

#[test]
fn the_internal_state_is_told() {
    let mut s = instance(&["a"]);
    let (zk_path, epoch, timings, emit_updates) = s.internal();
    assert_eq!((zk_path.as_str(), epoch, timings.parts()), ("/dir", 0, (1000, 0)));
    assert!(emit_updates);
    s.state_change_at(br#"["b"]"#, 7, at(-2, 5), to_value, from_value);
    let (_, epoch, timings, _) = s.internal();
    assert_eq!((epoch, timings.parts()), (7, (-2, 5)));
}

#[test]
fn a_refused_edit_is_not_read_as_consistent() {
    let mut s = instance(&["a"]);
    pull(&mut s, r#"["a"]"#, 3);
    let mut session = session_with_the_lock();
    s.edit(&mut session, |o: &mut Object| o.push("b".to_string()), to_value, to_vec).unwrap();
    session.next(UpdateEvent::DataSet(Err(ZkError::NoAuth)));
    assert_eq!(s.c_read(Ok(Some(3)), false), Ok(None));
    assert_eq!(s.d_read(false), Ok(&object(&["a", "b"])));
    pull(&mut s, r#"["a"]"#, 3);
    assert_eq!(s.c_read(Ok(Some(3)), false), Ok(Some(&object(&["a"]))));
}

#[test]
fn the_id_stays_through_pulls_and_edits() {
    let mut s = ZkState::new("/dir".to_string(), object(&["a"]));
    let id = s.get_id().clone();
    assert_eq!(id.len(), 36);
    pull(&mut s, r#"["b"]"#, 3);
    let mut session = session_with_the_lock();
    s.edit(&mut session, |o: &mut Object| o.clear(), to_value, to_vec).unwrap();
    s.mark_verified();
    assert_eq!(s.get_id(), &id);
}

#[test]
fn the_way_back_is_reported_exchanged() {
    let mut s = instance(&["a", "b"]);
    let rx = s.get_update_channel();
    pull(&mut s, r#"["x"]"#, 1);
    let there: Vec<_> = rx.try_iter().collect();
    pull(&mut s, r#"["a","b"]"#, 2);
    let back: Vec<_> = rx.try_iter().collect();
    let at0 = || vec![Key::Index(0)];
    assert_eq!(
        there,
        vec![
            Change::Modified(at0(), Value::from("a"), Value::from("x")),
            Change::Removed(vec![Key::Index(1)], Value::from("b")),
        ]
    );
    assert_eq!(
        back,
        vec![
            Change::Modified(at0(), Value::from("x"), Value::from("a")),
            Change::Added(vec![Key::Index(1)], Value::from("b")),
        ]
    );
}

#[test]
fn every_data_change_is_pulled_with_a_further_watch() {
    fn reads_the_payload(request: PullRequest) -> bool {
        request.path == "/dir/payload" && request.watch
    }
    let s = instance(&["a"]);
    assert!(reads_the_payload(s.pull_request()));
    for _ in 0..3 {
        let next = s.watch_fired(WatchedEventType::NodeDataChanged);
        assert!(reads_the_payload(next.unwrap()));
    }
    assert!(s.watch_fired(WatchedEventType::NodeDeleted).is_none());
    assert!(s.watch_fired(WatchedEventType::Connection).is_none());
}

#[test]
fn all_receivers_take_from_one_queue() {
    let mut s = instance(&[]);
    let (one, other) = (s.get_update_channel(), s.get_update_channel());
    pull(&mut s, r#"["a","b"]"#, 1);
    assert_eq!((one.len(), other.len(), s.metadata().0), (2, 2, 2));
    one.try_recv().unwrap();
    assert_eq!((one.len(), other.len(), s.metadata().0), (1, 1, 1));
}

#[test]
fn a_second_instance_holds_the_object_of_the_first() {
    let first = instance(&["first"]);
    let stored = to_vec(first.d_read(false).unwrap());
    let mut second = ZkState::new("/dir".to_string(), object(&["second", "more"]));
    second.state_change(&stored, 0, to_value, from_value);
    assert_eq!(second.d_read(false), first.d_read(false));
    assert_eq!(second.refresh(Some(0)), Refresh::Verified);
}

#[test]
fn an_expected_object_is_pulled_silently() {
    let stored = to_vec(&object(&["x", "y"]));
    let mut s: ZkState<Object> = ZkState::expect("/dir".to_string(), &stored, |data: &[u8]| {
        serde_json::from_slice(data).unwrap()
    });
    assert_eq!(s.d_read(false), Ok(&object(&["x", "y"])));
    s.state_change(&stored, 2, to_value, from_value);
    assert_eq!(s.d_read(false), Ok(&object(&["x", "y"])));
    assert_eq!(s.refresh(Some(2)), Refresh::Verified);
    assert_eq!(s.metadata(), (0, 0));
}

#[test]
fn a_second_pull_reports_nothing_more() {
    let mut s = instance(&["a"]);
    pull(&mut s, r#"["b"]"#, 2);
    assert_eq!(s.metadata(), (1, 0));
    pull(&mut s, r#"["b"]"#, 2);
    assert_eq!(s.metadata(), (1, 0));
    assert_eq!(s.d_read(false), Ok(&object(&["b"])));
}

#[test]
fn fields_that_the_object_does_not_keep_are_reported_and_dropped() {
    fn one_field(field: &String) -> Value {
        let mut map = serde_json::Map::new();
        map.insert("my_field".to_string(), Value::String(field.clone()));
        Value::Object(map)
    }
    fn my_field(v: Value) -> Option<String> {
        v.get("my_field")?.as_str().map(|s| s.to_string())
    }
    let raw = br#"{"my_field":"yoyo","x":1}"#;
    let mut s = ZkState::new("/dir".to_string(), "yoyo".to_string());
    s.try_state_change(raw, 1, one_field, my_field).unwrap();
    assert_eq!(s.d_read(false), Ok(&"yoyo".to_string()));
    let change = s.get_update_channel().try_recv().unwrap();
    assert_eq!(change, Change::Added(vec![Key::String("x".to_string())], Value::from(1)));
    assert_eq!(s.metadata(), (0, 0));
    let missing = s.try_state_change(br#"{"x":1}"#, 2, one_field, my_field);
    assert_eq!(missing, Err(PullError::NoObject));
}
