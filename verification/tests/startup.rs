use zkstate::paths::{listener_path, listeners_path, payload_path, write_lock_path};
use zkstate::startup::{
    CreateMode, ExpectAction, ExpectEvent, ExpectSession, InitAction, InitEvent, InitSession,
};
use zkstate::{ZkError, ZkState};

type Object = Vec<String>;

fn instance() -> ZkState<Object> {
    ZkState::new("/dir".to_string(), vec!["x".to_string()])
}

fn to_vec(object: &Object) -> Vec<u8> {
    serde_json::to_vec(object).unwrap()
}

fn create(action: Option<InitAction>) -> (String, Vec<u8>, CreateMode) {
    match action {
        Some(InitAction::Create { path, data, mode }) => (path, data, mode),
        other => panic!("expected a node to be created, not {:?}", other),
    }
}

#[test]
fn nodes_stand_below_the_directory() {
    assert_eq!(payload_path("/a/b"), "/a/b/payload");
    assert_eq!(write_lock_path("/a/b"), "/a/b/write_lock");
    assert_eq!(listeners_path("/a/b"), "/a/b/listeners");
    assert_eq!(listener_path("/a/b", "me"), "/a/b/listeners/me");
    assert_eq!(payload_path(""), "/payload");
}

#[test]
fn a_missing_payload_is_created_and_then_pulled() {
    let s = instance();
    let (mut session, path) = s.initialize();
    assert_eq!(path, "/dir/payload");
    let made = create(s.initialize_next(&mut session, InitEvent::Exists(false), to_vec));
    assert_eq!(made, ("/dir".to_string(), vec![], CreateMode::Persistent));
    let made = create(s.initialize_next(&mut session, InitEvent::Created(Ok(())), to_vec));
    assert_eq!(
        made,
        ("/dir/payload".to_string(), br#"["x"]"#.to_vec(), CreateMode::Persistent)
    );
    let action = s.initialize_next(&mut session, InitEvent::Created(Ok(())), to_vec);
    assert!(matches!(action, Some(InitAction::Sync)));
    let made = create(s.initialize_next(&mut session, InitEvent::Synced, to_vec));
    assert_eq!(made, ("/dir/listeners".to_string(), vec![], CreateMode::Persistent));
    let there = InitEvent::Created(Err(ZkError::NodeExists));
    let made = create(s.initialize_next(&mut session, there, to_vec));
    assert_eq!(
        made,
        (format!("/dir/listeners/{}", s.get_id()), vec![], CreateMode::Ephemeral)
    );
    let action = s.initialize_next(&mut session, InitEvent::Created(Ok(())), to_vec);
    assert!(matches!(action, Some(InitAction::Finish(Ok(())))));
    assert!(matches!(session, InitSession::Finished));
}

#[test]
fn an_existing_payload_is_only_pulled() {
    let s = instance();
    let (mut session, _) = s.initialize();
    let action = s.initialize_next(&mut session, InitEvent::Exists(true), to_vec);
    assert!(matches!(action, Some(InitAction::Sync)));
    let mut paths = vec![];
    for ev in [InitEvent::Synced, InitEvent::Created(Ok(()))] {
        paths.push(create(s.initialize_next(&mut session, ev, to_vec)).0);
    }
    assert!(!paths.contains(&"/dir".to_string()));
    assert!(!paths.contains(&"/dir/payload".to_string()));
    let action = s.initialize_next(&mut session, InitEvent::Created(Ok(())), to_vec);
    assert!(matches!(action, Some(InitAction::Finish(Ok(())))));
}

#[test]
fn an_instance_without_its_listener_record_does_not_start() {
    let s = instance();
    let (mut session, _) = s.initialize();
    s.initialize_next(&mut session, InitEvent::Exists(true), to_vec);
    create(s.initialize_next(&mut session, InitEvent::Synced, to_vec));
    let refused = InitEvent::Created(Err(ZkError::NodeExists));
    let made = create(s.initialize_next(&mut session, refused, to_vec));
    assert_eq!(made.0, format!("/dir/listeners/{}", s.get_id()));
    let refused = InitEvent::Created(Err(ZkError::NoAuth));
    let action = s.initialize_next(&mut session, refused, to_vec);
    assert!(matches!(action, Some(InitAction::Finish(Err(ZkError::NoAuth)))));
    assert!(matches!(session, InitSession::Finished));
}

#[test]
fn an_object_is_encoded_only_to_be_written() {
    let s = instance();
    let never = |_: &Object| -> Vec<u8> { panic!("nothing is written") };
    let (mut session, _) = s.initialize();
    let action = s.initialize_next(&mut session, InitEvent::Exists(true), never);
    assert!(matches!(action, Some(InitAction::Sync)));
    create(s.initialize_next(&mut session, InitEvent::Synced, never));
    create(s.initialize_next(&mut session, InitEvent::Created(Ok(())), never));
    let action = s.initialize_next(&mut session, InitEvent::Created(Ok(())), never);
    assert!(matches!(action, Some(InitAction::Finish(Ok(())))));
}

#[test]
fn a_node_that_cannot_be_created_fails_the_start() {
    let s = instance();
    let (mut session, _) = s.initialize();
    create(s.initialize_next(&mut session, InitEvent::Exists(false), to_vec));
    let failed = InitEvent::Created(Err(ZkError::NodeExists));
    let action = s.initialize_next(&mut session, failed, to_vec);
    assert!(matches!(action, Some(InitAction::Finish(Err(ZkError::NodeExists)))));

    let (mut session, _) = s.initialize();
    create(s.initialize_next(&mut session, InitEvent::Exists(false), to_vec));
    create(s.initialize_next(&mut session, InitEvent::Created(Ok(())), to_vec));
    let failed = InitEvent::Created(Err(ZkError::ConnectionLoss));
    let action = s.initialize_next(&mut session, failed, to_vec);
    assert!(matches!(action, Some(InitAction::Finish(Err(ZkError::ConnectionLoss)))));
}

#[test]
fn an_event_that_answers_nothing_is_ignored_at_the_start() {
    let s = instance();
    let (mut session, _) = s.initialize();
    assert!(s.initialize_next(&mut session, InitEvent::Synced, to_vec).is_none());
    assert!(matches!(session, InitSession::Checking));
}

#[test]
fn an_object_that_is_there_is_not_waited_for() {
    let (mut session, path) = ExpectSession::start("/dir");
    assert_eq!(path, "/dir/payload");
    match session.next("/dir", ExpectEvent::Read(Ok(vec![1, 2]))) {
        Some(ExpectAction::Finish(Ok(data))) => assert_eq!(data, vec![1, 2]),
        other => panic!("{:?}", other),
    }
    assert!(session.next("/dir", ExpectEvent::Appeared).is_none());
}

#[test]
fn an_object_that_is_not_there_is_waited_for_and_read() {
    let (mut session, _) = ExpectSession::start("/dir");
    match session.next("/dir", ExpectEvent::Read(Err(ZkError::NoNode))) {
        Some(ExpectAction::AwaitNode(path)) => assert_eq!(path, "/dir/payload"),
        other => panic!("{:?}", other),
    }
    match session.next("/dir", ExpectEvent::Appeared) {
        Some(ExpectAction::Fetch(path)) => assert_eq!(path, "/dir/payload"),
        other => panic!("{:?}", other),
    }
    match session.next("/dir", ExpectEvent::Read(Ok(vec![7]))) {
        Some(ExpectAction::Finish(Ok(data))) => assert_eq!(data, vec![7]),
        other => panic!("{:?}", other),
    }
}

#[test]
fn an_object_that_vanishes_after_the_wait_is_an_error() {
    let (mut session, _) = ExpectSession::start("/dir");
    session.next("/dir", ExpectEvent::Read(Err(ZkError::NoNode)));
    session.next("/dir", ExpectEvent::Appeared);
    match session.next("/dir", ExpectEvent::Read(Err(ZkError::NoNode))) {
        Some(ExpectAction::Finish(Err(e))) => assert_eq!(e, ZkError::NoNode),
        other => panic!("{:?}", other),
    }
}

#[test]
fn an_expected_object_is_decoded_from_the_payload() {
    let s: ZkState<Object> = ZkState::expect("/dir".to_string(), br#"["a","b"]"#, |data: &[u8]| {
        serde_json::from_slice(data).unwrap()
    });
    assert_eq!(s.d_read(false).unwrap(), &vec!["a".to_string(), "b".to_string()]);
    assert_eq!(s.payload_path(), "/dir/payload");
    assert_eq!(s.metadata(), (0, 0));
}

#[test]
fn every_instance_has_a_random_uuid_of_its_own() {
    let (a, b) = (instance(), instance());
    assert_ne!(a.get_id(), b.get_id());
    for s in [&a, &b] {
        let id = uuid::Uuid::parse_str(s.get_id()).unwrap();
        assert_eq!(id.get_version_num(), 4);
        assert_eq!(&id.to_string(), s.get_id());
        assert_eq!(s.get_id().len(), 36);
    }
}
