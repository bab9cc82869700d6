use ptyrec::db::Database;
use ptyrec::records::replay_stream_text;

#[test]
fn create_session_fills_the_record() {
    let mut db = Database::new(&String::from(":memory:")).unwrap();
    let s = db.create_session("/tmp", "/bin/sh").unwrap();
    assert_eq!(s.cwd, "/tmp");
    assert_eq!(s.shell, "/bin/sh");
    assert!(s.ended_at.is_none());
    assert_eq!(s.id.len(), 36);
    assert!(!s.started_at.is_empty());
}

#[test]
fn end_session_sets_ended_at() {
    let mut db = Database::new(&String::from(":memory:")).unwrap();
    let s = db.create_session("/", "/bin/sh").unwrap();
    let before = db.get_session(&s.id).unwrap().unwrap();
    assert!(before.ended_at.is_none());
    db.end_session(&s.id).unwrap();
    let after = db.get_session(&s.id).unwrap().unwrap();
    assert!(after.ended_at.is_some());
}

#[test]
fn get_session_of_unknown_id_is_none() {
    let db = Database::new(&String::from(":memory:")).unwrap();
    assert!(db.get_session("no-such-session").unwrap().is_none());
}

#[test]
fn events_come_back_ascending_and_replay_exactly() {
    let mut db = Database::new(&String::from(":memory:")).unwrap();
    let s = db.create_session("/", "/bin/sh").unwrap();
    db.add_event(&s.id, "user_in", "ls\n").unwrap();
    db.add_event(&s.id, "pty_out", "file_a\n").unwrap();
    db.add_event(&s.id, "user_in", "pwd\n").unwrap();
    db.add_event(&s.id, "pty_out", "/\n").unwrap();
    let evs = db.get_events(&s.id).unwrap();
    assert_eq!(evs.len(), 4);
    for pair in evs.windows(2) {
        assert!(pair[0].ts <= pair[1].ts);
    }
    for e in &evs {
        assert_eq!(e.session_id, s.id);
        assert_eq!(e.id.len(), 36);
    }
    let inputs = replay_stream_text(&evs, &s.id, &String::from("user_in"));
    assert_eq!(inputs, "ls\npwd\n");
    let outputs = replay_stream_text(&evs, &s.id, &String::from("pty_out"));
    assert_eq!(outputs, "file_a\n/\n");
}

#[test]
fn events_of_another_session_do_not_leak() {
    let mut db = Database::new(&String::from(":memory:")).unwrap();
    let a = db.create_session("/", "/bin/sh").unwrap();
    let b = db.create_session("/", "/bin/sh").unwrap();
    db.add_event(&a.id, "user_in", "one").unwrap();
    db.add_event(&b.id, "user_in", "two").unwrap();
    let evs_a = db.get_events(&a.id).unwrap();
    assert_eq!(evs_a.len(), 1);
    assert_eq!(evs_a[0].data, "one");
}

#[test]
fn recent_sessions_respect_the_limit() {
    let mut db = Database::new(&String::from(":memory:")).unwrap();
    db.create_session("/", "/bin/sh").unwrap();
    db.create_session("/", "/bin/sh").unwrap();
    db.create_session("/", "/bin/sh").unwrap();
    assert_eq!(db.get_recent_sessions(2).unwrap().len(), 2);
    assert_eq!(db.get_recent_sessions(10).unwrap().len(), 3);
}

#[test]
fn commands_record_their_lifecycle() {
    let mut db = Database::new(&String::from(":memory:")).unwrap();
    let s = db.create_session("/", "/bin/sh").unwrap();
    let cid = db.create_command(&s.id, "ls -la").unwrap();
    assert_eq!(cid.len(), 36);
    let open = db.get_recent_commands(&s.id, 10).unwrap();
    assert_eq!(open, vec![(String::from("ls -la"), -1)]);
    db.end_command(&s.id, 0).unwrap();
    let done = db.get_recent_commands(&s.id, 10).unwrap();
    assert_eq!(done, vec![(String::from("ls -la"), 0)]);
}

#[test]
fn end_command_with_nothing_open_is_a_no_op() {
    let mut db = Database::new(&String::from(":memory:")).unwrap();
    let s = db.create_session("/", "/bin/sh").unwrap();
    db.end_command(&s.id, 1).unwrap();
    assert!(db.get_recent_commands(&s.id, 10).unwrap().is_empty());
}

#[test]
fn reads_of_an_unknown_session_are_empty() {
    let mut db = Database::new(&String::from(":memory:")).unwrap();
    let s = db.create_session("/", "/bin/sh").unwrap();
    db.add_event(&s.id, "user_in", "kept").unwrap();
    assert!(db.get_events("missing").unwrap().is_empty());
}

#[test]
fn ended_at_is_set_exactly_once() {
    let mut db = Database::new(&String::from(":memory:")).unwrap();
    let s = db.create_session("/", "/bin/sh").unwrap();
    db.end_session(&s.id).unwrap();
    let first = db.get_session(&s.id).unwrap().unwrap().ended_at.unwrap();
    db.end_session(&s.id).unwrap();
    let second = db.get_session(&s.id).unwrap().unwrap().ended_at.unwrap();
    assert_eq!(first, second);
}

#[test]
fn end_closes_the_most_recently_started_open_command() {
    let mut db = Database::new(&String::from(":memory:")).unwrap();
    let s = db.create_session("/", "/bin/sh").unwrap();
    db.create_command(&s.id, "first").unwrap();
    // make sure the second command starts strictly later
    let t0 = ptyrec::db::now_millis();
    while ptyrec::db::now_millis() <= t0 {}
    db.create_command(&s.id, "second").unwrap();
    db.end_command(&s.id, 7).unwrap();
    let cs = db.get_recent_commands(&s.id, 10).unwrap();
    assert_eq!(cs, vec![(String::from("second"), 7), (String::from("first"), -1)]);
}
