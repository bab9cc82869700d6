use ptyrec::db::Database;
use ptyrec::errors::PtyError;
use ptyrec::pump::{input_pump_step, output_pump_step};
use ptyrec::registry::SessionRegistry;

fn mem_db() -> Database {
    Database::new(&String::from(":memory:")).unwrap()
}

#[test]
fn end_with_no_active_session_is_a_no_op() {
    let mut db = mem_db();
    let mut reg = SessionRegistry::new();
    assert!(reg.end_session(&mut db).is_ok());
    assert!(reg.end_session(&mut db).is_ok());
}

#[test]
fn send_and_poll_with_no_active_session_do_nothing() {
    let mut db = mem_db();
    let mut reg = SessionRegistry::new();
    assert!(reg.send_input(&mut db, b"ls\n").is_ok());
    assert_eq!(reg.read_output(&mut db).unwrap(), None);
}

#[test]
fn resize_with_zero_dimension_fails() {
    let mut reg = SessionRegistry::new();
    let r = reg.resize_pty(0, 24);
    assert!(matches!(r, Err(PtyError::Resize(_))));
    let r = reg.resize_pty(80, 0);
    assert!(matches!(r, Err(PtyError::Resize(_))));
}

#[test]
fn second_start_is_refused_while_active() {
    let mut db = mem_db();
    let mut reg = SessionRegistry::new();
    let cwd = String::from("/");
    let shell = String::from("/bin/sh");
    let (sid, _parts) = reg.start_session(&mut db, 80, 24, &cwd, &shell).unwrap();
    assert_eq!(sid.len(), 36);
    let again = reg.start_session(&mut db, 80, 24, &cwd, &shell);
    assert!(matches!(again, Err(PtyError::AlreadyActive)));
    // the first session is untouched: input still goes through
    assert!(reg.send_input(&mut db, b"echo ok\n").is_ok());
    reg.end_session(&mut db).unwrap();
}

#[test]
fn resize_of_an_active_session() {
    let mut db = mem_db();
    let mut reg = SessionRegistry::new();
    let cwd = String::from("/");
    let shell = String::from("/bin/sh");
    let (_sid, _parts) = reg.start_session(&mut db, 80, 24, &cwd, &shell).unwrap();
    assert!(reg.resize_pty(100, 40).is_ok());
    assert!(matches!(reg.resize_pty(0, 40), Err(PtyError::Resize(_))));
    reg.end_session(&mut db).unwrap();
}

#[test]
fn start_again_after_end_succeeds() {
    let mut db = mem_db();
    let mut reg = SessionRegistry::new();
    let cwd = String::from("/");
    let shell = String::from("/bin/sh");
    let (first, _p1) = reg.start_session(&mut db, 80, 24, &cwd, &shell).unwrap();
    reg.end_session(&mut db).unwrap();
    let (second, _p2) = reg.start_session(&mut db, 80, 24, &cwd, &shell).unwrap();
    assert_ne!(first, second);
    reg.end_session(&mut db).unwrap();
}

#[test]
fn session_scenario_input_output_and_close() {
    let mut db = mem_db();
    let mut reg = SessionRegistry::new();
    let cwd = String::from("/");
    let shell = String::from("/bin/sh");
    let (sid, mut parts) = reg.start_session(&mut db, 80, 24, &cwd, &shell).unwrap();

    // submit input; the registry records it as a user_in event
    reg.send_input(&mut db, b"ls\n").unwrap();

    // one writer-pump step takes the chunk and feeds it to the pty
    assert!(input_pump_step(&mut parts.in_rx, &mut parts.writer));

    // within a bounded number of reader-pump steps the shell's
    // output (at least the echo of the input) surfaces in a poll
    let mut got: Option<Vec<u8>> = None;
    for _ in 0..50 {
        let (running, _) = output_pump_step(&mut parts.reader, &mut parts.out_tx);
        if let Ok(Some(chunk)) = reg.read_output(&mut db) {
            got = Some(chunk);
            break;
        }
        if !running {
            break;
        }
    }
    let chunk = got.expect("no output surfaced from the shell");
    assert!(!chunk.is_empty());

    // the session's events so far: user_in first, and some pty_out
    let evs = reg.get_session_events(&db, &sid).unwrap();
    assert!(evs.iter().any(|e| e.kind == "user_in" && e.data == "ls\n"));
    assert!(evs.iter().any(|e| e.kind == "pty_out"));
    let n_before = evs.len();

    // ending the session closes the record
    reg.end_session(&mut db).unwrap();
    let closed = db.get_session(&sid).unwrap().unwrap();
    assert!(closed.ended_at.is_some());

    // and nothing further is appended for it
    reg.send_input(&mut db, b"pwd\n").unwrap();
    assert_eq!(reg.read_output(&mut db).unwrap(), None);
    assert_eq!(reg.get_session_events(&db, &sid).unwrap().len(), n_before);

    // with the handle gone the input queue is closed: the writer
    // pump observes closure and stops
    assert!(!input_pump_step(&mut parts.in_rx, &mut parts.writer));
}

#[test]
fn recent_sessions_come_through_the_registry() {
    let db = mem_db();
    let reg = SessionRegistry::new();
    assert!(reg.get_recent_sessions(&db, 5).unwrap().is_empty());
}
