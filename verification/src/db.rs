//! The durable event store, an insert-only log in SQLite reached
//! through rusqlite. The store itself is an external collaborator:
//! each SQL statement sits behind a trusted wrapper, and the handle
//! carries an abstract log of every event appended through it, so
//! that recording has exact contracts even though the disk does not.

use vstd::prelude::*;
use vstd::string::StringExecFns;
use crate::errors::StoreError;
use crate::records::{lex_le, Event, Session};

verus! {

#[verifier::external_type_specification]
#[verifier::external_body]
pub struct ExConnection(rusqlite::Connection);

/// The text that a byte buffer is persisted as; a function of the
/// bytes alone.
pub uninterp spec fn lossy_text(b: Seq<u8>) -> Seq<char>;

/// Relies on String::from_utf8_lossy: replaces invalid UTF-8 with
/// the replacement character; the result depends on the bytes alone,
/// and no bytes means no text.
#[verifier::external_body]
pub fn utf8_lossy(data: &[u8]) -> (r: String)
    ensures
        r@ == lossy_text(data@),
        data@.len() == 0 ==> r@.len() == 0,
{
    String::from_utf8_lossy(data).to_string()
}

/// Relies on uuid::Uuid::new_v4 and its display form: a fresh random
/// id in the hyphenated form, which is 36 characters long. Relies on
/// the OS random source working: uuid aborts the process if it does
/// not, and offers no fallible variant for v4.
#[verifier::external_body]
pub fn new_uuid() -> (r: String)
    ensures
        r@.len() == 36,
{
    uuid::Uuid::new_v4().to_string()
}

/// Relies on chrono::Utc::now and DateTime::to_rfc3339: the current
/// time as a non-empty RFC 3339 text; nothing more is assumed of the
/// clock's value. Relies on the system clock not sitting before the
/// Unix epoch: chrono panics there and offers no fallible now.
#[verifier::external_body]
pub fn now_rfc3339() -> (r: String)
    ensures
        r@.len() > 0,
{
    chrono::Utc::now().to_rfc3339()
}

/// Relies on chrono::Utc::now and DateTime::timestamp_millis: the
/// current time in milliseconds since the epoch; nothing is assumed
/// of the clock's value, and the same pre-epoch caution holds.
#[verifier::external_body]
pub fn now_millis() -> (r: i64) {
    chrono::Utc::now().timestamp_millis()
}

/// Relies on rusqlite::Connection::open: opens or creates the
/// database at the given path.
#[verifier::external_body]
fn open_connection(path: &String) -> (r: Result<rusqlite::Connection, String>) {
    match rusqlite::Connection::open(path.as_str()) {
        Ok(c) => Ok(c),
        Err(e) => Err(e.to_string()),
    }
}

/// Relies on rusqlite::Connection::execute_batch: runs the schema
/// statements, creating the three tables and their indexes if they
/// do not exist.
#[verifier::external_body]
fn create_schema(conn: &rusqlite::Connection) -> (r: Result<(), String>) {
    let sql = "CREATE TABLE IF NOT EXISTS sessions (id TEXT PRIMARY KEY, started_at TEXT NOT NULL, ended_at TEXT, cwd TEXT, shell TEXT);
        CREATE TABLE IF NOT EXISTS events (id TEXT PRIMARY KEY, session_id TEXT NOT NULL, ts TEXT NOT NULL, kind TEXT NOT NULL, data TEXT NOT NULL, FOREIGN KEY(session_id) REFERENCES sessions(id));
        CREATE INDEX IF NOT EXISTS idx_events_session_ts ON events(session_id, ts);
        CREATE TABLE IF NOT EXISTS commands (id TEXT PRIMARY KEY, session_id TEXT NOT NULL, started_at INTEGER NOT NULL, ended_at INTEGER, exit_code INTEGER, input TEXT, FOREIGN KEY(session_id) REFERENCES sessions(id));
        CREATE INDEX IF NOT EXISTS idx_commands_session ON commands(session_id);";
    conn.execute_batch(sql).map_err(|e| e.to_string())
}

/// Relies on rusqlite::Connection::execute: inserts one session row,
/// with its ended_at still null.
#[verifier::external_body]
fn sql_insert_session(
    conn: &rusqlite::Connection,
    id: &String,
    started_at: &String,
    cwd: &String,
    shell: &String,
) -> (r: Result<(), String>) {
    conn.execute(
        "INSERT INTO sessions (id, started_at, cwd, shell) VALUES (?1, ?2, ?3, ?4)",
        (id.as_str(), started_at.as_str(), cwd.as_str(), shell.as_str()),
    ).map(|_| ()).map_err(|e| e.to_string())
}

/// Relies on rusqlite::Connection::execute: sets the session row's
/// ended_at, only where it is still null — an end timestamp, once
/// set, is never overwritten. SQLite statements are atomic: on an
/// error nothing changed.
#[verifier::external_body]
fn sql_mark_session_ended(
    conn: &rusqlite::Connection,
    ended_at: &String,
    session_id: &str,
) -> (r: Result<(), String>) {
    conn.execute(
        "UPDATE sessions SET ended_at = ?1 WHERE id = ?2 AND ended_at IS NULL",
        (ended_at.as_str(), session_id),
    ).map(|_| ()).map_err(|e| e.to_string())
}

/// Relies on rusqlite::Connection::execute: inserts one event row.
#[verifier::external_body]
fn sql_insert_event(conn: &rusqlite::Connection, e: &Event) -> (r: Result<(), String>) {
    conn.execute(
        "INSERT INTO events (id, session_id, ts, kind, data) VALUES (?1, ?2, ?3, ?4, ?5)",
        (e.id.as_str(), e.session_id.as_str(), e.ts.as_str(), e.kind.as_str(), e.data.as_str()),
    ).map(|_| ()).map_err(|e| e.to_string())
}

/// Relies on rusqlite::Connection::query_row and Row::get: reads the
/// session row with the given id, if any; the `WHERE id = ?1` clause
/// means a found row carries exactly the requested id.
#[verifier::external_body]
fn sql_select_session(conn: &rusqlite::Connection, session_id: &str) -> (r: Result<
    Option<Session>,
    String,
>)
    ensures
        r matches Ok(found) && found matches Some(s) ==> s.id@ == session_id@,
{
    let q = "SELECT id, started_at, ended_at, cwd, shell FROM sessions WHERE id = ?1";
    let row = conn.query_row(q, (session_id,), |row| {
        Ok(Session { id: row.get(0)?, started_at: row.get(1)?, ended_at: row.get(2)?, cwd: row.get(3)?, shell: row.get(4)? })
    });
    match row {
        Ok(s) => Ok(Some(s)),
        Err(rusqlite::Error::QueryReturnedNoRows) => Ok(None),
        Err(e) => Err(e.to_string()),
    }
}

/// Relies on rusqlite::Connection::prepare, Statement::query_map and
/// Row::get: reads a session's event rows. The `WHERE` clause means
/// every returned event carries the requested session id; `ORDER BY
/// ts ASC` under SQLite's default TEXT collation means the
/// timestamps come lexicographically non-decreasing.
#[verifier::external_body]
fn sql_select_events(conn: &rusqlite::Connection, session_id: &str) -> (r: Result<
    Vec<Event>,
    String,
>)
    ensures
        r matches Ok(v) ==> forall|i: int|
            0 <= i < v@.len() ==> (#[trigger] v@[i]).session_id@ == session_id@,
        r matches Ok(v) ==> forall|i: int|
            0 <= i && i + 1 < v@.len() ==> lex_le((#[trigger] v@[i]).ts@, v@[i + 1].ts@),
{
    let q = "SELECT id, session_id, ts, kind, data FROM events WHERE session_id = ?1 ORDER BY ts ASC";
    let mut stmt = conn.prepare(q).map_err(|e| e.to_string())?;
    let rows = stmt.query_map((session_id,), |row| {
        Ok(Event { id: row.get(0)?, session_id: row.get(1)?, ts: row.get(2)?, kind: row.get(3)?, data: row.get(4)? })
    }).map_err(|e| e.to_string())?;
    rows.collect::<Result<Vec<Event>, rusqlite::Error>>().map_err(|e| e.to_string())
}

/// Relies on rusqlite::Connection::prepare, Statement::query_map and
/// Row::get: reads the most recently started session rows. `LIMIT`
/// bounds the count; `ORDER BY started_at DESC` under SQLite's
/// default TEXT collation means start timestamps come newest first.
#[verifier::external_body]
fn sql_select_recent_sessions(conn: &rusqlite::Connection, limit: usize) -> (r: Result<
    Vec<Session>,
    String,
>)
    ensures
        r matches Ok(v) ==> v@.len() <= limit,
        r matches Ok(v) ==> forall|i: int|
            0 <= i && i + 1 < v@.len() ==> lex_le((#[trigger] v@[i + 1]).started_at@, v@[i].started_at@),
{
    let q = "SELECT id, started_at, ended_at, cwd, shell FROM sessions ORDER BY started_at DESC LIMIT ?1";
    let mut stmt = conn.prepare(q).map_err(|e| e.to_string())?;
    let rows = stmt.query_map((limit as i64,), |row| {
        Ok(Session { id: row.get(0)?, started_at: row.get(1)?, ended_at: row.get(2)?, cwd: row.get(3)?, shell: row.get(4)? })
    }).map_err(|e| e.to_string())?;
    rows.collect::<Result<Vec<Session>, rusqlite::Error>>().map_err(|e| e.to_string())
}

/// Relies on rusqlite::Connection::execute: inserts one command row,
/// with its ended_at still null.
#[verifier::external_body]
fn sql_insert_command(
    conn: &rusqlite::Connection,
    id: &String,
    session_id: &str,
    started_at_ms: i64,
    input: &str,
) -> (r: Result<(), String>) {
    conn.execute(
        "INSERT INTO commands (id, session_id, started_at, input) VALUES (?1, ?2, ?3, ?4)",
        (id.as_str(), session_id, started_at_ms, input),
    ).map(|_| ()).map_err(|e| e.to_string())
}

/// Relies on rusqlite::Connection::query_row and Row::get: the id of
/// the most recently started command of the session that has no end
/// yet, if any.
#[verifier::external_body]
fn sql_latest_open_command(conn: &rusqlite::Connection, session_id: &str) -> (r: Result<
    Option<String>,
    String,
>) {
    let row: Result<String, rusqlite::Error> = conn.query_row(
        "SELECT id FROM commands WHERE session_id = ?1 AND ended_at IS NULL ORDER BY started_at DESC LIMIT 1",
        (session_id,),
        |row| row.get(0),
    );
    match row {
        Ok(id) => Ok(Some(id)),
        Err(rusqlite::Error::QueryReturnedNoRows) => Ok(None),
        Err(e) => Err(e.to_string()),
    }
}

/// Relies on rusqlite::Connection::execute: sets a command row's
/// ended_at and exit_code.
#[verifier::external_body]
fn sql_finish_command(
    conn: &rusqlite::Connection,
    ended_at_ms: i64,
    exit_code: i32,
    id: &String,
) -> (r: Result<(), String>) {
    conn.execute(
        "UPDATE commands SET ended_at = ?1, exit_code = ?2 WHERE id = ?3",
        (ended_at_ms, exit_code, id.as_str()),
    ).map(|_| ()).map_err(|e| e.to_string())
}

/// Relies on rusqlite::Connection::prepare, Statement::query_map and
/// Row::get: the most recent commands' input and exit code, newest
/// first by `ORDER BY started_at DESC`, at most `LIMIT` of them.
/// `COALESCE` turns a null exit code — a command that has not ended
/// — into -1; the start timestamps the order rests on are not part
/// of the result, so only the count can be stated of it.
#[verifier::external_body]
fn sql_select_recent_commands(
    conn: &rusqlite::Connection,
    session_id: &str,
    limit: usize,
) -> (r: Result<Vec<(String, i32)>, String>)
    ensures
        r matches Ok(v) ==> v@.len() <= limit,
{
    let q = "SELECT input, COALESCE(exit_code, -1) FROM commands WHERE session_id = ?1 ORDER BY started_at DESC LIMIT ?2";
    let mut stmt = conn.prepare(q).map_err(|e| e.to_string())?;
    let rows = stmt.query_map((session_id, limit as i64), |row| Ok((row.get(0)?, row.get(1)?)))
        .map_err(|e| e.to_string())?;
    rows.collect::<Result<Vec<(String, i32)>, rusqlite::Error>>().map_err(|e| e.to_string())
}

/// One command created through this handle, as the model carries
/// it: its exit code is nothing while the command is open.
pub struct CommandRecord {
    pub id: Seq<char>,
    pub session_id: Seq<char>,
    pub started_at_ms: int,
    pub input: Seq<char>,
    pub exit_code: Option<int>,
}

/// Whether the model holds an open command of the session.
pub open spec fn has_open_command(m: Seq<CommandRecord>, sid: Seq<char>) -> bool {
    exists|i: int|
        0 <= i < m.len() && (#[trigger] m[i]).session_id == sid && m[i].exit_code is None
}

/// The store's targeting rule, on the model: the index of the open
/// command of the session with the greatest start time — the later
/// created one among equal start times — or -1 when none is open.
pub open spec fn latest_open_index(m: Seq<CommandRecord>, sid: Seq<char>) -> int
    decreases m.len(),
{
    if m.len() == 0 {
        -1
    } else {
        let rest = latest_open_index(m.drop_last(), sid);
        let last = m.len() - 1;
        if m[last].session_id == sid && m[last].exit_code is None {
            if rest >= 0 && m[rest].started_at_ms > m[last].started_at_ms {
                rest
            } else {
                last
            }
        } else {
            rest
        }
    }
}

/// `latest_open_index` names an open command of the session exactly
/// when one exists, and no other open command of the session starts
/// later (nor, at an equal start time, was created later).
pub proof fn lemma_latest_open_index(m: Seq<CommandRecord>, sid: Seq<char>)
    ensures
        has_open_command(m, sid) <==> latest_open_index(m, sid) >= 0,
        has_open_command(m, sid) ==> ({
            let i = latest_open_index(m, sid);
            &&& 0 <= i < m.len()
            &&& m[i].session_id == sid
            &&& m[i].exit_code is None
            &&& forall|j: int|
                0 <= j < m.len() && (#[trigger] m[j]).session_id == sid && m[j].exit_code is None
                    ==> m[j].started_at_ms < m[i].started_at_ms || (m[j].started_at_ms
                    == m[i].started_at_ms && j <= i)
        }),
    decreases m.len(),
{
    if m.len() == 0 {
    } else {
        let prefix = m.drop_last();
        lemma_latest_open_index(prefix, sid);
        let last = m.len() - 1;
        assert(forall|j: int| 0 <= j < prefix.len() ==> prefix[j] == m[j]);
        if has_open_command(prefix, sid) {
            let w = choose|i: int|
                0 <= i < prefix.len() && (#[trigger] prefix[i]).session_id == sid
                    && prefix[i].exit_code is None;
            assert(m[w].session_id == sid && m[w].exit_code is None);
        }
        if has_open_command(m, sid) && !(m[last].session_id == sid && m[last].exit_code is None) {
            let w = choose|i: int|
                0 <= i < m.len() && (#[trigger] m[i]).session_id == sid && m[i].exit_code is None;
            assert(prefix[w].session_id == sid && prefix[w].exit_code is None);
        }
    }
}

/// The durable store of sessions, events and commands.
pub struct Database {
    conn: rusqlite::Connection,
    log: Ghost<Seq<Event>>,
    sessions: Ghost<Map<Seq<char>, bool>>,
    commands: Ghost<Seq<CommandRecord>>,
}

impl Database {
    /// The events appended through this handle, in order of append.
    pub closed spec fn events_log(&self) -> Seq<Event> {
        self.log@
    }

    /// The sessions created through this handle: each id mapped to
    /// whether its end has been recorded. An insert that succeeded
    /// means no earlier row had that id, so the store's effect on
    /// these rows is exactly known; rows from other handles or
    /// earlier runs are outside the model.
    pub closed spec fn sessions_model(&self) -> Map<Seq<char>, bool> {
        self.sessions@
    }

    /// The commands created through this handle, in order of
    /// creation, each with its exit code once recorded. Rows from
    /// other handles or earlier runs are outside the model, and ties
    /// on the start time are broken by the store; the model favours
    /// the later created command, as the store's clock-ordered rows
    /// do whenever creation order follows the clock.
    pub closed spec fn commands_model(&self) -> Seq<CommandRecord> {
        self.commands@
    }

    /// Open (or create) the store at the given path and make sure
    /// the three tables and their indexes exist.
    pub fn new(db_path: &String) -> (r: Result<Database, StoreError>)
        ensures
            r matches Ok(db) ==> db.events_log() == Seq::<Event>::empty()
                && db.sessions_model() == Map::<Seq<char>, bool>::empty()
                && db.commands_model() == Seq::<CommandRecord>::empty(),
    {
        let conn = match open_connection(db_path) {
            Ok(c) => c,
            Err(m) => {
                return Err(StoreError { message: m });
            },
        };
        match create_schema(&conn) {
            Ok(u) => u,
            Err(m) => {
                return Err(StoreError { message: m });
            },
        }
        let ghost none: Seq<Event> = Seq::empty();
        let ghost no_sessions: Map<Seq<char>, bool> = Map::empty();
        let ghost no_commands: Seq<CommandRecord> = Seq::empty();
        Ok(Database {
            conn,
            log: Ghost(none),
            sessions: Ghost(no_sessions),
            commands: Ghost(no_commands),
        })
    }

    /// Record the start of a session: a fresh id, the current time as
    /// its start, no end yet, and the given working directory and
    /// shell. On success the new session joins this handle's model
    /// as open.
    pub fn create_session(&mut self, cwd: &str, shell: &str) -> (r: Result<Session, StoreError>)
        ensures
            final(self).events_log() == old(self).events_log(),
            final(self).commands_model() == old(self).commands_model(),
            r matches Ok(s) ==> s.cwd@ == cwd@ && s.shell@ == shell@ && s.ended_at is None
                && s.id@.len() == 36 && s.started_at@.len() > 0 && final(self).sessions_model()
                == old(self).sessions_model().insert(s.id@, false),
            r is Err ==> final(self).sessions_model() == old(self).sessions_model(),
    {
        let session = Session {
            id: new_uuid(),
            started_at: now_rfc3339(),
            ended_at: None,
            cwd: String::from_str(cwd),
            shell: String::from_str(shell),
        };
        match sql_insert_session(&self.conn, &session.id, &session.started_at, &session.cwd,
            &session.shell) {
            Ok(u) => u,
            Err(m) => {
                return Err(StoreError { message: m });
            },
        }
        let ghost opened = self.sessions@.insert(session.id@, false);
        self.sessions = Ghost(opened);
        Ok(session)
    }

    /// Record the end of a session: set its ended_at to the current
    /// time in the durable store, where it is not set already — an
    /// end, once recorded, is never overwritten. On success a
    /// session of this handle is marked ended in the model; the call
    /// is idempotent.
    pub fn end_session(&mut self, session_id: &str) -> (r: Result<(), StoreError>)
        ensures
            final(self).events_log() == old(self).events_log(),
            final(self).commands_model() == old(self).commands_model(),
            r is Ok && old(self).sessions_model().contains_key(session_id@) ==> final(self).sessions_model() == old(self).sessions_model().insert(session_id@, true),
            r is Ok && !old(self).sessions_model().contains_key(session_id@) ==> final(self).sessions_model() == old(self).sessions_model(),
            r is Err ==> final(self).sessions_model() == old(self).sessions_model(),
    {
        let ended_at = now_rfc3339();
        match sql_mark_session_ended(&self.conn, &ended_at, session_id) {
            Ok(u) => {
                let ghost closed = if self.sessions@.contains_key(session_id@) {
                    self.sessions@.insert(session_id@, true)
                } else {
                    self.sessions@
                };
                self.sessions = Ghost(closed);
                Ok(u)
            },
            Err(m) => Err(StoreError { message: m }),
        }
    }

    /// Append one event: a fresh id, the current time, and exactly
    /// the given session, kind and payload. On failure nothing is
    /// appended.
    pub fn add_event(&mut self, session_id: &str, kind: &str, data: &str) -> (r: Result<
        (),
        StoreError,
    >)
        ensures
            r is Ok ==> ({
                let lg = final(self).events_log();
                lg.len() == old(self).events_log().len() + 1
                    && lg == old(self).events_log().push(lg.last())
                    && lg.last().session_id@ == session_id@
                    && lg.last().kind@ == kind@
                    && lg.last().data@ == data@
                    && lg.last().id@.len() == 36
                    && lg.last().ts@.len() > 0
            }),
            r is Err ==> final(self).events_log() == old(self).events_log(),
            final(self).sessions_model() == old(self).sessions_model(),
            final(self).commands_model() == old(self).commands_model(),
    {
        let ev = Event {
            id: new_uuid(),
            session_id: String::from_str(session_id),
            ts: now_rfc3339(),
            kind: String::from_str(kind),
            data: String::from_str(data),
        };
        match sql_insert_event(&self.conn, &ev) {
            Ok(u) => u,
            Err(m) => {
                return Err(StoreError { message: m });
            },
        }
        let ghost extended = self.log@.push(ev);
        self.log = Ghost(extended);
        Ok(())
    }

    /// Read one session's record from the durable store, if present;
    /// a found record carries exactly the requested id.
    pub fn get_session(&self, session_id: &str) -> (r: Result<Option<Session>, StoreError>)
        ensures
            r matches Ok(found) && found matches Some(s) ==> s.id@ == session_id@,
    {
        match sql_select_session(&self.conn, session_id) {
            Ok(s) => Ok(s),
            Err(m) => Err(StoreError { message: m }),
        }
    }

    /// Read one session's events from the durable store: every
    /// returned event belongs to the requested session, and the
    /// timestamps come lexicographically non-decreasing.
    pub fn get_events(&self, session_id: &str) -> (r: Result<Vec<Event>, StoreError>)
        ensures
            r matches Ok(v) ==> forall|i: int|
                0 <= i < v@.len() ==> (#[trigger] v@[i]).session_id@ == session_id@,
            r matches Ok(v) ==> forall|i: int|
                0 <= i && i + 1 < v@.len() ==> lex_le((#[trigger] v@[i]).ts@, v@[i + 1].ts@),
    {
        match sql_select_events(&self.conn, session_id) {
            Ok(es) => Ok(es),
            Err(m) => Err(StoreError { message: m }),
        }
    }

    /// Read the most recently started sessions, newest first by
    /// start timestamp, at most `limit` of them.
    pub fn get_recent_sessions(&self, limit: usize) -> (r: Result<Vec<Session>, StoreError>)
        ensures
            r matches Ok(v) ==> v@.len() <= limit,
            r matches Ok(v) ==> forall|i: int|
                0 <= i && i + 1 < v@.len() ==> lex_le(
                    (#[trigger] v@[i + 1]).started_at@,
                    v@[i].started_at@,
                ),
    {
        match sql_select_recent_sessions(&self.conn, limit) {
            Ok(ss) => Ok(ss),
            Err(m) => Err(StoreError { message: m }),
        }
    }

    /// Record the start of a shell command within a session: one
    /// open command row with a fresh id, the given session and
    /// input, and the current time as its start. On success exactly
    /// that command joins the model, open; on failure nothing does.
    pub fn create_command(&mut self, session_id: &str, input: &str) -> (r: Result<
        String,
        StoreError,
    >)
        ensures
            final(self).events_log() == old(self).events_log(),
            final(self).sessions_model() == old(self).sessions_model(),
            r is Err ==> final(self).commands_model() == old(self).commands_model(),
            r matches Ok(id) ==> id@.len() == 36 && ({
                let cm = final(self).commands_model();
                cm.len() == old(self).commands_model().len() + 1
                    && cm == old(self).commands_model().push(cm.last())
                    && cm.last().id == id@
                    && cm.last().session_id == session_id@
                    && cm.last().input == input@
                    && cm.last().exit_code is None
            }),
    {
        let id = new_uuid();
        let started_at = now_millis();
        match sql_insert_command(&self.conn, &id, session_id, started_at, input) {
            Ok(u) => u,
            Err(m) => {
                return Err(StoreError { message: m });
            },
        }
        let ghost rec = CommandRecord {
            id: id@,
            session_id: session_id@,
            started_at_ms: started_at as int,
            input: input@,
            exit_code: None,
        };
        let ghost grown = self.commands@.push(rec);
        self.commands = Ghost(grown);
        Ok(id)
    }

    /// Record the end of the most recently started command of the
    /// session that has no end yet, with the given exit code; a
    /// no-op succeeding when every command has ended. On success the
    /// model's most recently started open command of the session —
    /// the store's targeting rule — is closed with this exit code,
    /// or the model held none open and is unchanged; on failure the
    /// model is unchanged.
    pub fn end_command(&mut self, session_id: &str, exit_code: i32) -> (r: Result<
        (),
        StoreError,
    >)
        ensures
            final(self).events_log() == old(self).events_log(),
            final(self).sessions_model() == old(self).sessions_model(),
            r is Err ==> final(self).commands_model() == old(self).commands_model(),
            r is Ok && !has_open_command(old(self).commands_model(), session_id@) ==> final(self).commands_model() == old(self).commands_model(),
            r is Ok && has_open_command(old(self).commands_model(), session_id@) ==> ({
                let m = old(self).commands_model();
                let i = latest_open_index(m, session_id@);
                final(self).commands_model() == m.update(
                    i,
                    CommandRecord {
                        id: m[i].id,
                        session_id: m[i].session_id,
                        started_at_ms: m[i].started_at_ms,
                        input: m[i].input,
                        exit_code: Some(exit_code as int),
                    },
                )
            }),
    {
        let ended_at = now_millis();
        let open_id = match sql_latest_open_command(&self.conn, session_id) {
            Ok(x) => x,
            Err(m) => {
                return Err(StoreError { message: m });
            },
        };
        match open_id {
            Some(id) => {
                match sql_finish_command(&self.conn, ended_at, exit_code, &id) {
                    Ok(u) => u,
                    Err(m) => {
                        return Err(StoreError { message: m });
                    },
                }
            },
            None => (),
        }
        proof {
            lemma_latest_open_index(self.commands@, session_id@);
        }
        let ghost m0 = self.commands@;
        let ghost m1 = if has_open_command(m0, session_id@) {
            let i = latest_open_index(m0, session_id@);
            m0.update(
                i,
                CommandRecord {
                    id: m0[i].id,
                    session_id: m0[i].session_id,
                    started_at_ms: m0[i].started_at_ms,
                    input: m0[i].input,
                    exit_code: Some(exit_code as int),
                },
            )
        } else {
            m0
        };
        self.commands = Ghost(m1);
        Ok(())
    }

    /// Read the most recent commands of a session, newest first: the
    /// input and the exit code, with -1 for a command still open, at
    /// most `limit` of them. The order rests on start timestamps the
    /// result does not carry, so only the count is stated here; the
    /// session's commands as this handle recorded them are carried
    /// by `commands_model`.
    pub fn get_recent_commands(&self, session_id: &str, limit: usize) -> (r: Result<
        Vec<(String, i32)>,
        StoreError,
    >)
        ensures
            r matches Ok(v) ==> v@.len() <= limit,
    {
        match sql_select_recent_commands(&self.conn, session_id, limit) {
            Ok(cs) => Ok(cs),
            Err(m) => Err(StoreError { message: m }),
        }
    }
}

} // verus!
