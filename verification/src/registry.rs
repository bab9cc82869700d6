//! The session registry: the command surface over at most one active
//! session. It enforces the single-active-session invariant, drives
//! the lifecycle state machine, and records every input and output
//! chunk in the event store — input logging surfaced, output logging
//! best-effort, so persistence problems never block the live stream.

use vstd::prelude::*;
use vstd::string::StringExecFns;
use crate::db::{lossy_text, utf8_lossy, Database};
use crate::errors::PtyError;
use crate::lifecycle::{valid_trace, SessionState};
use crate::records::{pty_out_kind, user_in_kind, Event, Session};
use crate::session::{PtySession, PumpParts};

verus! {

/// Holds at most one active session, and the lifecycle history of
/// every session it has driven.
pub struct SessionRegistry {
    active: Option<PtySession>,
    trace: Ghost<Seq<SessionState>>,
}

impl SessionRegistry {
    /// The lifecycle phases this registry has passed through, in
    /// order.
    pub closed spec fn lifecycle_trace(&self) -> Seq<SessionState> {
        self.trace@
    }

    /// Whether a session is active.
    pub closed spec fn is_active(&self) -> bool {
        self.active is Some
    }

    /// The active session's id.
    pub closed spec fn active_id(&self) -> Seq<char> {
        self.active->Some_0.id()
    }

    /// The input chunks submitted to the active session, in order.
    pub closed spec fn active_input_log(&self) -> Seq<Seq<u8>> {
        self.active->Some_0.input_log()
    }

    /// The output chunks drained from the active session, in order.
    pub closed spec fn active_output_taken(&self) -> Seq<Seq<u8>> {
        self.active->Some_0.output_taken()
    }

    /// The active session's pty size.
    pub closed spec fn active_size(&self) -> (u16, u16) {
        self.active->Some_0.size()
    }

    /// The registry's invariant: its lifecycle history is a valid
    /// trace, a session is held exactly in the Active phase, and an
    /// idle registry rests at Uninitialized or Closed.
    pub open spec fn wf(&self) -> bool {
        &&& valid_trace(self.lifecycle_trace())
        &&& (self.is_active() <==> self.lifecycle_trace().last() is Active)
        &&& (!self.is_active() ==> self.lifecycle_trace().last() is Uninitialized
            || self.lifecycle_trace().last() is Closed)
    }

    /// A fresh registry: no session, lifecycle at Uninitialized.
    pub fn new() -> (r: SessionRegistry)
        ensures
            r.wf(),
            !r.is_active(),
            r.lifecycle_trace() == seq![SessionState::Uninitialized],
    {
        let ghost tr: Seq<SessionState> = seq![SessionState::Uninitialized];
        SessionRegistry { active: None, trace: Ghost(tr) }
    }

    /// Start a session: refused outright if one is active; otherwise
    /// a session record is created in the store, the pty spawned at
    /// the given size with the given shell and working directory,
    /// and the new handle stored. Returns the new session's id and
    /// the parts the pump threads take over.
    pub fn start_session(
        &mut self,
        db: &mut Database,
        cols: u16,
        rows: u16,
        cwd: &String,
        shell: &String,
    ) -> (r: Result<(String, PumpParts), PtyError>)
        requires
            old(self).wf(),
            cols > 0,
            rows > 0,
        ensures
            final(self).wf(),
            final(db).events_log() == old(db).events_log(),
            final(db).commands_model() == old(db).commands_model(),
            old(self).is_active() ==> (r matches Err(e) && e is AlreadyActive && *final(self)
                == *old(self) && *final(db) == *old(db)),
            !old(self).is_active() ==> match r {
                Ok(sp) => final(self).is_active() && final(self).active_id() == sp.0@
                    && sp.0@.len() == 36 && final(self).active_input_log()
                    == Seq::<Seq<u8>>::empty() && final(self).active_output_taken()
                    == Seq::<Seq<u8>>::empty() && final(self).active_size() == (cols, rows)
                    && final(db).sessions_model() == old(db).sessions_model().insert(sp.0@, false)
                    && final(self).lifecycle_trace() == old(self).lifecycle_trace() + seq![
                    SessionState::Starting,
                    SessionState::Active,
                ],
                Err(e) => !final(self).is_active() && (e is Spawn || e is Store) && (final(db).sessions_model() == old(db).sessions_model() || (exists|sid: Seq<char>|
                    #![auto]
                    sid.len() == 36 && (final(db).sessions_model() == old(db).sessions_model().insert(sid, true) || final(db).sessions_model() == old(db).sessions_model().insert(sid, false)))) && final(self).lifecycle_trace()
                    == old(self).lifecycle_trace() + seq![
                    SessionState::Starting,
                    SessionState::Uninitialized,
                ],
            },
    {
        if self.active.is_some() {
            return Err(PtyError::AlreadyActive);
        }
        let ghost started = self.trace@.push(SessionState::Starting);
        self.trace = Ghost(started);
        let row = match db.create_session(cwd.as_str(), shell.as_str()) {
            Ok(s) => s,
            Err(e) => {
                let ghost fell_back = self.trace@.push(SessionState::Uninitialized);
                self.trace = Ghost(fell_back);
                proof {
                    assert(self.trace@ =~= old(self).trace@ + seq![
                        SessionState::Starting,
                        SessionState::Uninitialized,
                    ]);
                }
                return Err(PtyError::Store(e.message));
            },
        };
        let sid = row.id;
        let ghost sidv = sid@;
        let handle_id = String::from_str(sid.as_str());
        match PtySession::new(handle_id, cols, rows, shell, cwd) {
            Ok((handle, parts)) => {
                self.active = Some(handle);
                let ghost went_active = self.trace@.push(SessionState::Active);
                self.trace = Ghost(went_active);
                proof {
                    assert(self.trace@ =~= old(self).trace@ + seq![
                        SessionState::Starting,
                        SessionState::Active,
                    ]);
                }
                Ok((sid, parts))
            },
            Err(e) => {
                // the session row just created has no handle: close it,
                // best-effort, so at most one open row stands at a time
                let _ = db.end_session(sid.as_str());
                proof {
                    if db.sessions_model() == old(db).sessions_model().insert(sidv, false).insert(
                        sidv,
                        true,
                    ) {
                        assert(old(db).sessions_model().insert(sidv, false).insert(sidv, true)
                            =~= old(db).sessions_model().insert(sidv, true));
                    }
                    assert(sidv.len() == 36 && (db.sessions_model() == old(db).sessions_model().insert(sidv, true) || db.sessions_model() == old(db).sessions_model().insert(sidv, false)));
                }
                let ghost fell_back = self.trace@.push(SessionState::Uninitialized);
                self.trace = Ghost(fell_back);
                proof {
                    assert(self.trace@ =~= old(self).trace@ + seq![
                        SessionState::Starting,
                        SessionState::Uninitialized,
                    ]);
                }
                Err(e)
            },
        }
    }

    /// Submit one input buffer to the active session and record it
    /// as a `user_in` event with the buffer's text. A failure to
    /// record is surfaced, since losing input breaks replay. With no
    /// active session this is a no-op.
    pub fn send_input(&mut self, db: &mut Database, data: &[u8]) -> (r: Result<(), PtyError>)
        requires
            old(self).wf(),
        ensures
            final(self).wf(),
            final(db).sessions_model() == old(db).sessions_model(),
            final(db).commands_model() == old(db).commands_model(),
            !old(self).is_active() ==> r is Ok && *final(self) == *old(self) && final(db).events_log() == old(db).events_log(),
            old(self).is_active() ==> final(self).is_active() && final(self).active_id() == old(self).active_id() && final(self).active_size() == old(self).active_size() && final(self).active_output_taken() == old(self).active_output_taken() && final(self).lifecycle_trace() == old(self).lifecycle_trace(),
            old(self).is_active() ==> match r {
                Ok(u) => final(self).active_input_log() == old(self).active_input_log().push(data@)
                    && ({
                    let lg = final(db).events_log();
                    lg == old(db).events_log().push(lg.last())
                        && lg.last().session_id@ == old(self).active_id()
                        && lg.last().kind@ == user_in_kind()
                        && lg.last().data@ == lossy_text(data@)
                }),
                Err(e) => (e is Write && final(self).active_input_log() == old(self).active_input_log() && final(db).events_log() == old(db).events_log()) || (
                e is Store && final(self).active_input_log() == old(self).active_input_log().push(
                    data@,
                ) && final(db).events_log() == old(db).events_log()),
            },
    {
        match &mut self.active {
            Some(session) => {
                match session.write_input(data) {
                    Ok(u) => u,
                    Err(e) => {
                        return Err(e);
                    },
                }
                let text = utf8_lossy(data);
                match db.add_event(session.id_str(), "user_in", text.as_str()) {
                    Ok(u) => Ok(u),
                    Err(e) => Err(PtyError::Store(e.message)),
                }
            },
            None => Ok(()),
        }
    }

    /// Poll the active session for one output chunk and, if one is
    /// there, record it as a `pty_out` event — best-effort: a
    /// failure to record never blocks the live stream. With no
    /// active session the poll reports no data.
    pub fn read_output(&mut self, db: &mut Database) -> (r: Result<Option<Vec<u8>>, PtyError>)
        requires
            old(self).wf(),
        ensures
            final(self).wf(),
            r is Ok,
            final(db).sessions_model() == old(db).sessions_model(),
            final(db).commands_model() == old(db).commands_model(),
            !old(self).is_active() ==> (r matches Ok(out) && out is None && *final(self) == *old(self) && final(db).events_log() == old(db).events_log()),
            old(self).is_active() ==> final(self).is_active() && final(self).active_id() == old(self).active_id() && final(self).active_size() == old(self).active_size() && final(self).active_input_log() == old(self).active_input_log() && final(self).lifecycle_trace()
                == old(self).lifecycle_trace(),
            old(self).is_active() ==> match r {
                Ok(out) => match out {
                    Some(v) => final(self).active_output_taken() == old(self).active_output_taken().push(v@) && (final(db).events_log() == old(db).events_log() || ({
                        let lg = final(db).events_log();
                        lg == old(db).events_log().push(lg.last())
                            && lg.last().session_id@ == old(self).active_id()
                            && lg.last().kind@ == pty_out_kind()
                            && lg.last().data@ == lossy_text(v@)
                    })),
                    None => final(self).active_output_taken() == old(self).active_output_taken()
                        && final(db).events_log() == old(db).events_log(),
                },
                Err(e) => false,
            },
    {
        match &mut self.active {
            Some(session) => {
                match session.read_output() {
                    Some(data) => {
                        let text = utf8_lossy(data.as_slice());
                        let logged = db.add_event(session.id_str(), "pty_out", text.as_str());
                        match logged {
                            Ok(u) => u,
                            Err(_) => (),
                        }
                        Ok(Some(data))
                    },
                    None => Ok(None),
                }
            },
            None => Ok(None),
        }
    }

    /// Resize the active session's pty. A zero dimension is invalid
    /// and fails with a resize error, leaving the pty size
    /// unchanged; with no active session a valid resize is a no-op.
    pub fn resize_pty(&mut self, cols: u16, rows: u16) -> (r: Result<(), PtyError>)
        requires
            old(self).wf(),
        ensures
            final(self).wf(),
            cols == 0 || rows == 0 ==> (r matches Err(e) && e is Resize && *final(self) == *old(self)),
            !old(self).is_active() && cols > 0 && rows > 0 ==> r is Ok && *final(self) == *old(self),
            old(self).is_active() ==> final(self).is_active() && final(self).active_id() == old(self).active_id() && final(self).active_input_log() == old(self).active_input_log()
                && final(self).active_output_taken() == old(self).active_output_taken() && final(self).lifecycle_trace() == old(self).lifecycle_trace(),
            old(self).is_active() ==> match r {
                Ok(u) => cols > 0 && rows > 0 && final(self).active_size() == (cols, rows),
                Err(e) => e is Resize && final(self).active_size() == old(self).active_size(),
            },
    {
        if cols == 0 || rows == 0 {
            return Err(PtyError::Resize(String::from_str("invalid size")));
        }
        match &mut self.active {
            Some(session) => session.resize(cols, rows),
            None => Ok(()),
        }
    }

    /// End the active session: take and drop the handle — closing
    /// both queue endpoints, which the pumps observe — and record
    /// the close in the store. With no active session this succeeds
    /// as a no-op. When recording the close fails, the handle is
    /// already gone, so the lifecycle still advances to Closed —
    /// here Closed means the handle dropped and the registry idle,
    /// a step weaker than a recorded close — and the store error is
    /// surfaced to the caller.
    pub fn end_session(&mut self, db: &mut Database) -> (r: Result<(), PtyError>)
        requires
            old(self).wf(),
        ensures
            final(self).wf(),
            !final(self).is_active(),
            final(db).events_log() == old(db).events_log(),
            final(db).commands_model() == old(db).commands_model(),
            !old(self).is_active() ==> r is Ok && *final(self) == *old(self) && *final(db)
                == *old(db),
            old(self).is_active() ==> final(self).lifecycle_trace() == old(self).lifecycle_trace()
                + seq![SessionState::Ending, SessionState::Closed] && (r is Ok || (
            r matches Err(e) && e is Store)),
            old(self).is_active() && r is Ok && old(db).sessions_model().contains_key(
                old(self).active_id(),
            ) ==> final(db).sessions_model() == old(db).sessions_model().insert(
                old(self).active_id(),
                true,
            ),
            old(self).is_active() && r is Ok && !old(db).sessions_model().contains_key(
                old(self).active_id(),
            ) ==> final(db).sessions_model() == old(db).sessions_model(),
            r is Err ==> final(db).sessions_model() == old(db).sessions_model(),
    {
        match self.active.take() {
            Some(session) => {
                let ghost ending = self.trace@.push(SessionState::Ending);
                self.trace = Ghost(ending);
                let recorded = db.end_session(session.id_str());
                let ghost closed = self.trace@.push(SessionState::Closed);
                self.trace = Ghost(closed);
                proof {
                    assert(self.trace@ =~= old(self).trace@ + seq![
                        SessionState::Ending,
                        SessionState::Closed,
                    ]);
                }
                match recorded {
                    Ok(u) => Ok(u),
                    Err(e) => Err(PtyError::Store(e.message)),
                }
            },
            None => Ok(()),
        }
    }

    /// Read the most recently started sessions from the store,
    /// newest first by start timestamp, at most `limit` of them.
    pub fn get_recent_sessions(&self, db: &Database, limit: usize) -> (r: Result<
        Vec<Session>,
        PtyError,
    >)
        ensures
            r matches Ok(v) ==> v@.len() <= limit,
            r matches Ok(v) ==> forall|i: int|
                0 <= i && i + 1 < v@.len() ==> crate::records::lex_le(
                    (#[trigger] v@[i + 1]).started_at@,
                    v@[i].started_at@,
                ),
    {
        match db.get_recent_sessions(limit) {
            Ok(ss) => Ok(ss),
            Err(e) => Err(PtyError::Store(e.message)),
        }
    }

    /// Read one session's events from the store: every returned
    /// event belongs to the requested session, and the timestamps
    /// come lexicographically non-decreasing.
    pub fn get_session_events(&self, db: &Database, session_id: &str) -> (r: Result<
        Vec<Event>,
        PtyError,
    >)
        ensures
            r matches Ok(v) ==> forall|i: int|
                0 <= i < v@.len() ==> (#[trigger] v@[i]).session_id@ == session_id@,
            r matches Ok(v) ==> forall|i: int|
                0 <= i && i + 1 < v@.len() ==> crate::records::lex_le(
                    (#[trigger] v@[i]).ts@,
                    v@[i + 1].ts@,
                ),
    {
        match db.get_events(session_id) {
            Ok(es) => Ok(es),
            Err(e) => Err(PtyError::Store(e.message)),
        }
    }
}

} // verus!
