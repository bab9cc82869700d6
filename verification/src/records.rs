//! The persisted records — sessions and events — and the replay
//! projection over an append-only event log: a session's payloads of
//! one kind, in log order. The projection is what replay reads back;
//! its laws say that the log reproduces each stream exactly.

use vstd::prelude::*;
use vstd::string::StringExecFns;

verus! {

/// One recorded terminal session.
#[derive(Debug, Clone)]
pub struct Session {
    pub id: String,
    pub started_at: String,
    pub ended_at: Option<String>,
    pub cwd: String,
    pub shell: String,
}

/// One recorded chunk of session activity. `kind` is `pty_out` for
/// output read from the pty, `user_in` for input submitted by the
/// caller; `marker` is reserved and never produced here.
#[derive(Debug, Clone)]
pub struct Event {
    pub id: String,
    pub session_id: String,
    pub ts: String,
    pub kind: String,
    pub data: String,
}

/// The kind of an event holding input submitted by the caller.
pub open spec fn user_in_kind() -> Seq<char> {
    "user_in"@
}

/// The kind of an event holding output read from the pty.
pub open spec fn pty_out_kind() -> Seq<char> {
    "pty_out"@
}

/// Lexicographic order on text, code point by code point. This is
/// the order SQLite's default collation gives TEXT values: it
/// compares the UTF-8 bytes, and UTF-8 byte order agrees with code
/// point order.
pub open spec fn lex_le(a: Seq<char>, b: Seq<char>) -> bool
    decreases a.len(),
{
    if a.len() == 0 {
        true
    } else if b.len() == 0 {
        false
    } else if a[0] == b[0] {
        lex_le(a.drop_first(), b.drop_first())
    } else {
        (a[0] as int) < (b[0] as int)
    }
}

/// The payloads of one session's events of one kind, in log order:
/// what replaying that stream reads back.
pub open spec fn payloads_for(log: Seq<Event>, sid: Seq<char>, kind: Seq<char>) -> Seq<Seq<char>>
    decreases log.len(),
{
    if log.len() == 0 {
        Seq::empty()
    } else {
        let rest = payloads_for(log.drop_last(), sid, kind);
        if log.last().session_id@ == sid && log.last().kind@ == kind {
            rest.push(log.last().data@)
        } else {
            rest
        }
    }
}

/// Appending one event extends exactly the projection it belongs to:
/// its own session and kind gain its payload at the end; every other
/// projection is unchanged.
pub proof fn lemma_payloads_push(log: Seq<Event>, e: Event, sid: Seq<char>, kind: Seq<char>)
    ensures
        e.session_id@ == sid && e.kind@ == kind ==> payloads_for(log.push(e), sid, kind)
            == payloads_for(log, sid, kind).push(e.data@),
        !(e.session_id@ == sid && e.kind@ == kind) ==> payloads_for(log.push(e), sid, kind)
            == payloads_for(log, sid, kind),
{
    assert(log.push(e).drop_last() =~= log);
    assert(log.push(e).last() == e);
}

/// The projection distributes over splitting the log in two.
pub proof fn lemma_payloads_app(a: Seq<Event>, b: Seq<Event>, sid: Seq<char>, kind: Seq<char>)
    ensures
        payloads_for(a + b, sid, kind) == payloads_for(a, sid, kind) + payloads_for(b, sid, kind),
    decreases b.len(),
{
    if b.len() == 0 {
        assert(a + b =~= a);
        assert(payloads_for(a, sid, kind) + payloads_for(b, sid, kind) =~= payloads_for(
            a,
            sid,
            kind,
        ));
    } else {
        lemma_payloads_app(a, b.drop_last(), sid, kind);
        assert((a + b).drop_last() =~= a + b.drop_last());
        assert((a + b).last() == b.last());
        if b.last().session_id@ == sid && b.last().kind@ == kind {
            assert(payloads_for(a, sid, kind) + payloads_for(b.drop_last(), sid, kind).push(
                b.last().data@,
            ) =~= (payloads_for(a, sid, kind) + payloads_for(b.drop_last(), sid, kind)).push(
                b.last().data@,
            ));
        }
    }
}

/// One stream's recorded texts glued back together, in order.
pub open spec fn concat_texts(ts: Seq<Seq<char>>) -> Seq<char>
    decreases ts.len(),
{
    if ts.len() == 0 {
        Seq::empty()
    } else {
        concat_texts(ts.drop_last()) + ts.last()
    }
}

/// Appending one text to a stream appends exactly its characters.
pub proof fn lemma_concat_texts_push(ts: Seq<Seq<char>>, t: Seq<char>)
    ensures
        concat_texts(ts.push(t)) == concat_texts(ts) + t,
{
    assert(ts.push(t).drop_last() =~= ts);
    assert(ts.push(t).last() == t);
}

/// Replay one of a session's streams from retrieved events: the
/// payloads of the given kind for the given session, concatenated in
/// the order the events stand in.
pub fn replay_stream_text(events: &Vec<Event>, session_id: &String, kind: &String) -> (out: String)
    ensures
        out@ == concat_texts(payloads_for(events@, session_id@, kind@)),
{
    let mut out = String::new();
    let mut i: usize = 0;
    proof {
        assert(events@.take(0) =~= Seq::<Event>::empty());
        assert(out@ =~= concat_texts(payloads_for(events@.take(0), session_id@, kind@)));
    }
    while i < events.len()
        invariant
            i <= events.len(),
            out@ == concat_texts(payloads_for(events@.take(i as int), session_id@, kind@)),
        decreases events.len() - i,
    {
        let e = &events[i];
        proof {
            assert(events@.take(i + 1) =~= events@.take(i as int).push(events@[i as int]));
            lemma_payloads_push(events@.take(i as int), events@[i as int], session_id@, kind@);
        }
        if e.session_id == *session_id && e.kind == *kind {
            out.append(e.data.as_str());
            proof {
                lemma_concat_texts_push(
                    payloads_for(events@.take(i as int), session_id@, kind@),
                    events@[i as int].data@,
                );
            }
        }
        i = i + 1;
    }
    proof {
        assert(events@.take(events@.len() as int) =~= events@);
    }
    out
}

/// Law (replay round trip): append to the log, in order, one event
/// per chunk of a stream — each holding the session, the kind, and
/// exactly that chunk's text. Then the session's projection of that
/// kind reads back exactly those texts, in order, after whatever it
/// showed before: replay reproduces the stream with no loss, no
/// duplication and no reordering.
pub proof fn lemma_recorded_stream_round_trip(
    log0: Seq<Event>,
    appended: Seq<Event>,
    texts: Seq<Seq<char>>,
    sid: Seq<char>,
    kind: Seq<char>,
)
    requires
        appended.len() == texts.len(),
        forall|i: int| 0 <= i < appended.len() ==> (#[trigger] appended[i]).session_id@ == sid
            && appended[i].kind@ == kind && appended[i].data@ == texts[i],
    ensures
        payloads_for(log0 + appended, sid, kind) == payloads_for(log0, sid, kind) + texts,
    decreases appended.len(),
{
    if appended.len() == 0 {
        assert(log0 + appended =~= log0);
        assert(payloads_for(log0, sid, kind) + texts =~= payloads_for(log0, sid, kind));
    } else {
        lemma_recorded_stream_round_trip(
            log0,
            appended.drop_last(),
            texts.drop_last(),
            sid,
            kind,
        );
        assert(log0 + appended =~= (log0 + appended.drop_last()).push(appended.last()));
        lemma_payloads_push(log0 + appended.drop_last(), appended.last(), sid, kind);
        assert((payloads_for(log0, sid, kind) + texts.drop_last()).push(texts.last())
            =~= payloads_for(log0, sid, kind) + texts);
    }
}

/// Law (append-only replay stability): the event log is only ever
/// appended to, so anything a replay projection showed earlier stays
/// a prefix of what it shows after further recording — recorded
/// streams are never reordered, lost or rewritten.
pub proof fn lemma_projection_append_only(
    log1: Seq<Event>,
    log2: Seq<Event>,
    sid: Seq<char>,
    kind: Seq<char>,
)
    requires
        log1.is_prefix_of(log2),
    ensures
        payloads_for(log1, sid, kind).is_prefix_of(payloads_for(log2, sid, kind)),
{
    let tail = log2.subrange(log1.len() as int, log2.len() as int);
    assert(log1 + tail =~= log2);
    lemma_payloads_app(log1, tail, sid, kind);
}

} // verus!
