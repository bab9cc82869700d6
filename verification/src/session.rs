//! The session handle: a façade over the pty pair, the two chunk
//! queues, and (through `PumpParts`) the two pump threads. The handle
//! records the submitted input chunks and the polled output chunks as
//! abstract histories, and mirrors the pty's window size, so every
//! operation has an exact contract. Dropping the handle drops both
//! queue endpoints it holds, which is what makes the pumps observe
//! closure and exit.

use vstd::prelude::*;
use vstd::string::StringExecFns;
use crate::channel::{new_chunk_channel, recv_log, send_chunk, sent_log, try_recv_chunk};
use crate::errors::PtyError;
use crate::pty_os::{
    clone_reader, open_pty_pair, resize_master, spawn_shell, take_writer, PtyReader, PtyWriter,
};

verus! {

/// An active pty session: the spawned shell's pty pair and the
/// caller-side endpoints of both chunk queues.
pub struct PtySession {
    pub session_id: String,
    pair: portable_pty::PtyPair,
    output_rx: crossbeam_channel::Receiver<Vec<u8>>,
    writer_tx: crossbeam_channel::Sender<Vec<u8>>,
    cols: u16,
    rows: u16,
}

/// What the two pump threads own: the pty's read half with the
/// output queue's sender, and the pty's write half with the input
/// queue's receiver.
pub struct PumpParts {
    pub reader: PtyReader,
    pub out_tx: crossbeam_channel::Sender<Vec<u8>>,
    pub writer: PtyWriter,
    pub in_rx: crossbeam_channel::Receiver<Vec<u8>>,
}

impl PtySession {
    /// The session's id as recorded in the event store.
    pub closed spec fn id(&self) -> Seq<char> {
        self.session_id@
    }

    /// The input chunks submitted through this handle, in order.
    pub closed spec fn input_log(&self) -> Seq<Seq<u8>> {
        sent_log(self.writer_tx)
    }

    /// The output chunks this handle's polls have drained, in order.
    pub closed spec fn output_taken(&self) -> Seq<Seq<u8>> {
        recv_log(self.output_rx)
    }

    /// The pty's window size as last set through this handle.
    pub closed spec fn size(&self) -> (u16, u16) {
        (self.cols, self.rows)
    }

    /// Spawn a session: allocate a pty of the given size, launch the
    /// shell in the given working directory on its slave end, and set
    /// up both chunk queues. Returns the handle together with the
    /// parts the two pump threads take over. Any OS failure is a
    /// spawn failure, fatal to this request.
    pub fn new(session_id: String, cols: u16, rows: u16, shell: &String, cwd: &String) -> (r:
        Result<(PtySession, PumpParts), PtyError>)
        requires
            cols > 0,
            rows > 0,
        ensures
            r matches Ok(sp) ==> sp.0.id() == session_id@ && sp.0.size() == (cols, rows)
                && sp.0.input_log() == Seq::<Seq<u8>>::empty() && sp.0.output_taken()
                == Seq::<Seq<u8>>::empty() && sent_log(sp.1.out_tx) == Seq::<Seq<u8>>::empty()
                && recv_log(sp.1.in_rx) == Seq::<Seq<u8>>::empty(),
            r matches Err(e) ==> e is Spawn,
    {
        let pair = match open_pty_pair(cols, rows) {
            Ok(p) => p,
            Err(m) => {
                return Err(PtyError::Spawn(m));
            },
        };
        match spawn_shell(&pair, shell, cwd) {
            Ok(u) => u,
            Err(m) => {
                return Err(PtyError::Spawn(m));
            },
        }
        let reader = match clone_reader(&pair) {
            Ok(x) => x,
            Err(m) => {
                return Err(PtyError::Spawn(m));
            },
        };
        let writer = match take_writer(&pair) {
            Ok(x) => x,
            Err(m) => {
                return Err(PtyError::Spawn(m));
            },
        };
        let (out_tx, output_rx) = new_chunk_channel();
        let (writer_tx, in_rx) = new_chunk_channel();
        Ok(
            (
                PtySession { session_id, pair, output_rx, writer_tx, cols, rows },
                PumpParts { reader, out_tx, writer, in_rx },
            ),
        )
    }

    /// The session's id as text.
    pub fn id_str(&self) -> (r: &str)
        ensures
            r@ == self.id(),
    {
        self.session_id.as_str()
    }

    /// Enqueue one input buffer for the writer pump; never blocks.
    /// Fails exactly when the input queue is closed because the pump
    /// has terminated.
    pub fn write_input(&mut self, data: &[u8]) -> (r: Result<(), PtyError>)
        ensures
            r is Ok ==> final(self).input_log() == old(self).input_log().push(data@),
            r matches Err(e) ==> e is Write && final(self).input_log() == old(self).input_log(),
            final(self).output_taken() == old(self).output_taken(),
            final(self).id() == old(self).id(),
            final(self).size() == old(self).size(),
    {
        let owned = vstd::slice::slice_to_vec(data);
        if send_chunk(&mut self.writer_tx, owned) {
            Ok(())
        } else {
            Err(PtyError::Write)
        }
    }

    /// Poll the output queue once; never blocks. Returns the next
    /// chunk the reader pump forwarded, in arrival order, or nothing
    /// if the queue is empty.
    pub fn read_output(&mut self) -> (r: Option<Vec<u8>>)
        ensures
            r matches Some(v) ==> final(self).output_taken() == old(self).output_taken().push(v@),
            r is None ==> final(self).output_taken() == old(self).output_taken(),
            final(self).input_log() == old(self).input_log(),
            final(self).id() == old(self).id(),
            final(self).size() == old(self).size(),
    {
        try_recv_chunk(&mut self.output_rx)
    }

    /// Resize the pty. A zero dimension is invalid: the call fails
    /// and the pty size is unchanged; otherwise the OS is asked, and
    /// the size changes exactly when it agrees.
    pub fn resize(&mut self, cols: u16, rows: u16) -> (r: Result<(), PtyError>)
        ensures
            cols == 0 || rows == 0 ==> r is Err && final(self).size() == old(self).size(),
            r matches Err(e) ==> e is Resize && final(self).size() == old(self).size(),
            r is Ok ==> cols > 0 && rows > 0 && final(self).size() == (cols, rows),
            final(self).input_log() == old(self).input_log(),
            final(self).output_taken() == old(self).output_taken(),
            final(self).id() == old(self).id(),
    {
        if cols == 0 || rows == 0 {
            return Err(PtyError::Resize(String::from_str("invalid size")));
        }
        match resize_master(&self.pair, cols, rows) {
            Ok(u) => {
                self.cols = cols;
                self.rows = rows;
                Ok(u)
            },
            Err(m) => Err(PtyError::Resize(m)),
        }
    }
}

} // verus!
