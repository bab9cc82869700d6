//! The OS pseudo-terminal, reached through portable_pty. The pty pair
//! is opaque; the master's read and write handles are held in opaque
//! wrappers so that each pump can own one direction. The write handle
//! carries an abstract history of every byte fed to the pty, so that
//! the input path's exactness can be stated.

use vstd::prelude::*;
use std::io::Read;
use std::io::Write;

verus! {

#[verifier::external_type_specification]
#[verifier::external_body]
pub struct ExPtyPair(portable_pty::PtyPair);

/// The read half of the pty master, owned by the output pump.
#[verifier::external_body]
pub struct PtyReader {
    inner: Box<dyn std::io::Read + Send>,
}

/// The write half of the pty master, owned by the input pump.
#[verifier::external_body]
pub struct PtyWriter {
    inner: Box<dyn std::io::Write + Send>,
}

/// Largest chunk the output pump reads from the pty in one call.
pub const CHUNK_CAP: usize = 8192;

/// One blocking read from the pty master.
pub enum ReadOutcome {
    /// A non-empty chunk of output, at most `CHUNK_CAP` bytes.
    Data(Vec<u8>),
    /// The pty reached end of stream: the slave side is closed.
    Eof,
    /// The read failed with an I/O error.
    Failed,
}

/// The bytes ever fed to the pty through this write handle, in order.
pub uninterp spec fn fed_log(w: PtyWriter) -> Seq<u8>;

/// Relies on portable_pty::PtySystem::openpty on the native pty
/// system: allocates a pty pair with the given window size.
#[verifier::external_body]
pub fn open_pty_pair(cols: u16, rows: u16) -> (r: Result<portable_pty::PtyPair, String>)
    requires
        cols > 0,
        rows > 0,
{
    let sys = portable_pty::NativePtySystem::default();
    let size = portable_pty::PtySize { rows, cols, pixel_width: 0, pixel_height: 0 };
    match portable_pty::PtySystem::openpty(&sys, size) {
        Ok(p) => Ok(p),
        Err(e) => Err(e.to_string()),
    }
}

/// Relies on portable_pty::SlavePty::spawn_command with a
/// portable_pty::CommandBuilder holding the given shell path and
/// working directory: launches the shell attached to the slave end.
/// The child handle is dropped; the session does not manage the
/// child beyond the pty itself.
#[verifier::external_body]
pub fn spawn_shell(pair: &portable_pty::PtyPair, shell: &String, cwd: &String) -> (r: Result<
    (),
    String,
>)
{
    let mut cmd = portable_pty::CommandBuilder::new(shell.as_str());
    cmd.cwd(cwd.as_str());
    match pair.slave.spawn_command(cmd) {
        Ok(_) => Ok(()),
        Err(e) => Err(e.to_string()),
    }
}

/// Relies on portable_pty::MasterPty::try_clone_reader: a readable
/// handle carrying the slave's output.
#[verifier::external_body]
pub fn clone_reader(pair: &portable_pty::PtyPair) -> (r: Result<PtyReader, String>)
{
    match pair.master.try_clone_reader() {
        Ok(b) => Ok(PtyReader { inner: b }),
        Err(e) => Err(e.to_string()),
    }
}

/// Relies on portable_pty::MasterPty::take_writer: the single
/// writable handle; writing to it reaches the slave end.
#[verifier::external_body]
pub fn take_writer(pair: &portable_pty::PtyPair) -> (r: Result<PtyWriter, String>)
{
    match pair.master.take_writer() {
        Ok(b) => Ok(PtyWriter { inner: b }),
        Err(e) => Err(e.to_string()),
    }
}

/// Relies on portable_pty::MasterPty::resize: updates the kernel's
/// window size for the pty and signals the child.
#[verifier::external_body]
pub fn resize_master(pair: &portable_pty::PtyPair, cols: u16, rows: u16) -> (r: Result<
    (),
    String,
>)
    requires
        cols > 0,
        rows > 0,
{
    let size = portable_pty::PtySize { rows, cols, pixel_width: 0, pixel_height: 0 };
    match pair.master.resize(size) {
        Ok(()) => Ok(()),
        Err(e) => Err(e.to_string()),
    }
}

/// Relies on std::io::Read::read on the pty master's read handle: a
/// successful read yields between 1 and `CHUNK_CAP` bytes; zero bytes
/// means end of stream.
#[verifier::external_body]
pub fn read_chunk(reader: &mut PtyReader) -> (out: ReadOutcome)
    ensures
        out matches ReadOutcome::Data(d) ==> 0 < d@.len() <= CHUNK_CAP,
{
    let mut buf = [0u8; 8192];
    match reader.inner.read(&mut buf) {
        Ok(0) => ReadOutcome::Eof,
        Ok(n) => ReadOutcome::Data(buf[..n].to_vec()),
        Err(_) => ReadOutcome::Failed,
    }
}

/// Relies on std::io::Write::write_all on the pty master's write
/// handle: on success exactly the given bytes were fed to the pty,
/// after everything fed before; on failure some prefix of them may
/// have been fed.
#[verifier::external_body]
pub fn write_chunk(w: &mut PtyWriter, data: &Vec<u8>) -> (ok: bool)
    ensures
        ok ==> fed_log(*final(w)) == fed_log(*old(w)) + data@,
        !ok ==> exists|p: Seq<u8>|
            p.is_prefix_of(data@) && fed_log(*final(w)) == fed_log(*old(w)) + p,
{
    w.inner.write_all(data.as_slice()).is_ok()
}

/// Relies on std::io::Write::flush on the pty master's write handle:
/// pushes buffered bytes through without changing what was fed.
#[verifier::external_body]
pub fn flush_writer(w: &mut PtyWriter) -> (ok: bool)
    ensures
        fed_log(*final(w)) == fed_log(*old(w)),
{
    w.inner.flush().is_ok()
}

} // verus!
