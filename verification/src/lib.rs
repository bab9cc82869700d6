//! A terminal-session recorder core: it spawns a shell on an OS
//! pseudo-terminal, bridges the pty byte streams to a polling caller
//! through FIFO queues, enforces a single-active-session lifecycle,
//! and logs every input and output chunk to a durable event store
//! for later replay.

pub mod channel;
pub mod chunks;
pub mod errors;
pub mod lifecycle;
pub mod records;
pub mod registry;
pub mod db;
pub mod pty_os;
pub mod pump;
pub mod session;

