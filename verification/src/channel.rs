//! The in-process chunk queues: unbounded FIFO channels of
//! crossbeam_channel, one per direction. Each endpoint carries an
//! abstract history — the chunks ever sent through the sender, the
//! chunks ever taken from the receiver — and every operation is
//! specified against that history. That the receiver hands chunks
//! back in the exact order the sender enqueued them is a documented
//! guarantee of crossbeam_channel's FIFO channels.

use vstd::prelude::*;

verus! {

#[verifier::external_type_specification]
#[verifier::external_body]
#[verifier::reject_recursive_types(T)]
pub struct ExSender<T>(crossbeam_channel::Sender<T>);

#[verifier::external_type_specification]
#[verifier::external_body]
#[verifier::reject_recursive_types(T)]
pub struct ExReceiver<T>(crossbeam_channel::Receiver<T>);

/// The chunks ever enqueued through this sender endpoint, in order.
pub uninterp spec fn sent_log(s: crossbeam_channel::Sender<Vec<u8>>) -> Seq<Seq<u8>>;

/// The chunks ever dequeued through this receiver endpoint, in order.
pub uninterp spec fn recv_log(r: crossbeam_channel::Receiver<Vec<u8>>) -> Seq<Seq<u8>>;

/// Relies on crossbeam_channel::unbounded: a fresh FIFO channel of
/// unbounded capacity; nothing has passed through either endpoint.
#[verifier::external_body]
pub fn new_chunk_channel() -> (r: (
    crossbeam_channel::Sender<Vec<u8>>,
    crossbeam_channel::Receiver<Vec<u8>>,
))
    ensures
        sent_log(r.0) == Seq::<Seq<u8>>::empty(),
        recv_log(r.1) == Seq::<Seq<u8>>::empty(),
{
    crossbeam_channel::unbounded()
}

/// Relies on crossbeam_channel::Sender::send: on success the chunk is
/// enqueued after everything sent before it; on failure (all receivers
/// gone) the chunk is not enqueued.
#[verifier::external_body]
pub fn send_chunk(s: &mut crossbeam_channel::Sender<Vec<u8>>, data: Vec<u8>) -> (ok: bool)
    ensures
        ok ==> sent_log(*final(s)) == sent_log(*old(s)).push(data@),
        !ok ==> sent_log(*final(s)) == sent_log(*old(s)),
{
    s.send(data).is_ok()
}

/// Relies on crossbeam_channel::Receiver::try_recv: returns at once;
/// a chunk if one is pending, nothing if the queue is empty or all
/// senders are gone.
#[verifier::external_body]
pub fn try_recv_chunk(r: &mut crossbeam_channel::Receiver<Vec<u8>>) -> (out: Option<Vec<u8>>)
    ensures
        match out {
            Some(v) => recv_log(*final(r)) == recv_log(*old(r)).push(v@),
            None => recv_log(*final(r)) == recv_log(*old(r)),
        },
{
    r.try_recv().ok()
}

/// Relies on crossbeam_channel::Receiver::recv: blocks until a chunk
/// arrives or every sender is gone; returns nothing only in the
/// latter case.
#[verifier::external_body]
pub fn recv_chunk(r: &mut crossbeam_channel::Receiver<Vec<u8>>) -> (out: Option<Vec<u8>>)
    ensures
        match out {
            Some(v) => recv_log(*final(r)) == recv_log(*old(r)).push(v@),
            None => recv_log(*final(r)) == recv_log(*old(r)),
        },
{
    r.recv().ok()
}

} // verus!
