//! The two pump threads' bodies, one step at a time. A pump is a
//! loop around one of these steps; the caller (a dedicated thread)
//! keeps stepping while a step reports that the stream is still
//! open. Each step's contract pins down exactly how the queue
//! histories and the pty's fed bytes move, so that the order and
//! integrity of both streams follow from the steps alone.

use vstd::prelude::*;
use crate::channel::{recv_log, recv_chunk, send_chunk, sent_log};
use crate::chunks::{concat_chunks, lemma_concat_app};
use crate::pty_os::{
    fed_log, flush_writer, read_chunk, write_chunk, PtyReader, PtyWriter, ReadOutcome, CHUNK_CAP,
};

verus! {

/// One iteration of the output pump: a blocking read from the pty,
/// then — on data — one send to the output queue. Returns whether
/// the pump should keep running, and the chunks forwarded by this
/// step (one on success, none at a stop).
///
/// The step forwards exactly the bytes it read, unchanged and after
/// everything forwarded before; it stops on end of stream, on a read
/// error, or when the queue's consumer is gone.
pub fn output_pump_step(
    reader: &mut PtyReader,
    tx: &mut crossbeam_channel::Sender<Vec<u8>>,
) -> (r: (bool, Ghost<Seq<Seq<u8>>>))
    ensures
        sent_log(*final(tx)) == sent_log(*old(tx)) + r.1@,
        r.0 ==> r.1@.len() == 1,
        !r.0 ==> r.1@.len() == 0,
        forall|i: int| 0 <= i < r.1@.len() ==> 0 < (#[trigger] r.1@[i]).len() <= CHUNK_CAP,
{
    let ghost none: Seq<Seq<u8>> = Seq::empty();
    match read_chunk(reader) {
        ReadOutcome::Data(d) => {
            let ghost dv = d@;
            let ghost one: Seq<Seq<u8>> = seq![dv];
            if send_chunk(tx, d) {
                proof {
                    assert(sent_log(*tx) == sent_log(*old(tx)) + one) by {
                        assert(sent_log(*old(tx)).push(dv) =~= sent_log(*old(tx)) + one);
                    }
                }
                (true, Ghost(one))
            } else {
                proof {
                    assert(sent_log(*tx) =~= sent_log(*old(tx)) + none);
                }
                (false, Ghost(none))
            }
        },
        ReadOutcome::Eof => {
            proof {
                assert(sent_log(*tx) =~= sent_log(*old(tx)) + none);
            }
            (false, Ghost(none))
        },
        ReadOutcome::Failed => {
            proof {
                assert(sent_log(*tx) =~= sent_log(*old(tx)) + none);
            }
            (false, Ghost(none))
        },
    }
}

/// One iteration of the input pump: a blocking take from the input
/// queue, then a full write of that chunk to the pty, then a flush.
/// Returns whether the pump should keep running.
///
/// While steps succeed, the pty is fed exactly the taken chunk's
/// bytes, in order; the pump stops when every sender is gone or when
/// a write fails, and a failed write can leave at most a prefix of
/// its chunk fed.
pub fn input_pump_step(
    rx: &mut crossbeam_channel::Receiver<Vec<u8>>,
    w: &mut PtyWriter,
) -> (r: bool)
    ensures
        r ==> exists|d: Seq<u8>|
            feeds_one(
                recv_log(*old(rx)),
                fed_log(*old(w)),
                recv_log(*final(rx)),
                fed_log(*final(w)),
                d,
            ),
        !r ==> (recv_log(*final(rx)) == recv_log(*old(rx)) && fed_log(*final(w)) == fed_log(
            *old(w),
        )) || (exists|d: Seq<u8>, p: Seq<u8>|
            recv_log(*final(rx)) == recv_log(*old(rx)).push(d) && p.is_prefix_of(d) && fed_log(
                *final(w),
            ) == fed_log(*old(w)) + p),
{
    match recv_chunk(rx) {
        Some(d) => {
            if write_chunk(w, &d) {
                let _ = flush_writer(w);
                proof {
                    assert(feeds_one(
                        recv_log(*old(rx)),
                        fed_log(*old(w)),
                        recv_log(*rx),
                        fed_log(*w),
                        d@,
                    ));
                }
                true
            } else {
                false
            }
        },
        None => false,
    }
}

/// One successful input-pump step, on histories: one chunk taken
/// from the queue, exactly its bytes fed to the pty after everything
/// fed before.
pub open spec fn feeds_one(
    r0: Seq<Seq<u8>>,
    f0: Seq<u8>,
    r1: Seq<Seq<u8>>,
    f1: Seq<u8>,
    d: Seq<u8>,
) -> bool {
    r1 == r0.push(d) && f1 == f0 + d
}

/// A run of successful input-pump steps taking `taken`, chunk by
/// chunk, from histories `(r0, f0)` to `(r1, f1)` — what a pump
/// thread's loop builds out of `input_pump_step`'s contract.
pub open spec fn pump_run(
    r0: Seq<Seq<u8>>,
    f0: Seq<u8>,
    r1: Seq<Seq<u8>>,
    f1: Seq<u8>,
    taken: Seq<Seq<u8>>,
) -> bool
    decreases taken.len(),
{
    if taken.len() == 0 {
        r1 == r0 && f1 == f0
    } else {
        exists|rm: Seq<Seq<u8>>, fm: Seq<u8>|
            pump_run(r0, f0, rm, fm, taken.drop_last()) && feeds_one(
                rm,
                fm,
                r1,
                f1,
                taken.last(),
            )
    }
}

/// Law (input stream exactness): after any run of successful writer
/// pump steps, the queue has handed over exactly the taken chunks in
/// order, and the pty has been fed exactly their concatenation —
/// submitted buffers arrive whole, unreordered and uncorrupted. The
/// tie between this take order and the submission order is
/// crossbeam_channel's FIFO guarantee across the two endpoints,
/// which no contract of a single endpoint can carry.
pub proof fn lemma_pump_run_exact(
    r0: Seq<Seq<u8>>,
    f0: Seq<u8>,
    r1: Seq<Seq<u8>>,
    f1: Seq<u8>,
    taken: Seq<Seq<u8>>,
)
    requires
        pump_run(r0, f0, r1, f1, taken),
    ensures
        r1 == r0 + taken,
        f1 == f0 + concat_chunks(taken),
    decreases taken.len(),
{
    if taken.len() == 0 {
        assert(r0 + taken =~= r0);
        assert(f0 + concat_chunks(taken) =~= f0);
    } else {
        let (rm, fm) = choose|rm: Seq<Seq<u8>>, fm: Seq<u8>|
            pump_run(r0, f0, rm, fm, taken.drop_last()) && feeds_one(
                rm,
                fm,
                r1,
                f1,
                taken.last(),
            );
        lemma_pump_run_exact(r0, f0, rm, fm, taken.drop_last());
        assert(r0 + taken =~= (r0 + taken.drop_last()).push(taken.last()));
        assert(f0 + concat_chunks(taken) =~= (f0 + concat_chunks(taken.drop_last()))
            + taken.last());
    }
}

/// Law: for any output the pty produced as chunks, if the output
/// queue hands the polling consumer exactly those chunks in order,
/// the polls drain the output in its original order with no loss and
/// no duplication, however the consumer batches its polls: draining
/// in two batches concatenates to the same bytes as draining in one.
pub proof fn lemma_output_drain_exact(
    produced: Seq<Seq<u8>>,
    first_batch: Seq<Seq<u8>>,
    second_batch: Seq<Seq<u8>>,
)
    requires
        first_batch + second_batch == produced,
    ensures
        concat_chunks(first_batch) + concat_chunks(second_batch) == concat_chunks(produced),
{
    lemma_concat_app(first_batch, second_batch);
}

} // verus!
