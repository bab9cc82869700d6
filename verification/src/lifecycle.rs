//! The session lifecycle: Uninitialized → Starting → Active →
//! Ending → Closed. Starting and Ending are internal transients; a
//! failed start falls back from Starting to Uninitialized, and a new
//! session may start again after Closed. The laws below say that the
//! transients are never skipped. Closed here means the handle is
//! fully dropped and the registry idle; when recording the close in
//! the event store fails, the phase still reaches Closed and the
//! failure is surfaced — a deliberate deviation from the stricter
//! reading under which Closed follows only a recorded close, since
//! the machine has no other exit from Ending.

use vstd::prelude::*;

verus! {

/// One phase of a session's life.
#[derive(Clone, Copy, Debug, PartialEq, Eq, Structural)]
pub enum SessionState {
    Uninitialized,
    Starting,
    Active,
    Ending,
    Closed,
}

/// The steps the lifecycle may take, one phase to the next.
pub open spec fn allowed_edge(a: SessionState, b: SessionState) -> bool {
    ||| (a is Uninitialized && b is Starting)
    ||| (a is Starting && b is Active)
    ||| (a is Starting && b is Uninitialized)
    ||| (a is Active && b is Ending)
    ||| (a is Ending && b is Closed)
    ||| (a is Closed && b is Starting)
}

/// A lifecycle history: it begins Uninitialized and every step is an
/// allowed edge.
pub open spec fn valid_trace(tr: Seq<SessionState>) -> bool {
    &&& tr.len() > 0
    &&& tr[0] is Uninitialized
    &&& forall|i: int| 0 <= i < tr.len() - 1 ==> allowed_edge(tr[i], #[trigger] tr[i + 1])
}

/// Law (transients are never skipped): in any lifecycle history,
/// Active is entered only from Starting, and Closed only from
/// Ending.
pub proof fn lemma_transients_never_skipped(tr: Seq<SessionState>, i: int)
    requires
        valid_trace(tr),
        0 <= i < tr.len(),
    ensures
        tr[i] is Active ==> i > 0 && tr[i - 1] is Starting,
        tr[i] is Closed ==> i > 0 && tr[i - 1] is Ending,
{
    if i > 0 {
        assert(allowed_edge(tr[i - 1], tr[i - 1 + 1]));
    }
}

/// Law (Active comes out of a start request): every active phase in
/// a lifecycle history was reached through Starting, which itself
/// followed an idle phase — Uninitialized or Closed.
pub proof fn lemma_active_reached_from_idle(tr: Seq<SessionState>, i: int)
    requires
        valid_trace(tr),
        0 <= i < tr.len(),
        tr[i] is Active,
    ensures
        i >= 2,
        tr[i - 1] is Starting,
        tr[i - 2] is Uninitialized || tr[i - 2] is Closed,
{
    lemma_transients_never_skipped(tr, i);
    assert(allowed_edge(tr[i - 2], tr[i - 2 + 1]));
}

} // verus!
