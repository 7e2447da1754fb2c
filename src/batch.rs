use vstd::prelude::*;
use crate::error::CaptureError;

verus! {

/// The outcome of one capture within a batch.
pub type Outcome = Result<(), CaptureError>;

/// The first error among the outcomes, in order.
pub open spec fn first_failure(s: Seq<Outcome>) -> Option<CaptureError>
    decreases s.len(),
{
    if s.len() == 0 {
        None
    } else {
        match first_failure(s.drop_last()) {
            Some(e) => Some(e),
            None => match s.last() {
                Err(e) => Some(e),
                Ok(_) => None,
            },
        }
    }
}

/// A batch of `total` events stops once a capture has failed or all were sent.
pub open spec fn batch_stopped(seen: Seq<Outcome>, total: nat) -> bool {
    first_failure(seen) is Some || seen.len() >= total
}

/// The result of a batch: its first failure, or success.
pub open spec fn batch_result(seen: Seq<Outcome>) -> Outcome {
    match first_failure(seen) {
        Some(e) => Err(e),
        None => Ok(()),
    }
}

/// Outcomes that are all successes have no first failure.
proof fn lemma_all_ok(s: Seq<Outcome>)
    requires
        forall|j: int| 0 <= j < s.len() ==> s[j] is Ok,
    ensures
        first_failure(s) is None,
    decreases s.len(),
{
    if s.len() > 0 {
        lemma_all_ok(s.drop_last());
    }
}

/// Law: where the capture at position `k` is the first to fail, the events at
/// positions up to `k` are dispatched, none after it, and the batch returns that
/// failure.
pub proof fn lemma_batch_short_circuit(outcomes: Seq<Outcome>, k: int)
    requires
        0 <= k < outcomes.len(),
        outcomes[k] is Err,
        forall|j: int| 0 <= j < k ==> outcomes[j] is Ok,
    ensures
        forall|p: int| 0 <= p <= k ==> !batch_stopped(#[trigger] outcomes.take(p), outcomes.len()),
        batch_stopped(outcomes.take(k + 1), outcomes.len()),
        batch_result(outcomes.take(k + 1)) == outcomes[k],
{
    assert forall|p: int| 0 <= p <= k implies !batch_stopped(
        #[trigger] outcomes.take(p),
        outcomes.len(),
    ) by {
        lemma_all_ok(outcomes.take(p));
    }
    let s = outcomes.take(k + 1);
    assert(s.drop_last() =~= outcomes.take(k));
    lemma_all_ok(outcomes.take(k));
}

/// The sequential delivery of a batch, one event after another in the given
/// order, stopping at the first failure. The caller sends the event that
/// `next_dispatch` names and hands its outcome to `record`.
pub struct BatchRun {
    total: usize,
    sent: usize,
    failure: Option<CaptureError>,
    seen: Ghost<Seq<Outcome>>,
}

impl BatchRun {
    /// The outcomes recorded so far, in order of dispatch.
    pub closed spec fn seen(&self) -> Seq<Outcome> {
        self.seen@
    }

    /// The number of events in the batch.
    pub closed spec fn total(&self) -> nat {
        self.total as nat
    }

    /// The count of sent events matches the outcomes, and the stored failure is
    /// the first among them.
    pub closed spec fn wf(&self) -> bool {
        &&& self.sent == self.seen@.len()
        &&& self.sent <= self.total
        &&& self.failure == first_failure(self.seen@)
    }

    /// A run over a batch of `total` events, none sent yet.
    pub fn new(total: usize) -> (r: BatchRun)
        ensures
            r.wf(),
            r.total() == total,
            r.seen() == Seq::<Outcome>::empty(),
    {
        BatchRun { total, sent: 0, failure: None, seen: Ghost(Seq::empty()) }
    }

    /// The position of the event to send next, or `None` once the batch has
    /// stopped.
    pub fn next_dispatch(&self) -> (r: Option<usize>)
        requires
            self.wf(),
        ensures
            r is None <==> batch_stopped(self.seen(), self.total()),
            r is Some ==> r->Some_0 == self.seen().len(),
    {
        if self.failure.is_some() || self.sent >= self.total {
            None
        } else {
            Some(self.sent)
        }
    }

    /// Records the outcome of the event that `next_dispatch` named.
    pub fn record(&mut self, outcome: Outcome)
        requires
            old(self).wf(),
            !batch_stopped(old(self).seen(), old(self).total()),
        ensures
            final(self).wf(),
            final(self).total() == old(self).total(),
            final(self).seen() == old(self).seen().push(outcome),
            first_failure(final(self).seen()) == match first_failure(old(self).seen()) {
                Some(e) => Some(e),
                None => match outcome {
                    Err(e) => Some(e),
                    Ok(_) => None,
                },
            },
    {
        let ghost s0 = self.seen@;
        self.seen = Ghost(s0.push(outcome));
        assert(self.seen@.drop_last() =~= s0);
        self.sent = self.sent + 1;
        if let Err(e) = outcome {
            self.failure = Some(e);
        }
    }

    /// The result of the batch: the first failure, or success.
    pub fn finish(&self) -> (r: Outcome)
        requires
            self.wf(),
        ensures
            r == batch_result(self.seen()),
    {
        match self.failure {
            Some(e) => Err(e),
            None => Ok(()),
        }
    }
}

} // verus!
