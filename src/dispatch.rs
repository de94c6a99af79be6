//! Sending in batches: the subscriber list is cut into contiguous groups of
//! at most `BATCH_SIZE`, each sent as one call, with a pause between calls.
//! A failed call is recorded and the run goes on with the next group.
use vstd::prelude::*;

verus! {

/// Emails per outbound batch call.
pub const BATCH_SIZE: usize = 100;

/// Milliseconds to wait between two batch calls.
pub const BATCH_DELAY_MS: u64 = 1000;

/// The recipients `start..end` of the subscriber list.
#[derive(Clone, Copy, Debug, PartialEq, Eq, Structural)]
pub struct BatchSpan {
    pub start: usize,
    pub end: usize,
}

/// What became of one batch call.
#[derive(Clone, Copy, Debug, PartialEq, Eq, Structural)]
pub enum BatchOutcome {
    Sent,
    Failed,
}

/// What the caller does after a batch call.
#[derive(Clone, Copy, Debug, PartialEq, Eq, Structural)]
pub enum DispatchStep {
    /// Wait `delay_ms`, then send the next batch.
    Wait { delay_ms: u64 },
    /// Every batch has been tried.
    Done,
}

/// The number of batches for `n` recipients.
pub open spec fn batch_count(n: nat) -> nat {
    ((n + BATCH_SIZE - 1) / (BATCH_SIZE as int)) as nat
}

/// Batch `i` of `n` recipients: the next `BATCH_SIZE`, or what is left.
pub open spec fn span_of(n: nat, i: nat) -> BatchSpan {
    let start = i * BATCH_SIZE as nat;
    let end = if start + BATCH_SIZE as nat <= n {
        start + BATCH_SIZE as nat
    } else {
        n
    };
    BatchSpan { start: start as usize, end: end as usize }
}

/// Cuts `n` recipients into batches, in order.
pub fn plan_batches(n: usize) -> (r: Vec<BatchSpan>)
    ensures
        r@.len() == batch_count(n as nat),
        forall|i: int| 0 <= i < r@.len() ==> #[trigger] r@[i] == span_of(n as nat, i as nat),
{
    let mut r: Vec<BatchSpan> = Vec::new();
    let mut start: usize = 0;
    while start < n
        invariant
            start <= n,
            start < n ==> start == r@.len() * BATCH_SIZE,
            r@.len() <= batch_count(n as nat),
            start < n ==> r@.len() < batch_count(n as nat),
            start >= n ==> r@.len() == batch_count(n as nat),
            forall|i: int| 0 <= i < r@.len() ==> #[trigger] r@[i] == span_of(n as nat, i as nat),
        decreases n - start,
    {
        let end = if n - start >= BATCH_SIZE { start + BATCH_SIZE } else { n };
        let ghost k = r@.len();
        r.push(BatchSpan { start, end });
        start = end;
        proof {
            if start < n {
                assert(start == (k + 1) * BATCH_SIZE);
                assert((n as int + 99) / 100 > k + 1) by (nonlinear_arith)
                    requires
                        (k + 1) * 100 < n,
                ;
            } else {
                assert(start == n);
                assert((n as int + 99) / 100 == k + 1) by (nonlinear_arith)
                    requires
                        k * 100 < n,
                        n <= (k + 1) * 100,
                ;
            }
        }
    }
    proof {
        if n == 0 {
            assert(batch_count(0) == 0);
        }
    }
    r
}

/// The batches cover the recipients in order, with no gap and no overlap:
/// each holds `BATCH_SIZE` recipients but the last, which holds the rest.
pub proof fn lemma_batches_partition(n: nat, i: nat)
    requires
        n <= usize::MAX,
        i < batch_count(n),
    ensures
        span_of(n, i).start == i * BATCH_SIZE,
        span_of(n, i).start < span_of(n, i).end <= n,
        i + 1 < batch_count(n) ==> span_of(n, i).end == span_of(n, i + 1).start
            && span_of(n, i).end - span_of(n, i).start == BATCH_SIZE,
        i + 1 == batch_count(n) ==> span_of(n, i).end == n,
{
    assert((n + 99) / 100 > i ==> i * 100 < n) by (nonlinear_arith);
    assert((n + 99) / 100 > i + 1 ==> (i + 1) * 100 < n) by (nonlinear_arith);
    assert((n + 99) / 100 == i + 1 ==> n <= (i + 1) * 100) by (nonlinear_arith);
}

/// Steps through the batches of one run and records each call's outcome.
pub struct Dispatcher {
    recipients: usize,
    next: usize,
    outcomes: Vec<BatchOutcome>,
}

/// How recording one batch call moves a run: `before` and `after` are the
/// run around the call, `r` what the caller is told to do. A pause follows
/// every batch but the last.
pub open spec fn sent_step(before: Dispatcher, after: Dispatcher, sent: bool, r: DispatchStep) -> bool {
    &&& after.wf()
    &&& after.spec_recipients() == before.spec_recipients()
    &&& after.spec_next() == before.spec_next() + 1
    &&& after.spec_outcomes() == before.spec_outcomes().push(
        if sent {
            BatchOutcome::Sent
        } else {
            BatchOutcome::Failed
        },
    )
    &&& after.spec_next() < batch_count(after.spec_recipients()) ==> r == (DispatchStep::Wait {
        delay_ms: BATCH_DELAY_MS,
    })
    &&& after.spec_next() >= batch_count(after.spec_recipients()) ==> r == DispatchStep::Done
}

/// A failed batch call is isolated: the run goes on to the same next batch,
/// with the same pause, as after a successful one; only the recorded outcome
/// differs.
pub proof fn lemma_send_failure_is_isolated(
    before: Dispatcher,
    after_sent: Dispatcher,
    after_failed: Dispatcher,
    r_sent: DispatchStep,
    r_failed: DispatchStep,
)
    requires
        sent_step(before, after_sent, true, r_sent),
        sent_step(before, after_failed, false, r_failed),
    ensures
        after_failed.spec_next() == after_sent.spec_next(),
        after_failed.spec_recipients() == after_sent.spec_recipients(),
        r_failed == r_sent,
        after_failed.spec_outcomes().drop_last() == after_sent.spec_outcomes().drop_last(),
        after_failed.spec_outcomes().last() == BatchOutcome::Failed,
{
    assert(after_failed.spec_outcomes().drop_last() =~= before.spec_outcomes());
    assert(after_sent.spec_outcomes().drop_last() =~= before.spec_outcomes());
}

impl Dispatcher {
    /// The number of recipients of the run.
    pub closed spec fn spec_recipients(&self) -> nat {
        self.recipients as nat
    }

    /// The outcomes of the batches tried so far, in order.
    pub closed spec fn spec_outcomes(&self) -> Seq<BatchOutcome> {
        self.outcomes@
    }

    /// The index of the next batch; every batch before it has been tried.
    pub closed spec fn spec_next(&self) -> nat {
        self.next as nat
    }

    pub closed spec fn wf(&self) -> bool {
        &&& self.outcomes@.len() == self.next
        &&& self.next <= batch_count(self.recipients as nat)
    }

    /// A run over `recipients` recipients, no batch tried yet.
    pub fn new(recipients: usize) -> (r: Dispatcher)
        ensures
            r.wf(),
            r.spec_recipients() == recipients,
            r.spec_next() == 0,
            r.spec_outcomes() == Seq::<BatchOutcome>::empty(),
    {
        Dispatcher { recipients, next: 0, outcomes: Vec::new() }
    }

    /// The batch to send now, or `None` once every batch has been tried.
    pub fn current(&self) -> (r: Option<BatchSpan>)
        requires
            self.wf(),
        ensures
            self.spec_next() < batch_count(self.spec_recipients()) ==> r == Some(
                span_of(self.spec_recipients(), self.spec_next()),
            ),
            self.spec_next() >= batch_count(self.spec_recipients()) ==> r is None,
    {
        let n = self.recipients;
        if n == 0 || self.next > (n - 1) / BATCH_SIZE {
            return None;
        }
        let start = self.next * BATCH_SIZE;
        let end = if n - start >= BATCH_SIZE { start + BATCH_SIZE } else { n };
        Some(BatchSpan { start, end })
    }

    /// Records the outcome of the current batch's call and moves on. A failed
    /// call moves on exactly as a sent one does; a pause follows every batch
    /// but the last.
    pub fn on_sent(&mut self, sent: bool) -> (r: DispatchStep)
        requires
            old(self).wf(),
            old(self).spec_next() < batch_count(old(self).spec_recipients()),
        ensures
            ({
                let before = *old(self);
                let after = *final(self);
                sent_step(before, after, sent, r)
            }),
    {
        self.outcomes.push(if sent { BatchOutcome::Sent } else { BatchOutcome::Failed });
        self.next = self.next + 1;
        let n = self.recipients;
        if self.next <= (n - 1) / BATCH_SIZE {
            DispatchStep::Wait { delay_ms: BATCH_DELAY_MS }
        } else {
            DispatchStep::Done
        }
    }

    /// The outcomes of the batches tried, in order.
    pub fn into_outcomes(self) -> (r: Vec<BatchOutcome>)
        ensures
            r@ == self.spec_outcomes(),
    {
        self.outcomes
    }
}

} // verus!
