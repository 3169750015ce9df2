//! The aggregation core: the single owner of the message batch.
//!
//! The core is driven by two independent event sources — message arrivals and
//! timer ticks — processed strictly one at a time. Its behaviour is given by
//! the spec-level transition functions [`batch_after`] and [`flush_after`],
//! and [`run`] folds a whole event sequence into the resulting batch and the
//! sequence of flushed batches. The executable [`Aggregator`] is proved to
//! follow those transitions exactly, and the proof functions at the end state
//! the conservation laws of the model.

use vstd::prelude::*;

verus! {

/// One event the aggregation core can process: the arrival of one message,
/// or one tick of the recurring timer. Used only in specifications.
pub enum CoreEvent {
    Arrive(Seq<char>),
    Tick,
}

/// The batch after the core processes `ev` from state `batch`, with a flush
/// forced at `threshold` buffered messages. Reaching the threshold exactly
/// also flushes; a tick on an empty batch is a no-op.
pub open spec fn batch_after(batch: Seq<Seq<char>>, threshold: nat, ev: CoreEvent) -> Seq<Seq<char>> {
    match ev {
        CoreEvent::Arrive(m) => if batch.push(m).len() >= threshold {
            Seq::empty()
        } else {
            batch.push(m)
        },
        CoreEvent::Tick => if batch.len() > 0 {
            Seq::empty()
        } else {
            batch
        },
    }
}

/// The batch handed to the flush sink when the core processes `ev` from
/// state `batch`, or `None` when no flush is triggered.
pub open spec fn flush_after(batch: Seq<Seq<char>>, threshold: nat, ev: CoreEvent) -> Option<Seq<Seq<char>>> {
    match ev {
        CoreEvent::Arrive(m) => if batch.push(m).len() >= threshold {
            Some(batch.push(m))
        } else {
            None
        },
        CoreEvent::Tick => if batch.len() > 0 {
            Some(batch)
        } else {
            None
        },
    }
}

/// The state the model reaches after a sequence of events: the current batch
/// and every batch flushed so far, in flush order.
pub struct CoreTrace {
    pub batch: Seq<Seq<char>>,
    pub flushes: Seq<Seq<Seq<char>>>,
}

/// Folds a whole event sequence into the trace it produces, starting from an
/// empty batch and no flushes.
pub open spec fn run(threshold: nat, events: Seq<CoreEvent>) -> CoreTrace
    decreases events.len(),
{
    if events.len() == 0 {
        CoreTrace { batch: Seq::empty(), flushes: Seq::empty() }
    } else {
        let prev = run(threshold, events.drop_last());
        CoreTrace {
            batch: batch_after(prev.batch, threshold, events.last()),
            flushes: match flush_after(prev.batch, threshold, events.last()) {
                Some(f) => prev.flushes.push(f),
                None => prev.flushes,
            },
        }
    }
}

/// The messages that arrived in an event sequence, in arrival order.
pub open spec fn arrivals(events: Seq<CoreEvent>) -> Seq<Seq<char>>
    decreases events.len(),
{
    if events.len() == 0 {
        Seq::empty()
    } else {
        match events.last() {
            CoreEvent::Arrive(m) => arrivals(events.drop_last()).push(m),
            CoreEvent::Tick => arrivals(events.drop_last()),
        }
    }
}

/// The model-level value of what one event handed to the flush sink.
pub open spec fn emitted(flushed: Option<Vec<String>>) -> Option<Seq<Seq<char>>> {
    match flushed {
        Some(v) => Some(v.deep_view()),
        None => None,
    }
}

/// The single owner of the batch. Every mutation of the batch goes through
/// `ingest`, `on_timer_tick` or `flush`, each processed to completion before
/// the next event is considered.
pub struct Aggregator {
    batch: Vec<String>,
    threshold: usize,
}

impl Aggregator {
    /// The current batch, as the ordered sequence of message contents.
    pub closed spec fn batch_model(&self) -> Seq<Seq<char>> {
        self.batch.deep_view()
    }

    /// The configured size threshold.
    pub closed spec fn threshold_model(&self) -> nat {
        self.threshold as nat
    }

    /// Validity: the threshold is positive, and the batch sits strictly below
    /// it — reaching the threshold triggers an immediate flush, so a batch at
    /// or above it is never observable between events.
    pub open spec fn wf(&self) -> bool {
        &&& self.threshold_model() >= 1
        &&& self.batch_model().len() < self.threshold_model()
    }

    /// Creates a core with an empty batch.
    pub fn new(threshold: usize) -> (core: Aggregator)
        requires
            threshold >= 1,
        ensures
            core.wf(),
            core.threshold_model() == threshold,
            core.batch_model() == Seq::<Seq<char>>::empty(),
    {
        Aggregator { batch: Vec::new(), threshold }
    }

    /// Number of messages currently buffered.
    pub fn len(&self) -> (n: usize)
        ensures
            n == self.batch_model().len(),
    {
        self.batch.len()
    }

    /// Hands the whole batch over for emission and clears it. The take and
    /// the clear are one step: no message can slip in between them.
    pub fn flush(&mut self) -> (flushed: Vec<String>)
        requires
            old(self).threshold_model() >= 1,
            old(self).batch_model().len() >= 1,
        ensures
            final(self).wf(),
            final(self).threshold_model() == old(self).threshold_model(),
            final(self).batch_model() == Seq::<Seq<char>>::empty(),
            flushed.deep_view() == old(self).batch_model(),
    {
        let mut flushed: Vec<String> = Vec::new();
        core::mem::swap(&mut flushed, &mut self.batch);
        proof {
            assert(self.batch_model() =~= Seq::<Seq<char>>::empty());
        }
        flushed
    }

    /// Appends one arriving message; if the batch thereby reaches the
    /// threshold, flushes it at once and returns the flushed batch.
    pub fn ingest(&mut self, msg: String) -> (flushed: Option<Vec<String>>)
        requires
            old(self).wf(),
        ensures
            final(self).wf(),
            final(self).threshold_model() == old(self).threshold_model(),
            final(self).batch_model() == batch_after(
                old(self).batch_model(),
                old(self).threshold_model(),
                CoreEvent::Arrive(msg@),
            ),
            emitted(flushed) == flush_after(
                old(self).batch_model(),
                old(self).threshold_model(),
                CoreEvent::Arrive(msg@),
            ),
    {
        self.batch.push(msg);
        if self.batch.len() >= self.threshold {
            Some(self.flush())
        } else {
            None
        }
    }

    /// Processes one timer tick: flushes a non-empty batch, does nothing on
    /// an empty one (flushing an empty batch is forbidden).
    pub fn on_timer_tick(&mut self) -> (flushed: Option<Vec<String>>)
        requires
            old(self).wf(),
        ensures
            final(self).wf(),
            final(self).threshold_model() == old(self).threshold_model(),
            final(self).batch_model() == batch_after(
                old(self).batch_model(),
                old(self).threshold_model(),
                CoreEvent::Tick,
            ),
            emitted(flushed) == flush_after(
                old(self).batch_model(),
                old(self).threshold_model(),
                CoreEvent::Tick,
            ),
    {
        if self.batch.len() > 0 {
            Some(self.flush())
        } else {
            None
        }
    }
}

/// Conservation law: over any event sequence, the flushed batches —
/// concatenated in flush order — followed by the messages still buffered are
/// exactly the arrived messages, in arrival order. So every message is
/// flushed at most once, never duplicated across two flushes, never lost,
/// and the arrival order (hence each connection's relative order) is kept.
pub proof fn lemma_flushes_partition_arrivals(threshold: nat, events: Seq<CoreEvent>)
    requires
        threshold >= 1,
    ensures
        run(threshold, events).flushes.flatten() + run(threshold, events).batch
            == arrivals(events),
    decreases events.len(),
{
    broadcast use Seq::lemma_flatten_push;

    if events.len() > 0 {
        lemma_flushes_partition_arrivals(threshold, events.drop_last());
    }
    assert(run(threshold, events).flushes.flatten() + run(threshold, events).batch
        =~= arrivals(events));
}

/// Quiet-prefix law: while fewer messages than the threshold have arrived
/// and the timer has not ticked, the batch holds exactly the arrived
/// messages and nothing has been flushed.
pub proof fn lemma_below_threshold_no_flush(threshold: nat, events: Seq<CoreEvent>)
    requires
        forall|i: int| 0 <= i < events.len() ==> events[i] is Arrive,
        events.len() < threshold,
    ensures
        arrivals(events).len() == events.len(),
        run(threshold, events).batch == arrivals(events),
        run(threshold, events).flushes.len() == 0,
    decreases events.len(),
{
    if events.len() > 0 {
        lemma_below_threshold_no_flush(threshold, events.drop_last());
    }
}

/// Every flushed batch is non-empty: no flush ever hands the sink an empty
/// emission, however many timer ticks elapse.
pub proof fn lemma_no_empty_flush(threshold: nat, events: Seq<CoreEvent>)
    requires
        threshold >= 1,
    ensures
        forall|i: int| 0 <= i < run(threshold, events).flushes.len()
            ==> #[trigger] run(threshold, events).flushes[i].len() >= 1,
    decreases events.len(),
{
    if events.len() > 0 {
        lemma_no_empty_flush(threshold, events.drop_last());
        let prev = run(threshold, events.drop_last());
        assert(forall|i: int| 0 <= i < prev.flushes.len()
            ==> #[trigger] run(threshold, events).flushes[i].len() >= 1);
    }
}

/// Immediacy law: over any event sequence, the batch never sits at or above
/// the threshold — an arrival that makes it reach the threshold flushes
/// within that same event, before the next one is considered.
pub proof fn lemma_batch_always_below_threshold(threshold: nat, events: Seq<CoreEvent>)
    requires
        threshold >= 1,
    ensures
        run(threshold, events).batch.len() < threshold,
    decreases events.len(),
{
    if events.len() > 0 {
        lemma_batch_always_below_threshold(threshold, events.drop_last());
    }
}

/// Counting corollary of the conservation law: when the arrived messages
/// number `k * m` — say `k` connections each contributing `m` messages —
/// exactly `k * m` messages are distributed across the flushes and the
/// remaining batch, none lost, none duplicated.
pub proof fn lemma_total_message_count(threshold: nat, events: Seq<CoreEvent>, k: nat, m: nat)
    requires
        threshold >= 1,
        arrivals(events).len() == k * m,
    ensures
        run(threshold, events).flushes.flatten().len() + run(threshold, events).batch.len()
            == k * m,
{
    lemma_flushes_partition_arrivals(threshold, events);
    assert(run(threshold, events).flushes.flatten().len() + run(threshold, events).batch.len()
        == (run(threshold, events).flushes.flatten() + run(threshold, events).batch).len());
}

} // verus!
