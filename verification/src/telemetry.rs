//! Outbound telemetry channel: the buffered batch-and-flush discipline
//! shared by every batching producer.
//!
//! A producer appends records to its channel's buffer; a periodic timer (or
//! the service's stop path) drains the whole buffer. A drain while sends
//! are allowed hands the records over as one immutable batch; a drain while
//! they are not discards the records. Either way the buffer is empty
//! afterwards, so memory is bounded by the records gathered since the last
//! drain, never by the history of failed flushes. Delivery is best-effort,
//! at most once: a batch is a moved value, and a failed send discards it
//! with no retry and no re-buffering.

use vstd::prelude::*;

use crate::state::ConnectionState;

verus! {

/// A drained, immutable snapshot of one producer's buffer, sent as one
/// outbound unit. The batch is consumed by the send, so it is flushed at
/// most once and its producer cannot mutate it after the drain.
pub struct TelemetryBatch<R> {
    kind: String,
    records: Vec<R>,
    created_at: u64,
}

impl<R> TelemetryBatch<R> {
    /// What the producer monitors (activity log, keystroke, process list).
    pub closed spec fn spec_kind(&self) -> Seq<char> {
        self.kind@
    }

    /// The records of the batch, in append order.
    pub closed spec fn spec_records(&self) -> Seq<R> {
        self.records@
    }

    /// When the batch was drained.
    pub closed spec fn spec_created_at(&self) -> u64 {
        self.created_at
    }

    /// Read access to the batch kind.
    pub fn kind(&self) -> (r: &str)
        ensures
            r@ == self.spec_kind(),
    {
        self.kind.as_str()
    }

    /// Read access to the records.
    pub fn records(&self) -> (r: &Vec<R>)
        ensures
            r@ == self.spec_records(),
    {
        &self.records
    }

    /// The creation time handed to the drain.
    pub fn created_at(&self) -> (r: u64)
        ensures
            r == self.spec_created_at(),
    {
        self.created_at
    }
}

/// What one drain attempt yielded.
pub enum FlushOutcome<R> {
    /// The buffer was empty: nothing to hand over, nothing lost.
    Empty,
    /// Records were drained while sends were not allowed: the whole batch
    /// is discarded, and this many records are dropped silently.
    Discarded(usize),
    /// Records were drained into one batch owed to the transport.
    Send(TelemetryBatch<R>),
}

/// One producer's buffered outbound channel.
pub struct TelemetryChannel<R> {
    kind: String,
    records: Vec<R>,
    running: bool,
}

impl<R> TelemetryChannel<R> {
    /// The records buffered since the last drain, in append order.
    pub closed spec fn buffer(&self) -> Seq<R> {
        self.records@
    }

    /// What the producer monitors.
    pub closed spec fn spec_kind(&self) -> Seq<char> {
        self.kind@
    }

    /// Whether the producing service is running.
    pub closed spec fn spec_running(&self) -> bool {
        self.running
    }

    /// A fresh channel: not running, nothing buffered.
    pub fn new(kind: String) -> (r: TelemetryChannel<R>)
        ensures
            r.spec_kind() == kind@,
            r.buffer() == Seq::<R>::empty(),
            !r.spec_running(),
    {
        let r = TelemetryChannel { kind, records: Vec::new(), running: false };
        proof {
            assert(r.buffer() =~= Seq::<R>::empty());
        }
        r
    }

    /// Idempotent service start: returns whether the service was newly
    /// started, and never touches the buffer.
    pub fn start(&mut self) -> (started: bool)
        ensures
            final(self).spec_running(),
            final(self).buffer() == old(self).buffer(),
            final(self).spec_kind() == old(self).spec_kind(),
            started == !old(self).spec_running(),
    {
        let started = !self.running;
        self.running = true;
        started
    }

    /// Whether the service is running.
    pub fn is_active(&self) -> (r: bool)
        ensures
            r == self.spec_running(),
    {
        self.running
    }

    /// Appends one record to the buffer.
    pub fn append(&mut self, record: R)
        ensures
            final(self).buffer() == old(self).buffer().push(record),
            final(self).spec_kind() == old(self).spec_kind(),
            final(self).spec_running() == old(self).spec_running(),
    {
        self.records.push(record);
    }

    /// How many records the buffer holds.
    pub fn len(&self) -> (r: usize)
        ensures
            r == self.buffer().len(),
    {
        self.records.len()
    }

    /// Whether the buffer has reached a size limit and is due for an
    /// immediate drain.
    pub fn needs_flush(&self, limit: usize) -> (r: bool)
        ensures
            r == (self.buffer().len() >= limit),
    {
        self.records.len() >= limit
    }

    /// Drains the whole buffer. When sends are allowed and records were
    /// buffered, they leave as one batch; when sends are not allowed the
    /// records are discarded. The buffer is empty afterwards either way.
    pub fn flush(&mut self, state: ConnectionState, now: u64) -> (r: FlushOutcome<R>)
        ensures
            final(self).buffer() == Seq::<R>::empty(),
            final(self).spec_kind() == old(self).spec_kind(),
            final(self).spec_running() == old(self).spec_running(),
            match r {
                FlushOutcome::Empty => old(self).buffer().len() == 0,
                FlushOutcome::Discarded(n) => n == old(self).buffer().len() && n > 0
                    && !state.spec_sendable(),
                FlushOutcome::Send(batch) => {
                    &&& old(self).buffer().len() > 0
                    &&& state.spec_sendable()
                    &&& batch.spec_records() == old(self).buffer()
                    &&& batch.spec_kind() == old(self).spec_kind()
                    &&& batch.spec_created_at() == now
                },
            },
    {
        if self.records.len() == 0 {
            proof {
                assert(self.buffer() =~= Seq::<R>::empty());
            }
            return FlushOutcome::Empty;
        }
        let mut drained: Vec<R> = Vec::new();
        core::mem::swap(&mut drained, &mut self.records);
        proof {
            assert(self.buffer() =~= Seq::<R>::empty());
        }
        if state.is_sendable() {
            FlushOutcome::Send(TelemetryBatch {
                kind: self.kind.clone(),
                records: drained,
                created_at: now,
            })
        } else {
            FlushOutcome::Discarded(drained.len())
        }
    }

    /// Idempotent service stop: exactly one final drain attempt, after
    /// which the buffer is empty whatever became of the records. A second
    /// stop finds the buffer empty and hands nothing over.
    pub fn stop(&mut self, state: ConnectionState, now: u64) -> (r: FlushOutcome<R>)
        ensures
            !final(self).spec_running(),
            final(self).buffer() == Seq::<R>::empty(),
            final(self).spec_kind() == old(self).spec_kind(),
            match r {
                FlushOutcome::Empty => old(self).buffer().len() == 0,
                FlushOutcome::Discarded(n) => n == old(self).buffer().len() && n > 0
                    && !state.spec_sendable(),
                FlushOutcome::Send(batch) => {
                    &&& old(self).buffer().len() > 0
                    &&& state.spec_sendable()
                    &&& batch.spec_records() == old(self).buffer()
                    &&& batch.spec_kind() == old(self).spec_kind()
                    &&& batch.spec_created_at() == now
                },
            },
    {
        self.running = false;
        self.flush(state, now)
    }
}

/// One abstract operation on a channel's buffer.
pub enum ChannelOp<R> {
    /// A producer appended one record.
    Append(R),
    /// A drain ran (a timer flush, a stop, or a full-buffer flush), in the
    /// given connection state.
    Flush(ConnectionState),
}

/// The buffer contents after a sequence of operations.
pub open spec fn buffer_after<R>(b: Seq<R>, ops: Seq<ChannelOp<R>>) -> Seq<R>
    decreases ops.len(),
{
    if ops.len() == 0 {
        b
    } else {
        match ops.last() {
            ChannelOp::Append(r) => buffer_after(b, ops.drop_last()).push(r),
            ChannelOp::Flush(_) => Seq::<R>::empty(),
        }
    }
}

/// How many records were appended after the last drain (all of them, when
/// no drain happened).
pub open spec fn appends_since_flush<R>(ops: Seq<ChannelOp<R>>) -> nat
    decreases ops.len(),
{
    if ops.len() == 0 {
        0
    } else {
        match ops.last() {
            ChannelOp::Append(_) => 1 + appends_since_flush(ops.drop_last()),
            ChannelOp::Flush(_) => 0,
        }
    }
}

/// Whether any drain happened.
pub open spec fn has_flush<R>(ops: Seq<ChannelOp<R>>) -> bool {
    exists|i: int| 0 <= i < ops.len() && (#[trigger] ops[i]) matches ChannelOp::Flush(_)
}

/// Bounded memory: after any sequence of appends and drains — each drain in
/// an arbitrary connection state, so failed and discarded flushes count —
/// the buffer holds exactly the records appended since the last drain.
/// Failed-flush history never accumulates.
pub proof fn lemma_buffer_bounded<R>(b: Seq<R>, ops: Seq<ChannelOp<R>>)
    ensures
        buffer_after(b, ops).len() <= b.len() + appends_since_flush(ops),
        has_flush(ops) ==> buffer_after(b, ops).len() == appends_since_flush(ops),
    decreases ops.len(),
{
    if ops.len() > 0 {
        lemma_buffer_bounded(b, ops.drop_last());
        if has_flush(ops) && !(ops.last() matches ChannelOp::Flush(_)) {
            let i = choose|i: int| 0 <= i < ops.len() && (#[trigger] ops[i]) matches ChannelOp::Flush(_);
            assert(ops.drop_last()[i] matches ChannelOp::Flush(_));
        }
    }
}

} // verus!
