//! The flush policy: when the current batch is handed on, and what stays behind.

use crate::batch::{batch_bytes, BatchPool, LogBatch};
use crate::error::LoggingError;
use crate::record::{capped, LogEntry};
use vstd::prelude::*;
use vstd::string::*;

verus! {

/// The limits of a batch.
#[derive(Debug, Clone, Copy, PartialEq, Eq, Structural)]
pub struct BatchLimits {
    /// The number of records at which a batch is handed on.
    pub batch_size: usize,
    /// The time after the last flush at which a batch is handed on, in microseconds.
    pub flush_interval_micros: u64,
    /// The bytes that a batch may be estimated to hold.
    pub max_memory_bytes: usize,
}

/// What the caller of the batcher has to do.
pub enum BatcherAction {
    /// Nothing.
    Idle,
    /// Hand this batch to the transports, then give it back.
    Dispatch(LogBatch),
    /// Count this record as dropped: alone it is over the memory limit.
    Reject(LogEntry),
}

impl BatcherAction {
    /// The records of the batch that is handed on; none where no batch is.
    pub open spec fn records(self) -> Seq<LogEntry> {
        match self {
            BatcherAction::Dispatch(batch) => batch@,
            _ => Seq::<LogEntry>::empty(),
        }
    }
}

/// The time from `since` to `now`; nothing when the clock went back.
pub open spec fn elapsed(now: u64, since: u64) -> nat {
    if now >= since {
        (now - since) as nat
    } else {
        0
    }
}

/// Appending a record adds its estimate to that of the batch.
pub proof fn lemma_batch_bytes_push(entries: Seq<LogEntry>, entry: LogEntry)
    ensures
        batch_bytes(entries.push(entry)) == batch_bytes(entries) + capped(entry.size()),
{
    assert(entries.push(entry).drop_last() =~= entries);
}

/// Collects records into the current batch and decides when it is handed on.
pub struct Batcher {
    limits: BatchLimits,
    current: LogBatch,
    current_bytes: usize,
    last_flush_micros: u64,
    pool: BatchPool,
}

impl Batcher {
    /// The limits that the batcher was made with.
    pub closed spec fn limits(&self) -> BatchLimits {
        self.limits
    }

    /// The records of the current batch.
    pub closed spec fn pending(&self) -> Seq<LogEntry> {
        self.current@
    }

    /// The time of the last flush, in microseconds.
    pub closed spec fn last_flush(&self) -> u64 {
        self.last_flush_micros
    }

    /// The number of idle batches that wait in the pool to be used again.
    pub closed spec fn idle_batches(&self) -> nat {
        self.pool.idle_count()
    }

    /// What every method keeps true: the current batch is under both limits.
    pub closed spec fn wf(&self) -> bool {
        &&& self.limits.batch_size >= 1
        &&& self.current@.len() < self.limits.batch_size
        &&& self.current_bytes == batch_bytes(self.current@)
        &&& self.current_bytes <= self.limits.max_memory_bytes
        &&& self.pool.wf()
    }

    /// A batch that may be handed on under `limits`: not empty, and within both limits.
    pub open spec fn within_limits(batch: Seq<LogEntry>, limits: BatchLimits) -> bool {
        &&& 1 <= batch.len() <= limits.batch_size
        &&& batch_bytes(batch) <= limits.max_memory_bytes
    }

    /// What `push` does: `before` and `last_flush` are the current batch and the time of
    /// the last flush when `entry` comes at the time `now`; `action`, `after` and
    /// `flushed_at` are what the caller is told and what the batcher holds afterwards.
    pub open spec fn pushed(
        before: Seq<LogEntry>,
        last_flush: u64,
        limits: BatchLimits,
        entry: LogEntry,
        now: u64,
        action: BatcherAction,
        after: Seq<LogEntry>,
        flushed_at: u64,
    ) -> bool {
        let size = capped(entry.size());
        if size > limits.max_memory_bytes {
            action == BatcherAction::Reject(entry) && after == before && flushed_at == last_flush
        } else if batch_bytes(before) + size > limits.max_memory_bytes {
            &&& action matches BatcherAction::Dispatch(batch)
            &&& batch@ == before
            &&& after == seq![entry]
            &&& flushed_at == now
        } else if before.len() + 1 >= limits.batch_size || elapsed(now, last_flush)
            > limits.flush_interval_micros {
            &&& action matches BatcherAction::Dispatch(batch)
            &&& batch@ == before.push(entry)
            &&& after == Seq::<LogEntry>::empty()
            &&& flushed_at == now
        } else {
            action is Idle && after == before.push(entry) && flushed_at == last_flush
        }
    }

    /// A batcher with an empty current batch and `pool_size` idle batches. The batch size
    /// and the memory limit must not be zero.
    pub fn new(limits: BatchLimits, now_micros: u64, pool_size: usize) -> (r: Result<
        Self,
        LoggingError,
    >)
        ensures
            r is Ok <==> limits.batch_size >= 1 && limits.max_memory_bytes >= 1,
            r matches Ok(b) ==> b.wf() && b.limits() == limits && b.pending() == Seq::<
                LogEntry,
            >::empty() && b.last_flush() == now_micros,
            r matches Err(e) ==> e is ConfigError,
    {
        if limits.batch_size == 0 {
            return Err(
                LoggingError::ConfigError(String::from_str("Batch size must be greater than 0")),
            );
        }
        if limits.max_memory_bytes == 0 {
            return Err(
                LoggingError::ConfigError(
                    String::from_str("Max memory bytes must be greater than 0"),
                ),
            );
        }
        let mut pool = BatchPool::new(pool_size);
        let current = pool.get_batch();
        Ok(Batcher { limits, current, current_bytes: 0, last_flush_micros: now_micros, pool })
    }

    /// The number of records in the current batch.
    pub fn pending_len(&self) -> (r: usize)
        ensures
            r == self.pending().len(),
    {
        self.current.len()
    }

    /// Hands the current batch on and starts an empty one.
    fn take_current(&mut self, now_micros: u64) -> (r: LogBatch)
        requires
            old(self).pool.wf(),
        ensures
            r@ == old(self).current@,
            final(self).current@ == Seq::<LogEntry>::empty(),
            final(self).current_bytes == 0,
            final(self).last_flush_micros == now_micros,
            final(self).limits == old(self).limits,
            final(self).pool.wf(),
    {
        let mut batch = self.pool.get_batch();
        std::mem::swap(&mut self.current, &mut batch);
        self.current_bytes = 0;
        self.last_flush_micros = now_micros;
        batch
    }

    /// Takes one record at the time `now_micros`.
    ///
    /// A record that alone is over the memory limit is given back. Otherwise the record
    /// joins the current batch, and a batch is handed on when a limit is reached: the
    /// current batch without the record if the record would take it over the memory
    /// limit, the current batch with the record if that fills it or if more than the
    /// flush interval has passed since the last flush.
    pub fn push(&mut self, entry: LogEntry, now_micros: u64) -> (r: BatcherAction)
        requires
            old(self).wf(),
        ensures
            final(self).wf(),
            final(self).limits() == old(self).limits(),
            Self::pushed(
                old(self).pending(),
                old(self).last_flush(),
                old(self).limits(),
                entry,
                now_micros,
                r,
                final(self).pending(),
                final(self).last_flush(),
            ),
            r matches BatcherAction::Dispatch(batch) ==> Self::within_limits(
                batch@,
                old(self).limits(),
            ),
    {
        let size = entry.memory_size();
        if size > self.limits.max_memory_bytes {
            return BatcherAction::Reject(entry);
        }
        proof {
            lemma_batch_bytes_push(self.current@, entry);
            lemma_batch_bytes_push(Seq::<LogEntry>::empty(), entry);
            assert(Seq::<LogEntry>::empty().push(entry) =~= seq![entry]);
        }
        if size > self.limits.max_memory_bytes - self.current_bytes {
            let batch = self.take_current(now_micros);
            self.current.add_entry(entry);
            self.current_bytes = size;
            assert(self.current@ =~= seq![entry]);
            return BatcherAction::Dispatch(batch);
        }
        self.current.add_entry(entry);
        self.current_bytes = self.current_bytes + size;
        let waited = if now_micros >= self.last_flush_micros {
            now_micros - self.last_flush_micros
        } else {
            0
        };
        if self.current.len() >= self.limits.batch_size || waited
            > self.limits.flush_interval_micros {
            let batch = self.take_current(now_micros);
            BatcherAction::Dispatch(batch)
        } else {
            BatcherAction::Idle
        }
    }

    /// Lets time pass: hands the current batch on when it is not empty and more than the
    /// flush interval has passed since the last flush.
    pub fn tick(&mut self, now_micros: u64) -> (r: BatcherAction)
        requires
            old(self).wf(),
        ensures
            final(self).wf(),
            final(self).limits() == old(self).limits(),
            !(r is Reject),
            r is Dispatch <==> old(self).pending().len() > 0 && elapsed(
                now_micros,
                old(self).last_flush(),
            ) > old(self).limits().flush_interval_micros,
            r matches BatcherAction::Dispatch(batch) ==> batch@ == old(self).pending()
                && final(self).pending().len() == 0 && final(self).last_flush() == now_micros
                && Self::within_limits(batch@, old(self).limits()),
            r is Idle ==> final(self).pending() == old(self).pending() && final(self).last_flush() == old(self).last_flush(),
    {
        let waited = if now_micros >= self.last_flush_micros {
            now_micros - self.last_flush_micros
        } else {
            0
        };
        if self.current.len() > 0 && waited > self.limits.flush_interval_micros {
            BatcherAction::Dispatch(self.take_current(now_micros))
        } else {
            BatcherAction::Idle
        }
    }

    /// Hands the current batch on unless it is empty.
    pub fn flush(&mut self, now_micros: u64) -> (r: BatcherAction)
        requires
            old(self).wf(),
        ensures
            final(self).wf(),
            final(self).limits() == old(self).limits(),
            !(r is Reject),
            r is Dispatch <==> old(self).pending().len() > 0,
            r matches BatcherAction::Dispatch(batch) ==> batch@ == old(self).pending()
                && final(self).pending().len() == 0 && final(self).last_flush() == now_micros
                && Self::within_limits(batch@, old(self).limits()),
            r is Idle ==> final(self).pending() == old(self).pending() && final(self).last_flush() == old(self).last_flush(),
    {
        if self.current.len() > 0 {
            BatcherAction::Dispatch(self.take_current(now_micros))
        } else {
            BatcherAction::Idle
        }
    }

    /// Takes a batch back after the transports are done with it: the batch is emptied
    /// and joins the idle batches of the pool.
    pub fn recycle(&mut self, batch: LogBatch)
        requires
            old(self).wf(),
        ensures
            final(self).wf(),
            final(self).limits() == old(self).limits(),
            final(self).pending() == old(self).pending(),
            final(self).last_flush() == old(self).last_flush(),
            final(self).idle_batches() == old(self).idle_batches() + 1,
    {
        self.pool.return_batch(batch);
    }
}

} // verus!
