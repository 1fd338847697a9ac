//! The counters by which the pipeline accounts for every record.

use vstd::prelude::*;

verus! {

/// What the pipeline has counted so far. Every counter only grows.
#[derive(Debug, Clone, Copy, PartialEq, Eq, Structural)]
pub struct LoggerStats {
    /// Records that were given a sequence number.
    pub records_submitted: u64,
    /// Records that a transport took.
    pub records_logged: u64,
    /// Records that were given up: refused at the queue, or lost with their batch.
    pub records_dropped: u64,
    /// Batches that a transport took.
    pub batches_processed: u64,
    /// Send attempts that failed.
    pub transport_errors: u64,
    /// Records refused because the queue was full.
    pub buffer_overflow: u64,
    /// The number of records in the batch that was handed on last.
    pub avg_batch_size: u64,
    /// The sum of the submission latencies that were reported, in nanoseconds.
    pub total_latency_ns: u64,
}

impl LoggerStats {
    /// Counters that have counted nothing.
    pub open spec fn zero() -> LoggerStats {
        LoggerStats {
            records_submitted: 0,
            records_logged: 0,
            records_dropped: 0,
            batches_processed: 0,
            transport_errors: 0,
            buffer_overflow: 0,
            avg_batch_size: 0,
            total_latency_ns: 0,
        }
    }

    /// Counters that have counted nothing.
    pub fn new() -> (r: Self)
        ensures
            r == (LoggerStats {
                records_submitted: 0,
                records_logged: 0,
                records_dropped: 0,
                batches_processed: 0,
                transport_errors: 0,
                buffer_overflow: 0,
                avg_batch_size: 0,
                total_latency_ns: 0,
            }),
    {
        LoggerStats {
            records_submitted: 0,
            records_logged: 0,
            records_dropped: 0,
            batches_processed: 0,
            transport_errors: 0,
            buffer_overflow: 0,
            avg_batch_size: 0,
            total_latency_ns: 0,
        }
    }

    /// No counter of `self` is above the same counter of `later`.
    pub open spec fn not_above(self, later: LoggerStats) -> bool {
        &&& self.records_submitted <= later.records_submitted
        &&& self.records_logged <= later.records_logged
        &&& self.records_dropped <= later.records_dropped
        &&& self.batches_processed <= later.batches_processed
        &&& self.transport_errors <= later.transport_errors
        &&& self.buffer_overflow <= later.buffer_overflow
        &&& self.total_latency_ns <= later.total_latency_ns
    }

    /// The mean of the reported latencies per logged record, in whole nanoseconds; zero
    /// while nothing was logged.
    pub fn average_latency_ns(&self) -> (r: u64)
        ensures
            r == if self.records_logged == 0 {
                0
            } else {
                self.total_latency_ns as int / self.records_logged as int
            },
    {
        if self.records_logged == 0 {
            0
        } else {
            self.total_latency_ns / self.records_logged
        }
    }

    /// The mean number of records per batch that a transport took, rounded down; zero
    /// while no batch was taken.
    pub fn mean_batch_size(&self) -> (r: u64)
        ensures
            r == if self.batches_processed == 0 {
                0
            } else {
                self.records_logged as int / self.batches_processed as int
            },
    {
        if self.batches_processed == 0 {
            0
        } else {
            self.records_logged / self.batches_processed
        }
    }

    /// Adds one reported submission latency; the sum stops at the top of its range.
    pub fn record_latency(&mut self, latency_ns: u64)
        ensures
            *final(self) == (LoggerStats {
                total_latency_ns: if old(self).total_latency_ns + latency_ns > u64::MAX {
                    u64::MAX
                } else {
                    (old(self).total_latency_ns + latency_ns) as u64
                },
                ..*old(self)
            }),
            old(self).not_above(*final(self)),
    {
        self.total_latency_ns = self.total_latency_ns.saturating_add(latency_ns);
    }
}

} // verus!
