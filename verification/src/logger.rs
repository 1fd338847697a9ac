//! The pipeline from submission to dispatch: the level filter, the sequence numbers, the
//! ingest queue, the batcher, and the account of what became of every record.

use crate::batch::LogBatch;
use crate::batcher::{elapsed, BatchLimits, Batcher, BatcherAction};
use crate::buffer::{power_of_two, MpscRingBuffer};
use crate::clock::{current_time_micros, low_nanos, unix_time_nanos};
use crate::config::LoggerConfig;
use crate::error::LoggingError;
use crate::level::LogLevel;
use crate::lifecycle::{advance, next_status, LifecycleEvent, ServiceStatus};
use crate::record::{capped, plain_size, LogEntry, LogValue};
use crate::stats::LoggerStats;
use vstd::prelude::*;
use vstd::string::*;

verus! {

/// What became of a submission.
#[derive(Debug, Clone, Copy, PartialEq, Eq, Structural)]
pub enum Submission {
    /// The level is below the minimum: nothing was counted.
    Filtered,
    /// The record is in the queue under this sequence number.
    Accepted(u64),
    /// The record got this sequence number and was dropped.
    Dropped(u64),
}

/// The sequence numbers of `records` grow from each record to the next.
pub open spec fn increasing(records: Seq<LogEntry>) -> bool {
    forall|i: int, j: int|
        0 <= i < j < records.len() ==> (#[trigger] records[i]).sequence < (
        #[trigger] records[j]).sequence
}

/// Every record of `records` is estimated to hold at most `limit` bytes.
pub open spec fn all_fit(records: Seq<LogEntry>, limit: usize) -> bool {
    forall|i: int| 0 <= i < records.len() ==> capped((#[trigger] records[i]).size()) <= limit
}

/// The ring buffer size of a logger made without a configuration.
pub const DEFAULT_RING_BUFFER_SIZE: usize = 16384;

/// The limits of a batch of a logger made without a configuration: 64 records, one
/// millisecond, 64 mebibytes.
pub open spec fn default_limits() -> BatchLimits {
    BatchLimits { batch_size: 64, flush_interval_micros: 1000, max_memory_bytes: 67108864 }
}

/// The pipeline of one logger. Producers submit; one consumer pumps records from the
/// queue into batches and reports what became of each batch.
pub struct UltraLogger {
    service: String,
    min_level: LogLevel,
    limits: BatchLimits,
    queue: MpscRingBuffer<LogEntry>,
    batcher: Batcher,
    stats: LoggerStats,
    in_transit: u64,
    stopped: bool,
    status: ServiceStatus,
    accepted: Ghost<Seq<LogEntry>>,
    dispatched: Ghost<Seq<LogEntry>>,
    abandoned: Ghost<Seq<LogEntry>>,
}

impl UltraLogger {
    /// The counters.
    pub closed spec fn counters(&self) -> LoggerStats {
        self.stats
    }

    /// The records in the queue, oldest first.
    pub closed spec fn queued(&self) -> Seq<LogEntry> {
        self.queue@
    }

    /// The records of the current batch.
    pub closed spec fn pending(&self) -> Seq<LogEntry> {
        self.batcher.pending()
    }

    /// The time at which a batch was handed on last, in microseconds.
    pub closed spec fn last_flush(&self) -> u64 {
        self.batcher.last_flush()
    }

    /// The number of records in batches that were handed out and not yet reported on.
    pub closed spec fn in_transit(&self) -> nat {
        self.in_transit as nat
    }

    /// Every record that the queue ever took, in the order of submission.
    pub closed spec fn accepted(&self) -> Seq<LogEntry> {
        self.accepted@
    }

    /// Every record that was ever handed out in a batch, batch after batch.
    pub closed spec fn dispatched(&self) -> Seq<LogEntry> {
        self.dispatched@
    }

    /// The limits of a batch.
    pub closed spec fn limits(&self) -> BatchLimits {
        self.limits
    }

    /// The minimum level.
    pub closed spec fn min_level(&self) -> LogLevel {
        self.min_level
    }

    /// The capacity of the queue.
    pub closed spec fn queue_capacity(&self) -> usize {
        self.queue.spec_capacity()
    }

    /// True once the logger was shut down.
    pub closed spec fn is_stopped(&self) -> bool {
        self.stopped
    }

    /// The state of the logger: Healthy from the start, Degraded once a transport has
    /// failed for good, Stopping while it drains, Stopped after the shutdown.
    pub closed spec fn state(&self) -> ServiceStatus {
        self.status
    }

    /// The records that are under way: queued, in the current batch, or in a batch that
    /// was handed out and not yet reported on.
    pub open spec fn in_flight(&self) -> nat {
        self.queued().len() + self.pending().len() + self.in_transit()
    }

    /// Whether a record of `level` with the text `message` and no fields goes into the
    /// queue: the level is admitted, the logger is not stopped, the record is within
    /// the memory limit, and the queue has room.
    pub open spec fn takes(&self, level: LogLevel, message: Seq<char>) -> bool {
        self.takes_sized(level, plain_size(self.service_name(), message))
    }

    /// Whether a record of `level` that is estimated to hold `size` bytes goes into the
    /// queue.
    pub open spec fn takes_sized(&self, level: LogLevel, size: nat) -> bool {
        &&& self.min_level().admits_spec(level)
        &&& !self.is_stopped()
        &&& capped(size) <= self.limits().max_memory_bytes
        &&& self.queued().len() < self.queue_capacity()
    }

    /// What a submission of a record of `level` that is estimated to hold `size` bytes
    /// comes to: not counted where the level is not admitted; accepted under the next
    /// sequence number where the record goes into the queue; dropped under that number
    /// otherwise.
    pub open spec fn outcome(&self, level: LogLevel, size: nat) -> Submission {
        if !self.min_level().admits_spec(level) {
            Submission::Filtered
        } else if self.takes_sized(level, size) {
            Submission::Accepted(self.counters().records_submitted)
        } else {
            Submission::Dropped(self.counters().records_submitted)
        }
    }

    /// The counters after such a submission: as they were where it is not counted; one
    /// more submitted where it is accepted; one more submitted and one more dropped
    /// where it is dropped, and one more overflow where it is dropped for want of room
    /// in the queue. No other counter moves.
    pub open spec fn counters_after(&self, level: LogLevel, size: nat) -> LoggerStats {
        let before = self.counters();
        if !self.min_level().admits_spec(level) {
            before
        } else if self.takes_sized(level, size) {
            LoggerStats { records_submitted: (before.records_submitted + 1) as u64, ..before }
        } else {
            LoggerStats {
                records_submitted: (before.records_submitted + 1) as u64,
                records_dropped: (before.records_dropped + 1) as u64,
                buffer_overflow: if !self.is_stopped() && capped(size)
                    <= self.limits().max_memory_bytes {
                    (before.buffer_overflow + 1) as u64
                } else {
                    before.buffer_overflow
                },
                ..before
            }
        }
    }

    /// What the caller of `pump` or `flush` is handed, as the batcher names it.
    pub open spec fn action_of(handed: Option<LogBatch>) -> BatcherAction {
        match handed {
            Some(batch) => BatcherAction::Dispatch(batch),
            None => BatcherAction::Idle,
        }
    }

    /// What holds while `extra` records have left the current batch and are not yet
    /// counted as handed out.
    closed spec fn wf_with(&self, extra: Seq<LogEntry>) -> bool {
        &&& self.queue.wf()
        &&& self.batcher.wf()
        &&& self.batcher.limits() == self.limits
        &&& all_fit(self.queue@, self.limits.max_memory_bytes)
        &&& self.stats.records_submitted == self.stats.records_logged
            + self.stats.records_dropped + self.queue@.len() + self.batcher.pending().len()
            + self.in_transit + extra.len()
        &&& self.stats.buffer_overflow <= self.stats.records_dropped
        &&& self.accepted@ == self.dispatched@ + extra + self.batcher.pending() + self.queue@
            + self.abandoned@
        &&& increasing(self.accepted@)
        &&& forall|i: int|
            0 <= i < self.accepted@.len() ==> (#[trigger] self.accepted@[i]).sequence
                < self.stats.records_submitted
        &&& self.stopped ==> self.queue@.len() == 0 && self.batcher.pending().len() == 0
            && extra.len() == 0
        &&& !self.stopped ==> self.abandoned@.len() == 0
        &&& self.stopped <==> self.status == ServiceStatus::Stopped
    }

    /// What every method keeps true: every counted record is logged, dropped or under
    /// way; the records that the queue took are, in their order, those handed out, then
    /// those of the current batch, then those in the queue; sequence numbers grow.
    pub closed spec fn wf(&self) -> bool {
        self.wf_with(Seq::<LogEntry>::empty())
    }

    /// A logger for `service` that admits `min_level` and above, with a queue of
    /// `ring_buffer_size` slots. The size must be a power of two; the batch size and the
    /// memory limit must not be zero.
    pub fn with_config(
        service: String,
        min_level: LogLevel,
        ring_buffer_size: usize,
        limits: BatchLimits,
        now_micros: u64,
    ) -> (r: Result<Self, LoggingError>)
        ensures
            r is Ok <==> power_of_two(ring_buffer_size) && limits.batch_size >= 1
                && limits.max_memory_bytes >= 1,
            r matches Ok(logger) ==> logger.wf() && logger.counters() == (LoggerStats {
                records_submitted: 0,
                records_logged: 0,
                records_dropped: 0,
                batches_processed: 0,
                transport_errors: 0,
                buffer_overflow: 0,
                avg_batch_size: 0,
                total_latency_ns: 0,
            }) && logger.in_flight() == 0 && logger.limits() == limits && logger.min_level()
                == min_level && logger.queue_capacity() == ring_buffer_size
                && !logger.is_stopped() && logger.accepted().len() == 0
                && logger.dispatched().len() == 0 && logger.service_name() == service@
                && logger.state() == ServiceStatus::Healthy && logger.last_flush()
                == now_micros,
            r matches Err(e) ==> if power_of_two(ring_buffer_size) {
                e is ConfigError
            } else {
                e is BufferError
            },
    {
        let queue = match MpscRingBuffer::new(ring_buffer_size) {
            Ok(queue) => queue,
            Err(e) => {
                return Err(e);
            },
        };
        let batcher = match Batcher::new(limits, now_micros, 16) {
            Ok(batcher) => batcher,
            Err(e) => {
                return Err(e);
            },
        };
        let logger = UltraLogger {
            service,
            min_level,
            limits,
            queue,
            batcher,
            stats: LoggerStats::new(),
            in_transit: 0,
            stopped: false,
            status: ServiceStatus::Healthy,
            accepted: Ghost(Seq::empty()),
            dispatched: Ghost(Seq::empty()),
            abandoned: Ghost(Seq::empty()),
        };
        assert(logger.accepted@ =~= logger.dispatched@ + Seq::<LogEntry>::empty()
            + logger.batcher.pending() + logger.queue@ + logger.abandoned@);
        Ok(logger)
    }

    /// A logger for `service` with the level, the queue and the batches of `settings`.
    pub fn from_settings(
        service: String,
        settings: &crate::settings::UltraLoggerConfig,
        now_micros: u64,
    ) -> (r: Result<Self, LoggingError>)
        ensures
            r is Ok <==> crate::level::level_named(crate::level::lowercased(settings.level@))
                is Some && power_of_two(settings.buffer.ring_buffer_size)
                && settings.buffer.batch_size >= 1 && settings.buffer.max_memory_bytes >= 1,
            r matches Ok(logger) ==> logger.wf() && logger.in_flight() == 0
                && logger.counters().records_submitted == 0 && Some(logger.min_level())
                == crate::level::level_named(crate::level::lowercased(settings.level@))
                && logger.queue_capacity() == settings.buffer.ring_buffer_size
                && logger.limits() == (BatchLimits {
                batch_size: settings.buffer.batch_size,
                flush_interval_micros: settings.buffer.flush_interval_micros,
                max_memory_bytes: settings.buffer.max_memory_bytes,
            }) && logger.service_name() == service@ && !logger.is_stopped(),
    {
        let level = match LogLevel::from_str(settings.level.as_str()) {
            Ok(level) => level,
            Err(e) => {
                return Err(e);
            },
        };
        UltraLogger::with_config(
            service,
            level,
            settings.buffer.ring_buffer_size,
            settings.buffer.limits(),
            now_micros,
        )
    }

    /// A logger for `service` that admits every level, with the usual queue and batches.
    pub fn new(service: String) -> (r: Self)
        ensures
            r.wf(),
            r.service_name() == service@,
            r.counters() == LoggerStats::zero(),
            r.state() == ServiceStatus::Healthy,
            r.in_flight() == 0,
            r.accepted().len() == 0,
            r.dispatched().len() == 0,
            r.limits() == default_limits(),
            r.min_level() == LogLevel::Trace,
            r.queue_capacity() == DEFAULT_RING_BUFFER_SIZE,
            !r.is_stopped(),
    {
        assert(power_of_two(16384usize)) by {
            assert(16384usize & 16383usize == 0usize) by (bit_vector);
        }
        let limits = BatchLimits {
            batch_size: 64,
            flush_interval_micros: 1000,
            max_memory_bytes: 67108864,
        };
        match UltraLogger::with_config(
            service,
            LogLevel::Trace,
            DEFAULT_RING_BUFFER_SIZE,
            limits,
            current_time_micros(),
        ) {
            Ok(logger) => logger,
            Err(_) => {
                assert(false);
                vstd::pervasive::unreached()
            },
        }
    }

    /// Submits a record of `level` with the text `message` in the name of `service`,
    /// stamped with the time of the call.
    pub fn log_simple(&mut self, level: LogLevel, service: &str, message: &str) -> (r:
        Submission)
        requires
            old(self).wf(),
            old(self).counters().records_submitted < u64::MAX,
        ensures
            final(self).wf(),
            old(self).counters().not_above(final(self).counters()),
            r == old(self).outcome(level, plain_size(service@, message@)),
            final(self).counters() == old(self).counters_after(level, plain_size(service@, message@)),
            final(self).last_flush() == old(self).last_flush(),
            r is Filtered <==> !old(self).min_level().admits_spec(level),
            r is Accepted <==> old(self).takes_sized(level, plain_size(service@, message@)),
            r matches Submission::Accepted(sequence) ==> sequence == old(self).counters().records_submitted
                && final(self).queued().len() == old(self).queued().len() + 1
                && final(self).queued().drop_last() == old(self).queued()
                && final(self).queued().last().service@ == service@
                && final(self).queued().last().message@ == message@
                && final(self).queued().last().level == level
                && final(self).queued().last().sequence == sequence,
            r matches Submission::Dropped(sequence) ==> sequence == old(self).counters().records_submitted
                && final(self).queued() == old(self).queued(),
    {
        if !self.min_level.admits(level) {
            return Submission::Filtered;
        }
        let now = low_nanos(unix_time_nanos());
        let entry = LogEntry::at(now, level, String::from_str(service), String::from_str(message), 0);
        let r = self.log_entry(entry);
        proof {
            if r is Accepted {
                let stored = LogEntry { sequence: r->Accepted_0, ..entry };
                assert(old(self).queued().push(stored).drop_last() =~= old(self).queued());
            }
        }
        r
    }

    /// Submits a record of `level` with the text `message` and the given fields,
    /// stamped with the time of the call.
    pub fn log_with_fields(
        &mut self,
        level: LogLevel,
        message: String,
        fields: crate::string_map::StringMap<LogValue>,
    ) -> (r: Submission)
        requires
            old(self).wf(),
            old(self).counters().records_submitted < u64::MAX,
        ensures
            final(self).wf(),
            old(self).counters().not_above(final(self).counters()),
            r == old(self).outcome(level, plain_size(old(self).service_name(), message@) + crate::record::fields_size(fields@)),
            final(self).counters() == old(self).counters_after(level, plain_size(old(self).service_name(), message@) + crate::record::fields_size(fields@)),
            final(self).last_flush() == old(self).last_flush(),
            r is Filtered <==> !old(self).min_level().admits_spec(level),
            r is Accepted <==> old(self).takes_sized(
                level,
                plain_size(old(self).service_name(), message@) + crate::record::fields_size(
                    fields@,
                ),
            ),
            r matches Submission::Accepted(sequence) ==> sequence == old(self).counters().records_submitted
                && final(self).queued().len() == old(self).queued().len() + 1
                && final(self).queued().drop_last() == old(self).queued()
                && final(self).queued().last().fields == fields
                && final(self).queued().last().message == message
                && final(self).queued().last().level == level
                && final(self).queued().last().sequence == sequence,
            r matches Submission::Dropped(sequence) ==> sequence == old(self).counters().records_submitted
                && final(self).queued() == old(self).queued(),
    {
        if !self.min_level.admits(level) {
            return Submission::Filtered;
        }
        let now = low_nanos(unix_time_nanos());
        let mut entry = LogEntry::at(now, level, self.service.clone(), message, 0);
        entry.fields = fields;
        let r = self.log_entry(entry);
        proof {
            if r is Accepted {
                let stored = LogEntry { sequence: r->Accepted_0, ..entry };
                assert(old(self).queued().push(stored).drop_last() =~= old(self).queued());
            }
        }
        r
    }

    /// Submits `entry`: the record gets the next sequence number and goes to the queue.
    ///
    /// A record below the minimum level is not counted. A counted record is dropped when
    /// the logger is stopped, when the record alone is over the memory limit, or when
    /// the queue is full; the producer is never made to wait.
    pub fn log_entry(&mut self, entry: LogEntry) -> (r: Submission)
        requires
            old(self).wf(),
            old(self).counters().records_submitted < u64::MAX,
        ensures
            final(self).wf(),
            final(self).limits() == old(self).limits(),
            final(self).min_level() == old(self).min_level(),
            final(self).queue_capacity() == old(self).queue_capacity(),
            final(self).is_stopped() == old(self).is_stopped(),
            final(self).state() == old(self).state(),
            final(self).service_name() == old(self).service_name(),
            final(self).pending() == old(self).pending(),
            final(self).in_transit() == old(self).in_transit(),
            final(self).dispatched() == old(self).dispatched(),
            old(self).counters().not_above(final(self).counters()),
            r == old(self).outcome(entry.level, entry.size()),
            final(self).counters() == old(self).counters_after(entry.level, entry.size()),
            final(self).last_flush() == old(self).last_flush(),
            final(self).counters().records_logged == old(self).counters().records_logged,
            r is Filtered <==> !old(self).min_level().admits_spec(entry.level),
            r is Filtered ==> final(self).counters() == old(self).counters() && final(self).queued() == old(self).queued() && final(self).accepted() == old(self).accepted(),
            !(r is Filtered) ==> final(self).counters().records_submitted == old(self).counters().records_submitted + 1,
            r is Accepted <==> old(self).takes_sized(entry.level, entry.size()),
            r matches Submission::Accepted(sequence) ==> {
                let stored = LogEntry { sequence, ..entry };
                &&& sequence == old(self).counters().records_submitted
                &&& final(self).queued() == old(self).queued().push(stored)
                &&& final(self).accepted() == old(self).accepted().push(stored)
                &&& final(self).counters().records_dropped == old(self).counters().records_dropped
            },
            r matches Submission::Dropped(sequence) ==> {
                &&& sequence == old(self).counters().records_submitted
                &&& final(self).queued() == old(self).queued()
                &&& final(self).accepted() == old(self).accepted()
                &&& final(self).counters().records_dropped == old(self).counters().records_dropped + 1
                &&& final(self).counters().buffer_overflow == old(self).counters().buffer_overflow + if !old(self).is_stopped() && capped(
                    entry.size(),
                ) <= old(self).limits().max_memory_bytes {
                    1int
                } else {
                    0int
                }
            },
    {
        if !self.min_level.admits(entry.level) {
            return Submission::Filtered;
        }
        let sequence = self.stats.records_submitted;
        self.stats.records_submitted = sequence + 1;
        let mut entry = entry;
        entry.sequence = sequence;
        if self.stopped || entry.memory_size() > self.limits.max_memory_bytes {
            self.stats.records_dropped = self.stats.records_dropped + 1;
            return Submission::Dropped(sequence);
        }
        let ghost stored = entry;
        match self.queue.try_write(entry) {
            Ok(()) => {
                proof {
                    let before = self.accepted@;
                    self.accepted = Ghost(before.push(stored));
                    assert(self.accepted@ =~= self.dispatched@ + Seq::<LogEntry>::empty()
                        + self.batcher.pending() + self.queue@ + self.abandoned@);
                    assert forall|i: int, j: int|
                        0 <= i < j < self.accepted@.len() implies (
                    #[trigger] self.accepted@[i]).sequence < (
                    #[trigger] self.accepted@[j]).sequence by {
                        if j < before.len() {
                            assert(before[i].sequence < before[j].sequence);
                        } else {
                            assert(before[i].sequence < sequence);
                        }
                    }
                }
                Submission::Accepted(sequence)
            },
            Err(_) => {
                self.stats.records_dropped = self.stats.records_dropped + 1;
                self.stats.buffer_overflow = self.stats.buffer_overflow + 1;
                Submission::Dropped(sequence)
            },
        }
    }

    /// Moves one record from the queue into the current batch, or lets time pass when
    /// the queue is empty. A batch that comes back is to be sent and then reported on
    /// with `complete`.
    pub fn pump(&mut self, now_micros: u64) -> (r: Option<LogBatch>)
        requires
            old(self).wf(),
        ensures
            final(self).wf(),
            final(self).limits() == old(self).limits(),
            final(self).min_level() == old(self).min_level(),
            final(self).queue_capacity() == old(self).queue_capacity(),
            final(self).is_stopped() == old(self).is_stopped(),
            final(self).state() == old(self).state(),
            final(self).counters() == old(self).counters(),
            final(self).accepted() == old(self).accepted(),
            final(self).in_flight() == old(self).in_flight(),
            final(self).queued() == if old(self).queued().len() > 0 {
                old(self).queued().skip(1)
            } else {
                old(self).queued()
            },
            old(self).queued().len() > 0 ==> Batcher::pushed(
                old(self).pending(),
                old(self).last_flush(),
                old(self).limits(),
                old(self).queued()[0],
                now_micros,
                Self::action_of(r),
                final(self).pending(),
                final(self).last_flush(),
            ),
            old(self).queued().len() == 0 ==> (r is Some <==> old(self).pending().len() > 0
                && elapsed(now_micros, old(self).last_flush()) > old(
                self,
            ).limits().flush_interval_micros),
            old(self).queued().len() == 0 ==> match r {
                Some(batch) => batch@ == old(self).pending() && final(self).pending().len() == 0
                    && final(self).last_flush() == now_micros,
                None => final(self).pending() == old(self).pending() && final(self).last_flush()
                    == old(self).last_flush(),
            },
            match r {
                Some(batch) => Batcher::within_limits(batch@, old(self).limits()) && final(self).dispatched() == old(self).dispatched() + batch@ && final(self).in_transit()
                    == old(self).in_transit() + batch@.len(),
                None => final(self).dispatched() == old(self).dispatched() && final(self).in_transit() == old(self).in_transit(),
            },
    {
        let action = match self.queue.try_read() {
            Some(entry) => {
                assert(capped(old(self).queue@[0].size()) <= self.limits.max_memory_bytes);
                self.batcher.push(entry, now_micros)
            },
            None => self.batcher.tick(now_micros),
        };
        proof {
            let queue = old(self).queue@;
            let held = old(self).batcher.pending();
            if queue.len() > 0 {
                assert(held.push(queue[0]) + queue.skip(1) =~= held + queue);
                assert(seq![queue[0]] + queue.skip(1) =~= queue);
            }
            let extra = action.records();
            assert(self.accepted@ =~= self.dispatched@ + extra + self.batcher.pending()
                + self.queue@ + self.abandoned@);
        }
        self.hand_out(action)
    }

    /// Accounts for a batch that the batcher hands on.
    fn hand_out(&mut self, action: BatcherAction) -> (r: Option<LogBatch>)
        requires
            !(action is Reject),
            action matches BatcherAction::Dispatch(batch) ==> Batcher::within_limits(
                batch@,
                old(self).limits,
            ) && old(self).wf_with(batch@),
            action is Idle ==> old(self).wf(),
        ensures
            final(self).wf(),
            final(self).limits == old(self).limits,
            final(self).min_level == old(self).min_level,
            final(self).queue == old(self).queue,
            final(self).batcher == old(self).batcher,
            final(self).stopped == old(self).stopped,
            final(self).status == old(self).status,
            final(self).stats == old(self).stats,
            final(self).accepted == old(self).accepted,
            match (action, r) {
                (BatcherAction::Dispatch(batch), Some(out)) => out == batch
                    && final(self).dispatched@ == old(self).dispatched@ + batch@
                    && final(self).in_transit == old(self).in_transit + batch@.len(),
                (BatcherAction::Idle, None) => final(self).dispatched@ == old(self).dispatched@
                    && final(self).in_transit == old(self).in_transit,
                _ => false,
            },
    {
        match action {
            BatcherAction::Dispatch(batch) => {
                self.in_transit = self.in_transit + batch.len() as u64;
                proof {
                    self.dispatched = Ghost(self.dispatched@ + batch@);
                    assert(self.accepted@ =~= self.dispatched@ + Seq::<LogEntry>::empty()
                        + self.batcher.pending() + self.queue@ + self.abandoned@);
                }
                Some(batch)
            },
            _ => None,
        }
    }

    /// Drains towards the next batch: moves queued records into the current batch until
    /// a batch is due, and at the end hands on whatever the current batch holds. Nothing
    /// comes back only when the queue and the current batch are both empty.
    pub fn flush(&mut self, now_micros: u64) -> (r: Option<LogBatch>)
        requires
            old(self).wf(),
        ensures
            final(self).wf(),
            final(self).limits() == old(self).limits(),
            final(self).min_level() == old(self).min_level(),
            final(self).queue_capacity() == old(self).queue_capacity(),
            final(self).is_stopped() == old(self).is_stopped(),
            final(self).state() == old(self).state(),
            final(self).counters() == old(self).counters(),
            final(self).accepted() == old(self).accepted(),
            final(self).in_flight() == old(self).in_flight(),
            r is None <==> old(self).queued().len() == 0 && old(self).pending().len() == 0,
            match r {
                Some(batch) => Batcher::within_limits(batch@, old(self).limits())
                    && final(self).dispatched() == old(self).dispatched() + batch@
                    && final(self).in_transit() == old(self).in_transit() + batch@.len()
                    && final(self).last_flush() == now_micros,
                None => final(self).dispatched() == old(self).dispatched()
                    && final(self).in_transit() == old(self).in_transit()
                    && final(self).queued().len() == 0 && final(self).pending().len() == 0
                    && final(self).last_flush() == old(self).last_flush(),
            },
            r is None && final(self).in_transit() == 0 ==> final(self).counters().records_submitted
                == final(self).counters().records_logged + final(self).counters().records_dropped,
    {
        while self.queue.len() > 0
            invariant
                self.wf(),
                self.limits == old(self).limits,
                self.min_level == old(self).min_level,
                self.queue.spec_capacity() == old(self).queue.spec_capacity(),
                self.stopped == old(self).stopped,
                self.status == old(self).status,
                self.stats == old(self).stats,
                self.accepted == old(self).accepted,
                self.dispatched == old(self).dispatched,
                self.in_transit == old(self).in_transit,
                self.batcher.last_flush() == old(self).batcher.last_flush(),
                self.queue@.len() + self.batcher.pending().len() == old(self).queue@.len()
                    + old(self).batcher.pending().len(),
            decreases self.queue@.len(),
        {
            let ghost queue = self.queue@;
            let ghost held = self.batcher.pending();
            match self.queue.try_read() {
                Some(entry) => {
                    assert(capped(queue[0].size()) <= self.limits.max_memory_bytes);
                    let action = self.batcher.push(entry, now_micros);
                    proof {
                        assert(held.push(queue[0]) + queue.skip(1) =~= held + queue);
                        assert(seq![queue[0]] + queue.skip(1) =~= queue);
                        assert(self.accepted@ =~= self.dispatched@ + action.records()
                            + self.batcher.pending() + self.queue@ + self.abandoned@);
                    }
                    match self.hand_out(action) {
                        Some(batch) => {
                            return Some(batch);
                        },
                        None => {},
                    }
                },
                None => {},
            }
        }
        let action = self.batcher.flush(now_micros);
        proof {
            assert(self.accepted@ =~= self.dispatched@ + action.records()
                + self.batcher.pending() + self.queue@ + self.abandoned@);
        }
        self.hand_out(action)
    }

    /// Reports what became of a batch that was handed out, and takes the batch back.
    ///
    /// `delivered` says whether a transport took the batch in the end; `failed_attempts`
    /// is the number of send attempts that failed on the way. The records of a batch
    /// that was not delivered are counted as dropped.
    pub fn complete(&mut self, batch: LogBatch, delivered: bool, failed_attempts: u64)
        requires
            old(self).wf(),
            batch@.len() <= old(self).in_transit(),
        ensures
            final(self).wf(),
            final(self).limits() == old(self).limits(),
            final(self).min_level() == old(self).min_level(),
            final(self).queue_capacity() == old(self).queue_capacity(),
            final(self).is_stopped() == old(self).is_stopped(),
            final(self).state() == old(self).state(),
            final(self).queued() == old(self).queued(),
            final(self).pending() == old(self).pending(),
            final(self).last_flush() == old(self).last_flush(),
            final(self).accepted() == old(self).accepted(),
            final(self).dispatched() == old(self).dispatched(),
            final(self).in_transit() == old(self).in_transit() - batch@.len(),
            old(self).counters().not_above(final(self).counters()),
            final(self).counters() == (LoggerStats {
                records_logged: if delivered {
                    (old(self).counters().records_logged + batch@.len()) as u64
                } else {
                    old(self).counters().records_logged
                },
                records_dropped: if delivered {
                    old(self).counters().records_dropped
                } else {
                    (old(self).counters().records_dropped + batch@.len()) as u64
                },
                batches_processed: if delivered && old(self).counters().batches_processed
                    < u64::MAX {
                    (old(self).counters().batches_processed + 1) as u64
                } else {
                    old(self).counters().batches_processed
                },
                transport_errors: if old(self).counters().transport_errors + failed_attempts
                    > u64::MAX {
                    u64::MAX
                } else {
                    (old(self).counters().transport_errors + failed_attempts) as u64
                },
                avg_batch_size: if delivered {
                    batch@.len() as u64
                } else {
                    old(self).counters().avg_batch_size
                },
                ..old(self).counters()
            }),
    {
        let count = batch.len() as u64;
        self.in_transit = self.in_transit - count;
        if delivered {
            self.stats.records_logged = self.stats.records_logged + count;
            self.stats.batches_processed = self.stats.batches_processed.saturating_add(1);
            self.stats.avg_batch_size = count;
        } else {
            self.stats.records_dropped = self.stats.records_dropped + count;
        }
        self.stats.transport_errors = self.stats.transport_errors.saturating_add(
            failed_attempts,
        );
        self.batcher.recycle(batch);
    }

    /// Stops the logger. Every record that is still under way is counted as dropped, and
    /// their number comes back; from now on every counted submission is dropped.
    pub fn shutdown(&mut self, now_micros: u64) -> (r: u64)
        requires
            old(self).wf(),
        ensures
            final(self).wf(),
            final(self).is_stopped(),
            final(self).state() == ServiceStatus::Stopped,
            final(self).in_flight() == 0,
            final(self).counters().records_submitted == final(self).counters().records_logged
                + final(self).counters().records_dropped,
            r == old(self).in_flight(),
            final(self).last_flush() == if old(self).pending().len() > 0 {
                now_micros
            } else {
                old(self).last_flush()
            },
            final(self).limits() == old(self).limits(),
            final(self).min_level() == old(self).min_level(),
            final(self).queue_capacity() == old(self).queue_capacity(),
            final(self).accepted() == old(self).accepted(),
            final(self).dispatched() == old(self).dispatched(),
            old(self).counters().not_above(final(self).counters()),
            final(self).counters() == (LoggerStats {
                records_dropped: (old(self).counters().records_dropped + old(self).in_flight()) as u64,
                ..old(self).counters()
            }),
    {
        let queued = self.queue.len() as u64;
        let held = self.batcher.pending_len() as u64;
        let residual = queued + held + self.in_transit;
        let ghost lost = self.batcher.pending() + self.queue@;
        self.queue.clear();
        match self.batcher.flush(now_micros) {
            BatcherAction::Dispatch(batch) => {
                self.batcher.recycle(batch);
            },
            _ => {},
        }
        self.stats.records_dropped = self.stats.records_dropped + residual;
        self.in_transit = 0;
        self.stopped = true;
        self.status = ServiceStatus::Stopped;
        proof {
            self.abandoned = Ghost(lost + self.abandoned@);
            assert(self.accepted@ =~= self.dispatched@ + Seq::<LogEntry>::empty()
                + self.batcher.pending() + self.queue@ + self.abandoned@);
        }
        residual
    }

    /// Submits a record of `level` with the text `message`, made at `timestamp_nanos`.
    pub fn log_at(&mut self, level: LogLevel, message: String, timestamp_nanos: u64) -> (r:
        Submission)
        requires
            old(self).wf(),
            old(self).counters().records_submitted < u64::MAX,
        ensures
            final(self).wf(),
            final(self).limits() == old(self).limits(),
            final(self).min_level() == old(self).min_level(),
            final(self).queue_capacity() == old(self).queue_capacity(),
            final(self).is_stopped() == old(self).is_stopped(),
            final(self).state() == old(self).state(),
            final(self).pending() == old(self).pending(),
            final(self).in_transit() == old(self).in_transit(),
            final(self).dispatched() == old(self).dispatched(),
            old(self).counters().not_above(final(self).counters()),
            r == old(self).outcome(level, plain_size(old(self).service_name(), message@)),
            final(self).counters() == old(self).counters_after(level, plain_size(old(self).service_name(), message@)),
            final(self).last_flush() == old(self).last_flush(),
            r is Filtered <==> !old(self).min_level().admits_spec(level),
            r is Accepted <==> old(self).takes(level, message@),
            final(self).service_name() == old(self).service_name(),
            r is Filtered ==> final(self).counters() == old(self).counters()
                && final(self).queued() == old(self).queued(),
            !(r is Filtered) ==> final(self).counters().records_submitted == old(self).counters().records_submitted + 1,
            r matches Submission::Accepted(sequence) ==> {
                let stored = final(self).queued().last();
                &&& sequence == old(self).counters().records_submitted
                &&& final(self).queued().len() == old(self).queued().len() + 1
                &&& final(self).queued().drop_last() == old(self).queued()
                &&& final(self).accepted() == old(self).accepted().push(stored)
                &&& stored.sequence == sequence
                &&& stored.level == level
                &&& stored.message == message
                &&& stored.timestamp_nanos == timestamp_nanos
                &&& stored.fields@.len() == 0
                &&& final(self).counters().records_dropped == old(self).counters().records_dropped
            },
            r matches Submission::Dropped(sequence) ==> {
                &&& sequence == old(self).counters().records_submitted
                &&& final(self).queued() == old(self).queued()
                &&& final(self).accepted() == old(self).accepted()
                &&& final(self).counters().records_dropped == old(self).counters().records_dropped + 1
            },
    {
        if !self.min_level.admits(level) {
            return Submission::Filtered;
        }
        let entry = LogEntry::at(timestamp_nanos, level, self.service.clone(), message, 0);
        let r = self.log_entry(entry);
        proof {
            if r is Accepted {
                let stored = LogEntry { sequence: r->Accepted_0, ..entry };
                assert(old(self).queued().push(stored).drop_last() =~= old(self).queued());
            }
        }
        r
    }

    /// Submits a record of `level` with the text `message`, stamped with the time of the
    /// call.
    pub fn log(&mut self, level: LogLevel, message: String) -> (r: Submission)
        requires
            old(self).wf(),
            old(self).counters().records_submitted < u64::MAX,
        ensures
            final(self).wf(),
            old(self).counters().not_above(final(self).counters()),
            r == old(self).outcome(level, plain_size(old(self).service_name(), message@)),
            final(self).counters() == old(self).counters_after(level, plain_size(old(self).service_name(), message@)),
            final(self).last_flush() == old(self).last_flush(),
            final(self).limits() == old(self).limits(),
            final(self).min_level() == old(self).min_level(),
            final(self).queue_capacity() == old(self).queue_capacity(),
            final(self).is_stopped() == old(self).is_stopped(),
            final(self).state() == old(self).state(),
            final(self).service_name() == old(self).service_name(),
            final(self).dispatched() == old(self).dispatched(),
            r is Filtered <==> !old(self).min_level().admits_spec(level),
            r is Accepted <==> old(self).takes(level, message@),
            r matches Submission::Accepted(sequence) ==> sequence == old(self).counters().records_submitted && final(self).queued().len() == old(self).queued().len() + 1 && final(self).queued().drop_last() == old(self).queued()
                && final(self).queued().last().message == message && final(self).queued().last().level == level && final(self).queued().last().sequence
                == sequence,
            r matches Submission::Dropped(sequence) ==> sequence == old(self).counters().records_submitted && final(self).queued() == old(self).queued(),
            final(self).in_flight() == old(self).in_flight() + if r is Accepted {
                1nat
            } else {
                0nat
            },
    {
        if !self.min_level.admits(level) {
            return Submission::Filtered;
        }
        let now = low_nanos(unix_time_nanos());
        self.log_at(level, message, now)
    }

    /// Submits a record of the level Debug.
    pub fn debug(&mut self, message: String) -> (r: Submission)
        requires
            old(self).wf(),
            old(self).counters().records_submitted < u64::MAX,
        ensures
            final(self).wf(),
            old(self).counters().not_above(final(self).counters()),
            r == old(self).outcome(LogLevel::Debug, plain_size(old(self).service_name(), message@)),
            final(self).counters() == old(self).counters_after(LogLevel::Debug, plain_size(old(self).service_name(), message@)),
            final(self).last_flush() == old(self).last_flush(),
            r is Filtered <==> !old(self).min_level().admits_spec(LogLevel::Debug),
            r is Accepted <==> old(self).takes(LogLevel::Debug, message@),
            r matches Submission::Accepted(sequence) ==> sequence == old(self).counters().records_submitted && final(self).queued().len() == old(self).queued().len() + 1 && final(self).queued().drop_last() == old(self).queued()
                && final(self).queued().last().message == message,
            r matches Submission::Dropped(sequence) ==> sequence == old(self).counters().records_submitted && final(self).queued() == old(self).queued(),
    {
        self.log(LogLevel::Debug, message)
    }

    /// Submits a record of the level Info.
    pub fn info(&mut self, message: String) -> (r: Submission)
        requires
            old(self).wf(),
            old(self).counters().records_submitted < u64::MAX,
        ensures
            final(self).wf(),
            old(self).counters().not_above(final(self).counters()),
            r == old(self).outcome(LogLevel::Info, plain_size(old(self).service_name(), message@)),
            final(self).counters() == old(self).counters_after(LogLevel::Info, plain_size(old(self).service_name(), message@)),
            final(self).last_flush() == old(self).last_flush(),
            r is Filtered <==> !old(self).min_level().admits_spec(LogLevel::Info),
            r is Accepted <==> old(self).takes(LogLevel::Info, message@),
            r matches Submission::Accepted(sequence) ==> sequence == old(self).counters().records_submitted && final(self).queued().len() == old(self).queued().len() + 1 && final(self).queued().drop_last() == old(self).queued()
                && final(self).queued().last().message == message,
            r matches Submission::Dropped(sequence) ==> sequence == old(self).counters().records_submitted && final(self).queued() == old(self).queued(),
    {
        self.log(LogLevel::Info, message)
    }

    /// Submits a record of the level Warn.
    pub fn warn(&mut self, message: String) -> (r: Submission)
        requires
            old(self).wf(),
            old(self).counters().records_submitted < u64::MAX,
        ensures
            final(self).wf(),
            old(self).counters().not_above(final(self).counters()),
            r == old(self).outcome(LogLevel::Warn, plain_size(old(self).service_name(), message@)),
            final(self).counters() == old(self).counters_after(LogLevel::Warn, plain_size(old(self).service_name(), message@)),
            final(self).last_flush() == old(self).last_flush(),
            r is Filtered <==> !old(self).min_level().admits_spec(LogLevel::Warn),
            r is Accepted <==> old(self).takes(LogLevel::Warn, message@),
            r matches Submission::Accepted(sequence) ==> sequence == old(self).counters().records_submitted && final(self).queued().len() == old(self).queued().len() + 1 && final(self).queued().drop_last() == old(self).queued()
                && final(self).queued().last().message == message,
            r matches Submission::Dropped(sequence) ==> sequence == old(self).counters().records_submitted && final(self).queued() == old(self).queued(),
    {
        self.log(LogLevel::Warn, message)
    }

    /// Submits a record of the level Error.
    pub fn error(&mut self, message: String) -> (r: Submission)
        requires
            old(self).wf(),
            old(self).counters().records_submitted < u64::MAX,
        ensures
            final(self).wf(),
            old(self).counters().not_above(final(self).counters()),
            r == old(self).outcome(LogLevel::Error, plain_size(old(self).service_name(), message@)),
            final(self).counters() == old(self).counters_after(LogLevel::Error, plain_size(old(self).service_name(), message@)),
            final(self).last_flush() == old(self).last_flush(),
            r is Filtered <==> !old(self).min_level().admits_spec(LogLevel::Error),
            r is Accepted <==> old(self).takes(LogLevel::Error, message@),
            r matches Submission::Accepted(sequence) ==> sequence == old(self).counters().records_submitted && final(self).queued().len() == old(self).queued().len() + 1 && final(self).queued().drop_last() == old(self).queued()
                && final(self).queued().last().message == message,
            r matches Submission::Dropped(sequence) ==> sequence == old(self).counters().records_submitted && final(self).queued() == old(self).queued(),
    {
        self.log(LogLevel::Error, message)
    }

    /// The name of the service that the logger writes for.
    pub fn service(&self) -> (r: &str)
        ensures
            r@ == self.service_name(),
    {
        self.service.as_str()
    }

    /// The name of the service that the logger writes for.
    pub closed spec fn service_name(&self) -> Seq<char> {
        self.service@
    }

    /// The number of records in batches that were handed out and not yet reported on.
    pub fn in_transit_count(&self) -> (r: u64)
        ensures
            r == self.in_transit(),
    {
        self.in_transit
    }

    /// The number of records that wait in the queue.
    pub fn queue_len(&self) -> (r: usize)
        requires
            self.wf(),
        ensures
            r == self.queued().len(),
    {
        self.queue.len()
    }

    /// True when no record is under way.
    pub fn is_idle(&self) -> (r: bool)
        requires
            self.wf(),
        ensures
            r == (self.in_flight() == 0),
            r ==> self.counters().records_submitted == self.counters().records_logged
                + self.counters().records_dropped,
    {
        self.queue.len() == 0 && self.batcher.pending_len() == 0 && self.in_transit == 0
    }

    /// The state after `event`; the state as it is where the event has no place in it.
    pub open spec fn after_event(state: ServiceStatus, event: LifecycleEvent) -> ServiceStatus {
        match next_status(state, event) {
            Some(next) => next,
            None => state,
        }
    }

    /// Notes that a transport has failed for good: a healthy logger becomes degraded
    /// and goes on taking records.
    pub fn degrade(&mut self)
        requires
            old(self).wf(),
        ensures
            final(self).wf(),
            final(self).state() == Self::after_event(
                old(self).state(),
                LifecycleEvent::TransportFailed,
            ),
            final(self).is_stopped() == old(self).is_stopped(),
            final(self).counters() == old(self).counters(),
            final(self).queued() == old(self).queued(),
            final(self).pending() == old(self).pending(),
            final(self).last_flush() == old(self).last_flush(),
            final(self).in_transit() == old(self).in_transit(),
            final(self).accepted() == old(self).accepted(),
            final(self).dispatched() == old(self).dispatched(),
            final(self).limits() == old(self).limits(),
            final(self).min_level() == old(self).min_level(),
            final(self).queue_capacity() == old(self).queue_capacity(),
            final(self).service_name() == old(self).service_name(),
    {
        match advance(self.status, LifecycleEvent::TransportFailed) {
            Some(next) => {
                self.status = next;
            },
            None => {},
        }
    }

    /// Notes that a shutdown has begun: the logger is stopping, and goes on taking
    /// records until `shutdown` stops it.
    pub fn begin_shutdown(&mut self)
        requires
            old(self).wf(),
        ensures
            final(self).wf(),
            final(self).state() == Self::after_event(old(self).state(), LifecycleEvent::Shutdown),
            final(self).is_stopped() == old(self).is_stopped(),
            final(self).counters() == old(self).counters(),
            final(self).queued() == old(self).queued(),
            final(self).pending() == old(self).pending(),
            final(self).last_flush() == old(self).last_flush(),
            final(self).in_transit() == old(self).in_transit(),
            final(self).accepted() == old(self).accepted(),
            final(self).dispatched() == old(self).dispatched(),
            final(self).limits() == old(self).limits(),
            final(self).min_level() == old(self).min_level(),
            final(self).queue_capacity() == old(self).queue_capacity(),
            final(self).service_name() == old(self).service_name(),
    {
        match advance(self.status, LifecycleEvent::Shutdown) {
            Some(next) => {
                self.status = next;
            },
            None => {},
        }
    }

    /// The state of the logger.
    pub fn status(&self) -> (r: ServiceStatus)
        ensures
            r == self.state(),
    {
        self.status
    }

    /// The counters, as they stand.
    pub fn stats(&self) -> (r: LoggerStats)
        ensures
            r == self.counters(),
    {
        self.stats
    }

    /// The sequence number that the next counted submission gets.
    pub fn next_sequence(&self) -> (r: u64)
        ensures
            r == self.counters().records_submitted,
    {
        self.stats.records_submitted
    }
}

impl Default for UltraLogger {
    /// A logger for the service `default`.
    fn default() -> (r: Self)
        ensures
            r.wf(),
            r.service_name() == "default"@,
            r.in_flight() == 0,
    {
        UltraLogger::new(String::from_str("default"))
    }
}

/// A logger with the usual configuration: it admits Info and above.
pub fn init() -> (r: Result<UltraLogger, LoggingError>)
    ensures
        r is Ok,
        r->Ok_0.wf(),
        r->Ok_0.min_level() == LogLevel::Info,
        r->Ok_0.in_flight() == 0,
{
    assert(power_of_two(16384usize)) by {
        assert(16384usize & 16383usize == 0usize) by (bit_vector);
    }
    let limits = BatchLimits {
        batch_size: 64,
        flush_interval_micros: 1000,
        max_memory_bytes: 67108864,
    };
    UltraLogger::with_config(
        String::from_str("default"),
        LogLevel::Info,
        DEFAULT_RING_BUFFER_SIZE,
        limits,
        current_time_micros(),
    )
}

/// A logger with the given configuration, which is checked first.
pub fn init_with_config(config: LoggerConfig) -> (r: Result<UltraLogger, LoggingError>)
    ensures
        r is Ok <==> config.valid(),
        r matches Ok(logger) ==> logger.wf() && Some(logger.min_level()) == crate::level::level_named(
            crate::level::lowercased(config.level@),
        ) && logger.in_flight() == 0 && logger.counters().records_submitted == 0,
{
    match config.validate() {
        Ok(()) => {},
        Err(e) => {
            return Err(e);
        },
    }
    let level = match config.min_level() {
        Ok(level) => level,
        Err(e) => {
            return Err(e);
        },
    };
    assert(power_of_two(16384usize)) by {
        assert(16384usize & 16383usize == 0usize) by (bit_vector);
    }
    let limits = BatchLimits {
        batch_size: 64,
        flush_interval_micros: 1000,
        max_memory_bytes: 67108864,
    };
    UltraLogger::with_config(
        String::from_str("default"),
        level,
        DEFAULT_RING_BUFFER_SIZE,
        limits,
        current_time_micros(),
    )
}

/// Every counted record is logged, dropped or under way; so whenever nothing is under
/// way, and always after a shutdown, the records submitted are the records logged plus
/// the records dropped.
pub proof fn lemma_records_accounted(logger: UltraLogger)
    requires
        logger.wf(),
    ensures
        logger.counters().records_submitted == logger.counters().records_logged
            + logger.counters().records_dropped + logger.in_flight(),
        logger.in_flight() == 0 ==> logger.counters().records_submitted
            == logger.counters().records_logged + logger.counters().records_dropped,
{
}

/// The records handed out are, in their order, the first of the records that the queue
/// took; their sequence numbers grow from each to the next. So the records of any one
/// producer come out in the order in which that producer submitted them.
pub proof fn lemma_dispatch_order(logger: UltraLogger)
    requires
        logger.wf(),
    ensures
        logger.dispatched().len() <= logger.accepted().len(),
        logger.dispatched() == logger.accepted().take(logger.dispatched().len() as int),
        increasing(logger.accepted()),
        increasing(logger.dispatched()),
{
    let handed = logger.dispatched();
    let taken = logger.accepted();
    assert(handed =~= taken.take(handed.len() as int));
    assert forall|i: int, j: int| 0 <= i < j < handed.len() implies (#[trigger] handed[i]).sequence
        < (#[trigger] handed[j]).sequence by {
        assert(handed[i] == taken[i] && handed[j] == taken[j]);
    }
}

/// Whatever marks the records of one producer: the records of that producer that were
/// handed out are the first of its records that the queue took, in the same order.
pub proof fn lemma_producer_order(logger: UltraLogger, producer: spec_fn(LogEntry) -> bool)
    requires
        logger.wf(),
    ensures
        logger.dispatched().filter(producer).is_prefix_of(logger.accepted().filter(producer)),
{
    let handed = logger.dispatched();
    let taken = logger.accepted();
    lemma_dispatch_order(logger);
    let rest = taken.skip(handed.len() as int);
    assert(taken =~= handed + rest);
    Seq::filter_distributes_over_add(handed, rest, producer);
    let front = handed.filter(producer);
    let all = taken.filter(producer);
    assert(all == front + rest.filter(producer));
    assert(all.subrange(0, front.len() as int) =~= front);
}

/// No record is handed out twice: two places in the stream of handed-out records never
/// hold the same sequence number. As each batch is a stretch of that stream, no record
/// is in two batches, nor twice in one.
pub proof fn lemma_no_duplicates(logger: UltraLogger, i: int, j: int)
    requires
        logger.wf(),
        0 <= i < logger.dispatched().len(),
        0 <= j < logger.dispatched().len(),
        i != j,
    ensures
        logger.dispatched()[i].sequence != logger.dispatched()[j].sequence,
{
    lemma_dispatch_order(logger);
    let handed = logger.dispatched();
    if i < j {
        assert(handed[i].sequence < handed[j].sequence);
    } else {
        assert(handed[j].sequence < handed[i].sequence);
    }
}

} // verus!
