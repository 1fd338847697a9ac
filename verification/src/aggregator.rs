//! The log aggregator: takes entries from many sources and hands them on in batches.

use crate::error::LoggingError;
use crate::settings::LogLevel;
use crate::string_map::StringMap;
use vstd::prelude::*;
use vstd::string::*;

verus! {

/// Where the aggregator delivers its batches.
pub enum Transport {
    Memory,
    File(String),
    Redis { url: String, channel: String },
    Kafka { brokers: Vec<String>, topic: String },
}

/// Which entries the aggregator is asked to take.
pub enum Filter {
    LevelFilter(LogLevel),
    ModuleFilter(String),
    MessageFilter(String),
}

/// The settings of an aggregator.
pub struct AggregatorConfig {
    pub batch_size: usize,
    pub batch_timeout_millis: u64,
    pub max_memory_usage: usize,
    pub output_transport: Transport,
    pub filters: Vec<Filter>,
}

impl Default for AggregatorConfig {
    fn default() -> (r: Self)
        ensures
            r.batch_size == 1000,
            r.batch_timeout_millis == 100,
            r.max_memory_usage == 104857600,
            r.output_transport is Memory,
            r.filters@.len() == 0,
    {
        AggregatorConfig {
            batch_size: 1000,
            batch_timeout_millis: 100,
            max_memory_usage: 104857600,
            output_transport: Transport::Memory,
            filters: Vec::new(),
        }
    }
}

impl Transport {
    /// The two transports are of the same kind and lead to the same place.
    pub open spec fn same(&self, other: &Transport) -> bool {
        match (self, other) {
            (Transport::Memory, Transport::Memory) => true,
            (Transport::File(a), Transport::File(b)) => a@ == b@,
            (
                Transport::Redis { url: a, channel: c },
                Transport::Redis { url: b, channel: d },
            ) => a@ == b@ && c@ == d@,
            (
                Transport::Kafka { brokers: a, topic: c },
                Transport::Kafka { brokers: b, topic: d },
            ) => c@ == d@ && a@.len() == b@.len() && forall|i: int|
                0 <= i < a@.len() ==> (#[trigger] a@[i])@ == b@[i]@,
            _ => false,
        }
    }

    /// A copy of the transport.
    pub fn copy(&self) -> (r: Self)
        ensures
            r.same(self),
    {
        match self {
            Transport::Memory => Transport::Memory,
            Transport::File(path) => Transport::File(path.clone()),
            Transport::Redis { url, channel } => Transport::Redis {
                url: url.clone(),
                channel: channel.clone(),
            },
            Transport::Kafka { brokers, topic } => {
                let mut copy: Vec<String> = Vec::new();
                let mut i: usize = 0;
                while i < brokers.len()
                    invariant
                        i <= brokers@.len(),
                        copy@.len() == i,
                        forall|j: int| 0 <= j < i ==> (#[trigger] copy@[j])@ == brokers@[j]@,
                    decreases brokers@.len() - i,
                {
                    copy.push(brokers[i].clone());
                    i += 1;
                }
                Transport::Kafka { brokers: copy, topic: topic.clone() }
            },
        }
    }
}

impl Filter {
    /// The two filters ask for the same.
    pub open spec fn same(&self, other: &Filter) -> bool {
        match (self, other) {
            (Filter::LevelFilter(a), Filter::LevelFilter(b)) => a == b,
            (Filter::ModuleFilter(a), Filter::ModuleFilter(b)) => a@ == b@,
            (Filter::MessageFilter(a), Filter::MessageFilter(b)) => a@ == b@,
            _ => false,
        }
    }

    /// A copy of the filter.
    pub fn copy(&self) -> (r: Self)
        ensures
            r.same(self),
    {
        match self {
            Filter::LevelFilter(level) => Filter::LevelFilter(*level),
            Filter::ModuleFilter(module) => Filter::ModuleFilter(module.clone()),
            Filter::MessageFilter(text) => Filter::MessageFilter(text.clone()),
        }
    }
}

impl AggregatorConfig {
    /// The two settings are the same.
    pub open spec fn same(&self, other: &AggregatorConfig) -> bool {
        &&& self.batch_size == other.batch_size
        &&& self.batch_timeout_millis == other.batch_timeout_millis
        &&& self.max_memory_usage == other.max_memory_usage
        &&& self.output_transport.same(&other.output_transport)
        &&& self.filters@.len() == other.filters@.len()
        &&& forall|i: int|
            0 <= i < self.filters@.len() ==> (#[trigger] self.filters@[i]).same(
                &other.filters@[i],
            )
    }

    /// A copy of the settings.
    pub fn copy(&self) -> (r: Self)
        ensures
            r.same(self),
    {
        let mut filters: Vec<Filter> = Vec::new();
        let mut i: usize = 0;
        while i < self.filters.len()
            invariant
                i <= self.filters@.len(),
                filters@.len() == i,
                forall|j: int| 0 <= j < i ==> (#[trigger] filters@[j]).same(&self.filters@[j]),
            decreases self.filters@.len() - i,
        {
            filters.push(self.filters[i].copy());
            i += 1;
        }
        AggregatorConfig {
            batch_size: self.batch_size,
            batch_timeout_millis: self.batch_timeout_millis,
            max_memory_usage: self.max_memory_usage,
            output_transport: self.output_transport.copy(),
            filters,
        }
    }
}

/// One entry as the aggregator takes it.
pub struct LogEntry {
    pub level: String,
    pub module: String,
    pub message: String,
    /// Nanoseconds since the Unix epoch.
    pub timestamp_nanos: u64,
}

/// The aggregator.
pub struct LogAggregator {
    config: AggregatorConfig,
    running: bool,
    pending: Vec<LogEntry>,
    processed_entries: u64,
    batches_sent: u64,
}

impl LogAggregator {
    /// Whether the aggregator was started and not stopped since.
    pub closed spec fn running(&self) -> bool {
        self.running
    }

    /// The entries that wait for their batch to fill.
    pub closed spec fn pending(&self) -> Seq<LogEntry> {
        self.pending@
    }

    /// The number of entries taken so far.
    pub closed spec fn processed(&self) -> u64 {
        self.processed_entries
    }

    /// The number of batches handed on so far.
    pub closed spec fn batches(&self) -> u64 {
        self.batches_sent
    }

    /// The number of entries in a batch.
    pub closed spec fn batch_size(&self) -> usize {
        self.config.batch_size
    }

    /// An aggregator that is not running and has taken nothing.
    pub fn new(config: AggregatorConfig) -> (r: Result<Self, LoggingError>)
        ensures
            r is Ok,
            !r->Ok_0.running(),
            r->Ok_0.pending().len() == 0,
            r->Ok_0.processed() == 0,
            r->Ok_0.batches() == 0,
            r->Ok_0.batch_size() == config.batch_size,
    {
        Ok(
            LogAggregator {
                config,
                running: false,
                pending: Vec::new(),
                processed_entries: 0,
                batches_sent: 0,
            },
        )
    }

    pub fn start(&mut self) -> (r: Result<(), LoggingError>)
        ensures
            r is Ok,
            final(self).running(),
            final(self).pending() == old(self).pending(),
            final(self).processed() == old(self).processed(),
            final(self).batches() == old(self).batches(),
            final(self).batch_size() == old(self).batch_size(),
    {
        self.running = true;
        Ok(())
    }

    pub fn stop(&mut self) -> (r: Result<(), LoggingError>)
        ensures
            r is Ok,
            !final(self).running(),
            final(self).pending() == old(self).pending(),
            final(self).processed() == old(self).processed(),
            final(self).batches() == old(self).batches(),
            final(self).batch_size() == old(self).batch_size(),
    {
        self.running = false;
        Ok(())
    }

    pub fn is_running(&self) -> (r: bool)
        ensures
            r == self.running(),
    {
        self.running
    }

    /// Takes one entry. An aggregator that is not running takes nothing. Once as many
    /// entries wait as a batch holds, they are handed out together, oldest first.
    pub fn process_log_entry(
        &mut self,
        level: &str,
        module: &str,
        message: &str,
        timestamp_nanos: u64,
    ) -> (r: Option<Vec<LogEntry>>)
        ensures
            final(self).running() == old(self).running(),
            final(self).batch_size() == old(self).batch_size(),
            !old(self).running() ==> r is None && final(self).pending() == old(self).pending()
                && final(self).processed() == old(self).processed() && final(self).batches()
                == old(self).batches(),
            old(self).running() ==> final(self).processed() == crate::metrics::bumped(
                old(self).processed(),
                1,
            ),
            old(self).running() ==> match r {
                Some(batch) => old(self).pending().len() + 1 >= old(self).batch_size()
                    && batch@.len() == old(self).pending().len() + 1 && batch@.drop_last() == old(self).pending() && batch@.last().level@ == level@ && batch@.last().module@
                    == module@ && batch@.last().message@ == message@
                    && batch@.last().timestamp_nanos == timestamp_nanos && final(self).pending().len() == 0 && final(self).batches() == crate::metrics::bumped(
                    old(self).batches(),
                    1,
                ),
                None => old(self).pending().len() + 1 < old(self).batch_size() && final(self).pending().len() == old(self).pending().len() + 1 && final(self).pending().drop_last() == old(self).pending() && final(self).pending().last().message@ == message@ && final(self).batches() == old(self).batches(),
            },
    {
        if !self.running {
            return None;
        }
        self.processed_entries = self.processed_entries.saturating_add(1);
        self.pending.push(
            LogEntry {
                level: String::from_str(level),
                module: String::from_str(module),
                message: String::from_str(message),
                timestamp_nanos,
            },
        );
        assert(self.pending@.drop_last() =~= old(self).pending@);
        if self.pending.len() >= self.config.batch_size {
            let mut batch: Vec<LogEntry> = Vec::new();
            std::mem::swap(&mut self.pending, &mut batch);
            self.batches_sent = self.batches_sent.saturating_add(1);
            Some(batch)
        } else {
            None
        }
    }

    /// The counts of the aggregator by name: the entries taken under
    /// `processed_entries`, the batches handed on under `batches_sent`.
    pub fn get_metrics(&self) -> (r: StringMap<u64>)
        ensures
            r.wf(),
            r@ == seq![
                ("processed_entries"@, self.processed()),
                ("batches_sent"@, self.batches()),
            ],
    {
        let mut metrics: StringMap<u64> = StringMap::new();
        metrics.insert(String::from_str("processed_entries"), self.processed_entries);
        proof {
            reveal_strlit("processed_entries");
            reveal_strlit("batches_sent");
            assert("processed_entries"@.len() != "batches_sent"@.len());
            assert(metrics@ =~= seq![("processed_entries"@, self.processed())]);
            assert(!crate::string_map::has_key(metrics@, "batches_sent"@));
        }
        metrics.insert(String::from_str("batches_sent"), self.batches_sent);
        assert(metrics@ =~= seq![
            ("processed_entries"@, self.processed()),
            ("batches_sent"@, self.batches()),
        ]);
        metrics
    }
}

} // verus!
