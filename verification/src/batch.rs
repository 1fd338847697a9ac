//! Batches of records: the reusable batch with its serialization buffer, the pool of idle
//! batches, and the policy that decides when a batch is handed on.

use crate::error::LogError;
use crate::record::{capped, LogEntry};
use vstd::prelude::*;

verus! {

/// `bytes::BytesMut` is carried as it is; what it holds is known through `held_bytes`.
#[verifier::external_type_specification]
#[verifier::external_body]
pub struct ExBytesMut(bytes::BytesMut);

/// The bytes that a `BytesMut` holds, first to last.
pub uninterp spec fn held_bytes(buffer: bytes::BytesMut) -> Seq<u8>;

/// `BytesMut::with_capacity` gives a buffer that holds nothing.
pub assume_specification[ bytes::BytesMut::with_capacity ](capacity: usize) -> (r:
    bytes::BytesMut)
    ensures
        held_bytes(r) == Seq::<u8>::empty(),
;

/// `BytesMut::clear` leaves a buffer that holds nothing.
pub assume_specification[ bytes::BytesMut::clear ](buffer: &mut bytes::BytesMut)
    ensures
        held_bytes(*final(buffer)) == Seq::<u8>::empty(),
;

/// `BytesMut::extend_from_slice` puts the bytes of the slice behind those that the
/// buffer held.
pub assume_specification[ bytes::BytesMut::extend_from_slice ](
    buffer: &mut bytes::BytesMut,
    extend: &[u8],
)
    ensures
        held_bytes(*final(buffer)) == held_bytes(*old(buffer)) + extend@,
;

/// The slice that a `BytesMut` dereferences to: the bytes that it holds.
#[verifier::external_body]
fn buffer_slice(buffer: &bytes::BytesMut) -> (r: &[u8])
    ensures
        r@ == held_bytes(*buffer),
{
    &buffer[..]
}

/// The records of a batch, in a `SmallVec` that keeps up to 64 of them without
/// allocating.
#[verifier::external_body]
pub struct EntryList {
    inner: smallvec::SmallVec<[LogEntry; 64]>,
}

/// The records that an `EntryList` holds, first to last.
pub uninterp spec fn held_entries(list: EntryList) -> Seq<LogEntry>;

/// `SmallVec::new` gives a list that holds nothing.
#[verifier::external_body]
fn entries_new() -> (r: EntryList)
    ensures
        held_entries(r) == Seq::<LogEntry>::empty(),
{
    EntryList { inner: smallvec::SmallVec::new() }
}

/// `SmallVec::push` puts the record behind those that the list held.
#[verifier::external_body]
fn entries_push(list: &mut EntryList, entry: LogEntry)
    ensures
        held_entries(*final(list)) == held_entries(*old(list)).push(entry),
{
    list.inner.push(entry)
}

/// `SmallVec::len` is the number of records that the list holds.
#[verifier::external_body]
fn entries_len(list: &EntryList) -> (r: usize)
    ensures
        r == held_entries(*list).len(),
{
    list.inner.len()
}

/// Indexing a `SmallVec` gives the record at that place.
#[verifier::external_body]
fn entries_get(list: &EntryList, i: usize) -> (r: &LogEntry)
    requires
        i < held_entries(*list).len(),
    ensures
        *r == held_entries(*list)[i as int],
{
    &list.inner[i]
}

/// `SmallVec::clear` leaves a list that holds nothing.
#[verifier::external_body]
fn entries_clear(list: &mut EntryList)
    ensures
        held_entries(*final(list)) == Seq::<LogEntry>::empty(),
{
    list.inner.clear()
}

/// The JSON lines of `entries`, one after the other.
pub open spec fn batch_lines(entries: Seq<LogEntry>) -> Seq<u8>
    decreases entries.len(),
{
    if entries.len() == 0 {
        Seq::<u8>::empty()
    } else {
        batch_lines(entries.drop_last()) + entries.last().json_line()
    }
}

/// The bytes that `entries` are estimated to hold: the sum of the records' estimates.
pub open spec fn batch_bytes(entries: Seq<LogEntry>) -> nat
    decreases entries.len(),
{
    if entries.len() == 0 {
        0
    } else {
        batch_bytes(entries.drop_last()) + capped(entries.last().size()) as nat
    }
}

/// The number of records after which a batch counts as full.
pub const BATCH_CAPACITY: usize = 64;

/// The bytes that the serialization buffer of a new batch has room for.
pub const BUFFER_CAPACITY: usize = 8192;

/// A batch: records in the order in which they were added, and the buffer into which
/// they are serialized.
pub struct LogBatch {
    entries: EntryList,
    buffer: bytes::BytesMut,
}

impl View for LogBatch {
    type V = Seq<LogEntry>;

    /// The records of the batch, in the order in which they were added.
    closed spec fn view(&self) -> Seq<LogEntry> {
        held_entries(self.entries)
    }
}

impl LogBatch {
    /// What the serialization buffer holds.
    pub closed spec fn serialized(&self) -> Seq<u8> {
        held_bytes(self.buffer)
    }

    /// A batch without records, with an empty buffer.
    pub fn new() -> (r: Self)
        ensures
            r@ == Seq::<LogEntry>::empty(),
            r.serialized() == Seq::<u8>::empty(),
    {
        LogBatch { entries: entries_new(), buffer: bytes::BytesMut::with_capacity(BUFFER_CAPACITY) }
    }

    /// Puts `entry` behind the records of the batch.
    pub fn add_entry(&mut self, entry: LogEntry)
        ensures
            final(self)@ == old(self)@.push(entry),
            final(self).serialized() == old(self).serialized(),
    {
        entries_push(&mut self.entries, entry);
    }

    pub fn is_full(&self) -> (r: bool)
        ensures
            r == (self@.len() >= BATCH_CAPACITY),
    {
        entries_len(&self.entries) >= BATCH_CAPACITY
    }

    /// The number of records.
    pub fn len(&self) -> (r: usize)
        ensures
            r == self@.len(),
    {
        entries_len(&self.entries)
    }

    /// The record at place `i`.
    pub fn get(&self, i: usize) -> (r: &LogEntry)
        requires
            i < self@.len(),
        ensures
            *r == self@[i as int],
    {
        entries_get(&self.entries, i)
    }

    /// Fills the buffer with the JSON lines of the records, in their order, and hands
    /// them out. This never fails.
    pub fn serialize_batch(&mut self) -> (r: Result<&[u8], LogError>)
        ensures
            final(self)@ == old(self)@,
            final(self).serialized() == batch_lines(old(self)@),
            r is Ok,
            r->Ok_0@ == batch_lines(old(self)@),
    {
        self.buffer.clear();
        let n = entries_len(&self.entries);
        let mut i: usize = 0;
        assert(self@.take(0) =~= Seq::<LogEntry>::empty());
        while i < n
            invariant
                i <= n,
                n == self@.len(),
                self@ == old(self)@,
                held_bytes(self.buffer) == batch_lines(self@.take(i as int)),
            decreases n - i,
        {
            let mut line: Vec<u8> = Vec::new();
            entries_get(&self.entries, i).write_json_line(&mut line);
            self.buffer.extend_from_slice(line.as_slice());
            i += 1;
            proof {
                let now = self@.take(i as int);
                assert(now.drop_last() =~= self@.take(i - 1));
                assert(now.last() == self@[i - 1]);
            }
        }
        assert(self@.take(n as int) =~= self@);
        Ok(buffer_slice(&self.buffer))
    }

    /// The bytes that the batch is estimated to hold, at most `usize::MAX`.
    pub fn size_bytes(&self) -> (r: usize)
        ensures
            r == capped(batch_bytes(self@)),
    {
        let n = entries_len(&self.entries);
        let mut total: usize = 0;
        let mut i: usize = 0;
        assert(self@.take(0) =~= Seq::<LogEntry>::empty());
        while i < n
            invariant
                i <= n,
                n == self@.len(),
                total == capped(batch_bytes(self@.take(i as int))),
            decreases n - i,
        {
            let size = entries_get(&self.entries, i).memory_size();
            total = total.saturating_add(size);
            i += 1;
            proof {
                let now = self@.take(i as int);
                assert(now.drop_last() =~= self@.take(i - 1));
                assert(now.last() == self@[i - 1]);
            }
        }
        assert(self@.take(n as int) =~= self@);
        total
    }

    /// Removes the records and empties the buffer.
    pub fn clear(&mut self)
        ensures
            final(self)@ == Seq::<LogEntry>::empty(),
            final(self).serialized() == Seq::<u8>::empty(),
    {
        entries_clear(&mut self.entries);
        self.buffer.clear();
    }
}

/// Idle batches, kept so that a flush need not allocate. Every idle batch is empty.
pub struct BatchPool {
    idle: Vec<LogBatch>,
}

impl BatchPool {
    /// The number of idle batches.
    pub closed spec fn idle_count(&self) -> nat {
        self.idle@.len()
    }

    /// Every idle batch is empty.
    pub closed spec fn wf(&self) -> bool {
        forall|i: int|
            0 <= i < self.idle@.len() ==> (#[trigger] self.idle@[i])@.len() == 0
                && self.idle@[i].serialized().len() == 0
    }

    /// A pool of `pool_size` idle batches.
    pub fn new(pool_size: usize) -> (r: Self)
        ensures
            r.wf(),
            r.idle_count() == pool_size,
    {
        let mut idle: Vec<LogBatch> = Vec::new();
        let mut i: usize = 0;
        while i < pool_size
            invariant
                i <= pool_size,
                idle@.len() == i,
                forall|j: int|
                    0 <= j < idle@.len() ==> (#[trigger] idle@[j])@.len() == 0
                        && idle@[j].serialized().len() == 0,
            decreases pool_size - i,
        {
            idle.push(LogBatch::new());
            i += 1;
        }
        BatchPool { idle }
    }

    /// An empty batch: an idle one while there is one, a new one otherwise.
    pub fn get_batch(&mut self) -> (r: LogBatch)
        requires
            old(self).wf(),
        ensures
            final(self).wf(),
            r@ == Seq::<LogEntry>::empty(),
            r.serialized() == Seq::<u8>::empty(),
            final(self).idle_count() == if old(self).idle_count() > 0 {
                (old(self).idle_count() - 1) as nat
            } else {
                0
            },
    {
        match self.idle.pop() {
            Some(batch) => {
                assert(batch@ =~= Seq::<LogEntry>::empty());
                assert(batch.serialized() =~= Seq::<u8>::empty());
                batch
            },
            None => LogBatch::new(),
        }
    }

    /// Takes a batch back: it is cleared and becomes idle.
    pub fn return_batch(&mut self, batch: LogBatch)
        requires
            old(self).wf(),
        ensures
            final(self).wf(),
            final(self).idle_count() == old(self).idle_count() + 1,
    {
        let mut batch = batch;
        batch.clear();
        self.idle.push(batch);
    }
}

} // verus!
