//! Records of training metrics and the sinks that consume them.
//!
//! The learner produces a record of metrics at a configured cadence and hands
//! it to a recorder; what the recorder does with it (aggregation, storage,
//! display) is outside the core.

use vstd::prelude::*;

verus! {

/// One recorded metric value.
#[derive(Clone, Copy, Debug, PartialEq, Eq, Structural)]
pub enum RecordValue {
    /// An integer metric, such as a step counter.
    Int(i64),
}

/// A set of metrics produced by one reporting point, as key/value pairs in
/// insertion order.
#[derive(Clone, Debug)]
pub struct Record {
    entries: Vec<(String, RecordValue)>,
}

impl Record {
    /// The pairs this record holds, in insertion order.
    pub closed spec fn view(&self) -> Seq<(Seq<char>, RecordValue)> {
        self.entries@.map(|_i: int, e: (String, RecordValue)| (e.0@, e.1))
    }

    /// An empty record.
    pub fn empty() -> (r: Record)
        ensures
            r@ =~= Seq::<(Seq<char>, RecordValue)>::empty(),
    {
        Record { entries: Vec::new() }
    }

    /// Appends one key/value pair.
    pub fn insert(&mut self, key: String, value: RecordValue)
        ensures
            final(self)@ =~= old(self)@.push((key@, value)),
    {
        let ghost prior = self@;
        self.entries.push((key, value));
        proof {
            assert(self.entries@.last() == (key, value));
        }
    }

    /// How many pairs the record holds.
    pub fn len(&self) -> (n: usize)
        ensures
            n == self@.len(),
    {
        self.entries.len()
    }
}

/// Writes a record to an output destination.
pub trait Recorder {
    /// Write a record to the sink.
    fn write(&mut self, record: Record);
}

/// Stores records, then aggregates them and writes to an output destination.
pub trait AggregateRecorder {
    /// Store the record.
    fn store(&mut self, record: Record);

    /// Writes values aggregated from the records stored so far.
    fn flush(&mut self, step: i64);
}

/// A recorder that ignores every record; useful for debugging and tests.
pub struct NullRecorder {}

impl Recorder for NullRecorder {
    /// Discard the given record.
    fn write(&mut self, _record: Record) {
    }
}

impl AggregateRecorder for NullRecorder {
    fn store(&mut self, _record: Record) {
    }

    fn flush(&mut self, _step: i64) {
    }
}

/// A recorder that keeps every record it is handed, in arrival order.
pub struct BufferedRecorder {
    records: Vec<Record>,
}

impl BufferedRecorder {
    /// How many records have been stored.
    pub closed spec fn count(&self) -> nat {
        self.records@.len()
    }

    /// An empty buffer of records.
    pub fn new() -> (r: BufferedRecorder)
        ensures
            r.count() == 0,
    {
        BufferedRecorder { records: Vec::new() }
    }

    /// How many records have been stored.
    pub fn len(&self) -> (n: usize)
        ensures
            n == self.count(),
    {
        self.records.len()
    }
}

impl Recorder for BufferedRecorder {
    fn write(&mut self, record: Record) {
        self.records.push(record);
    }
}

impl AggregateRecorder for BufferedRecorder {
    fn store(&mut self, record: Record) {
        self.records.push(record);
    }

    fn flush(&mut self, _step: i64) {
    }
}

} // verus!
