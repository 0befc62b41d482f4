//! Where emitted records go.

use crate::event::ExecutionObserved;
use vstd::prelude::*;

verus! {

/// The sink did not take the record offered to it.
#[derive(Clone, Copy, Debug, PartialEq, Eq)]
pub struct SinkFailure;

/// A channel that takes records one at a time, each wholly or not at all.
///
/// A sink does not look at what it has already taken: a record that repeats
/// an earlier one is taken like any other, and taking a record changes
/// nothing about which records the sink takes next.
pub trait EmissionSink {
    /// Every record the sink has taken so far, oldest first.
    spec fn emitted(&self) -> Seq<ExecutionObserved>;

    /// Whether the sink, as it stands, takes `record`.
    spec fn accepts(&self, record: ExecutionObserved) -> bool;

    /// Offers `record` to the sink.
    fn emit(&mut self, record: ExecutionObserved) -> (taken: Result<(), SinkFailure>)
        ensures
            taken is Ok <==> old(self).accepts(record),
            taken is Ok ==> final(self).emitted() == old(self).emitted().push(record),
            taken is Err ==> final(self).emitted() == old(self).emitted(),
            forall|other: ExecutionObserved| #[trigger]
                final(self).accepts(other) == old(self).accepts(other),
    ;
}

/// A sink that keeps what it takes in memory, for a host that forwards the
/// records once the call has returned. It can be switched off, and then takes
/// nothing.
pub struct MemorySink {
    records: Vec<ExecutionObserved>,
    available: bool,
}

impl MemorySink {
    /// Whether the sink is switched on.
    pub closed spec fn available(&self) -> bool {
        self.available
    }

    /// An empty sink, switched on.
    pub fn new() -> (sink: MemorySink)
        ensures
            sink.emitted() == Seq::<ExecutionObserved>::empty(),
            sink.available(),
    {
        MemorySink { records: Vec::new(), available: true }
    }

    /// Switches the sink on or off. What it has taken stays.
    pub fn set_available(&mut self, available: bool)
        ensures
            final(self).available() == available,
            final(self).emitted() == old(self).emitted(),
    {
        self.available = available;
    }

    /// Whether the sink is switched on.
    pub fn is_available(&self) -> (available: bool)
        ensures
            available == self.available(),
    {
        self.available
    }

    /// How many records the sink has taken.
    pub fn len(&self) -> (count: usize)
        ensures
            count == self.emitted().len(),
    {
        self.records.len()
    }

    /// The records the sink has taken, oldest first.
    pub fn records(&self) -> (records: &Vec<ExecutionObserved>)
        ensures
            records@ == self.emitted(),
    {
        &self.records
    }
}

impl EmissionSink for MemorySink {
    closed spec fn emitted(&self) -> Seq<ExecutionObserved> {
        self.records@
    }

    open spec fn accepts(&self, record: ExecutionObserved) -> bool {
        self.available()
    }

    fn emit(&mut self, record: ExecutionObserved) -> (taken: Result<(), SinkFailure>) {
        if self.available {
            self.records.push(record);
            Ok(())
        } else {
            Err(SinkFailure)
        }
    }
}

} // verus!
