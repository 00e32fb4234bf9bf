//! Journal records and the batches they travel in.

use std::collections::BTreeMap;
use vstd::prelude::*;

verus! {

/// One structured journal entry: field names mapped to values. The shipper
/// never looks inside a record; it only carries it from the journal to the
/// wire.
#[derive(Clone, Debug, PartialEq, Eq)]
pub struct LogRecord {
    pub fields: BTreeMap<String, String>,
}

impl View for LogRecord {
    type V = Map<Seq<char>, Seq<char>>;

    open spec fn view(&self) -> Map<Seq<char>, Seq<char>> {
        self.fields.deep_view()
    }
}

impl DeepView for LogRecord {
    type V = Map<Seq<char>, Seq<char>>;

    open spec fn deep_view(&self) -> Map<Seq<char>, Seq<char>> {
        self@
    }
}

/// What a batch is in contracts.
pub struct BatchModel {
    /// Journal position right after the last record of the batch.
    pub cursor: Seq<char>,
    /// The records, oldest first.
    pub logs: Seq<Map<Seq<char>, Seq<char>>>,
}

/// Records read together and shipped as one upload, with the journal cursor
/// that stands right after the last of them.
#[derive(Clone, Debug, PartialEq, Eq)]
pub struct LogBatch {
    pub cursor: String,
    pub logs: Vec<LogRecord>,
}

impl View for LogBatch {
    type V = BatchModel;

    open spec fn view(&self) -> BatchModel {
        BatchModel { cursor: self.cursor@, logs: self.logs.deep_view() }
    }
}

impl LogBatch {
    /// A batch holds at least one record and at most `limit` of them.
    pub open spec fn within(&self, limit: u32) -> bool {
        0 < self.logs.len() <= limit
    }

    /// Tells whether the batch holds at least one record and at most `limit`.
    pub fn is_within(&self, limit: u32) -> (ok: bool)
        ensures
            ok == self.within(limit),
    {
        0 < self.logs.len() && self.logs.len() <= limit as usize
    }
}

} // verus!
