//! The journal reader: how one batch is formed from a journal that is pulled
//! record by record.
//!
//! The journal itself stays outside. The reader says what to ask it for next;
//! the caller asks, and hands back what the journal answered.

use crate::record::{BatchModel, LogBatch, LogRecord};
use vstd::prelude::*;

verus! {

/// What the journal answered.
#[derive(Clone, Debug, PartialEq, Eq)]
pub enum ReadEvent {
    /// The next record, now consumed.
    Record { record: LogRecord },
    /// No record is left: the journal is caught up.
    Exhausted,
    /// The journal's present position.
    Position { cursor: String },
}

/// What an answer of the journal is in contracts.
pub enum ReadEventModel {
    Record { record: Map<Seq<char>, Seq<char>> },
    Exhausted,
    Position { cursor: Seq<char> },
}

impl View for ReadEvent {
    type V = ReadEventModel;

    open spec fn view(&self) -> ReadEventModel {
        match self {
            ReadEvent::Record { record } => ReadEventModel::Record { record: record@ },
            ReadEvent::Exhausted => ReadEventModel::Exhausted,
            ReadEvent::Position { cursor } => ReadEventModel::Position { cursor: cursor@ },
        }
    }
}

/// What the caller has to do next.
#[derive(Clone, Debug, PartialEq, Eq)]
pub enum ReadAction {
    /// Pull the next record from the journal.
    NextRecord,
    /// Ask the journal for its present position.
    QueryCursor,
    /// The read is over: a batch, or nothing where the journal had nothing.
    Deliver { batch: Option<LogBatch> },
    /// The answer fitted no question that was open; the read is abandoned.
    Reject,
}

/// What a step of the read is in contracts.
pub enum ReadActionModel {
    NextRecord,
    QueryCursor,
    Deliver { batch: Option<BatchModel> },
    Reject,
}

impl View for ReadAction {
    type V = ReadActionModel;

    open spec fn view(&self) -> ReadActionModel {
        match self {
            ReadAction::NextRecord => ReadActionModel::NextRecord,
            ReadAction::QueryCursor => ReadActionModel::QueryCursor,
            ReadAction::Deliver { batch } => ReadActionModel::Deliver {
                batch: match batch {
                    Some(b) => Some(b@),
                    None => None,
                },
            },
            ReadAction::Reject => ReadActionModel::Reject,
        }
    }
}

/// One read in progress.
#[derive(Clone, Debug, PartialEq, Eq)]
pub enum BatchReader {
    /// A pull is open; `logs` holds what was consumed so far.
    Collecting { limit: u32, logs: Vec<LogRecord> },
    /// The position query is open; `logs` is the whole batch.
    Locating { logs: Vec<LogRecord> },
    /// Nothing is open.
    Finished,
}

/// What a read in progress is in contracts.
pub enum ReaderModel {
    Collecting { limit: u32, logs: Seq<Map<Seq<char>, Seq<char>>> },
    Locating { logs: Seq<Map<Seq<char>, Seq<char>>> },
    Finished,
}

impl View for BatchReader {
    type V = ReaderModel;

    open spec fn view(&self) -> ReaderModel {
        match self {
            BatchReader::Collecting { limit, logs } => ReaderModel::Collecting {
                limit: *limit,
                logs: logs.deep_view(),
            },
            BatchReader::Locating { logs } => ReaderModel::Locating { logs: logs.deep_view() },
            BatchReader::Finished => ReaderModel::Finished,
        }
    }
}

/// How a read of at most `limit` records begins: with a pull, or, where the
/// limit is zero, with nothing to deliver.
pub open spec fn read_start(limit: u32) -> (ReaderModel, ReadActionModel) {
    if limit == 0 {
        (ReaderModel::Finished, ReadActionModel::Deliver { batch: None })
    } else {
        (
            ReaderModel::Collecting { limit, logs: Seq::empty() },
            ReadActionModel::NextRecord,
        )
    }
}

/// How a read goes on after the journal's answer.
///
/// A record is kept, and pulling goes on until the limit is reached. When the
/// limit is reached or the journal is exhausted, the position is asked for,
/// unless nothing was consumed: then nothing is delivered and the position is
/// left alone. The position completes the batch.
pub open spec fn read_next(reader: ReaderModel, event: ReadEventModel) -> (
    ReaderModel,
    ReadActionModel,
) {
    match (reader, event) {
        (ReaderModel::Collecting { limit, logs }, ReadEventModel::Record { record }) => {
            let kept = logs.push(record);
            if kept.len() < limit {
                (ReaderModel::Collecting { limit, logs: kept }, ReadActionModel::NextRecord)
            } else {
                (ReaderModel::Locating { logs: kept }, ReadActionModel::QueryCursor)
            }
        },
        (ReaderModel::Collecting { limit, logs }, ReadEventModel::Exhausted) => {
            if logs.len() == 0 {
                (ReaderModel::Finished, ReadActionModel::Deliver { batch: None })
            } else {
                (ReaderModel::Locating { logs }, ReadActionModel::QueryCursor)
            }
        },
        (ReaderModel::Locating { logs }, ReadEventModel::Position { cursor }) => (
            ReaderModel::Finished,
            ReadActionModel::Deliver { batch: Some(BatchModel { cursor, logs }) },
        ),
        _ => (ReaderModel::Finished, ReadActionModel::Reject),
    }
}

impl BatchReader {
    /// Begins a read of at most `limit` records.
    pub fn start(limit: u32) -> (begun: (BatchReader, ReadAction))
        ensures
            (begun.0@, begun.1@) == read_start(limit),
    {
        if limit == 0 {
            (BatchReader::Finished, ReadAction::Deliver { batch: None })
        } else {
            let logs: Vec<LogRecord> = Vec::new();
            assert(logs.deep_view() =~= Seq::empty());
            (BatchReader::Collecting { limit, logs }, ReadAction::NextRecord)
        }
    }

    /// Takes the journal's answer to the action that was open and says what
    /// to do next.
    pub fn step(self, event: ReadEvent) -> (next: (BatchReader, ReadAction))
        ensures
            (next.0@, next.1@) == read_next(self@, event@),
    {
        match self {
            BatchReader::Collecting { limit, logs } => {
                match event {
                    ReadEvent::Record { record } => {
                        let mut logs = logs;
                        let ghost before = logs.deep_view();
                        logs.push(record);
                        assert(logs.deep_view() =~= before.push(record@));
                        if logs.len() < limit as usize {
                            (BatchReader::Collecting { limit, logs }, ReadAction::NextRecord)
                        } else {
                            (BatchReader::Locating { logs }, ReadAction::QueryCursor)
                        }
                    },
                    ReadEvent::Exhausted => {
                        if logs.len() == 0 {
                            (BatchReader::Finished, ReadAction::Deliver { batch: None })
                        } else {
                            (BatchReader::Locating { logs }, ReadAction::QueryCursor)
                        }
                    },
                    ReadEvent::Position { .. } => (BatchReader::Finished, ReadAction::Reject),
                }
            },
            BatchReader::Locating { logs } => {
                match event {
                    ReadEvent::Position { cursor } => (
                        BatchReader::Finished,
                        ReadAction::Deliver { batch: Some(LogBatch { cursor, logs }) },
                    ),
                    _ => (BatchReader::Finished, ReadAction::Reject),
                }
            },
            BatchReader::Finished => (BatchReader::Finished, ReadAction::Reject),
        }
    }
}

/// The journal as a reader meets it: the retained records, oldest first, and
/// for each of them the cursor that names the position right after it.
pub struct JournalModel {
    pub entries: Seq<Map<Seq<char>, Seq<char>>>,
    pub cursors: Seq<Seq<char>>,
}

impl JournalModel {
    /// Every record has its cursor.
    pub open spec fn wf(self) -> bool {
        self.cursors.len() == self.entries.len()
    }

    /// A position counts the records that lie before it.
    pub open spec fn has_position(self, pos: int) -> bool {
        0 <= pos <= self.entries.len()
    }

    /// The records that are pending at `pos`.
    pub open spec fn backlog(self, pos: int) -> int {
        self.entries.len() - pos
    }

    /// What the journal answers at position `pos`, and where it stands then.
    /// A pull consumes the next record if there is one; the position query
    /// gives the cursor of the record consumed last.
    pub open spec fn answer(self, pos: int, action: ReadActionModel) -> (ReadEventModel, int) {
        match action {
            ReadActionModel::NextRecord => if pos < self.entries.len() {
                (ReadEventModel::Record { record: self.entries[pos] }, pos + 1)
            } else {
                (ReadEventModel::Exhausted, pos)
            },
            _ => (ReadEventModel::Position { cursor: self.cursors[pos - 1] }, pos),
        }
    }

    /// The number of records that a read of at most `limit` records takes at
    /// `pos`: the limit or the backlog, whichever is smaller.
    pub open spec fn batch_len(self, pos: int, limit: u32) -> int {
        if self.backlog(pos) < limit {
            self.backlog(pos)
        } else {
            limit as int
        }
    }

    /// What a read of at most `limit` records at `pos` delivers: the pending
    /// records up to the limit, with the cursor after the last of them; or
    /// nothing, where none is pending or the limit is zero.
    pub open spec fn read_batch(self, pos: int, limit: u32) -> Option<BatchModel> {
        let taken = self.batch_len(pos, limit);
        if taken == 0 {
            None
        } else {
            Some(
                BatchModel {
                    cursor: self.cursors[pos + taken - 1],
                    logs: self.entries.subrange(pos, pos + taken),
                },
            )
        }
    }

    /// Where the journal stands after that read.
    pub open spec fn position_after(self, pos: int, limit: u32) -> int {
        pos + self.batch_len(pos, limit)
    }

    /// Carries a read on against this journal for at most `steps` answers:
    /// the action that is open at the end, and the journal's position.
    pub open spec fn drive(
        self,
        pos: int,
        reader: ReaderModel,
        action: ReadActionModel,
        steps: nat,
    ) -> (ReadActionModel, int)
        decreases steps,
    {
        if steps == 0 || action is Deliver || action is Reject {
            (action, pos)
        } else {
            let (event, moved) = self.answer(pos, action);
            let (reader, action) = read_next(reader, event);
            self.drive(moved, reader, action, (steps - 1) as nat)
        }
    }
}

/// Once `logs.len()` records from `start` on have been collected, a read
/// completes within the pulls that are left and one answer more, with the
/// batch that the journal holds at `start`.
proof fn lemma_collecting(
    journal: JournalModel,
    start: int,
    limit: u32,
    logs: Seq<Map<Seq<char>, Seq<char>>>,
    steps: nat,
)
    requires
        journal.wf(),
        journal.has_position(start),
        journal.has_position(start + logs.len()),
        logs.len() < limit,
        logs == journal.entries.subrange(start, start + logs.len()),
        steps >= limit - logs.len() + 1,
    ensures
        journal.drive(
            start + logs.len(),
            ReaderModel::Collecting { limit, logs },
            ReadActionModel::NextRecord,
            steps,
        ) == (
            ReadActionModel::Deliver { batch: journal.read_batch(start, limit) },
            journal.position_after(start, limit),
        ),
    decreases limit - logs.len(),
{
    let pos = start + logs.len();
    let reader = ReaderModel::Collecting { limit, logs };
    let (event, moved) = journal.answer(pos, ReadActionModel::NextRecord);
    let (reader1, action1) = read_next(reader, event);
    assert(journal.drive(pos, reader, ReadActionModel::NextRecord, steps) == journal.drive(
        moved,
        reader1,
        action1,
        (steps - 1) as nat,
    ));
    if pos < journal.entries.len() {
        let kept = logs.push(journal.entries[pos]);
        assert(kept =~= journal.entries.subrange(start, start + kept.len()));
        if kept.len() < limit {
            lemma_collecting(journal, start, limit, kept, (steps - 1) as nat);
        } else {
            lemma_locating(journal, start, limit, kept, (steps - 1) as nat);
        }
    } else if logs.len() == 0 {
        assert(journal.drive(moved, reader1, action1, (steps - 1) as nat) == (action1, moved));
    } else {
        lemma_locating(journal, start, limit, logs, (steps - 1) as nat);
    }
}

/// Once the whole batch from `start` on has been collected, the position
/// query completes the read.
proof fn lemma_locating(
    journal: JournalModel,
    start: int,
    limit: u32,
    logs: Seq<Map<Seq<char>, Seq<char>>>,
    steps: nat,
)
    requires
        journal.wf(),
        journal.has_position(start),
        logs.len() == journal.batch_len(start, limit),
        logs.len() > 0,
        logs == journal.entries.subrange(start, start + logs.len()),
        steps >= 1,
    ensures
        journal.drive(
            start + logs.len(),
            ReaderModel::Locating { logs },
            ReadActionModel::QueryCursor,
            steps,
        ) == (
            ReadActionModel::Deliver { batch: journal.read_batch(start, limit) },
            journal.position_after(start, limit),
        ),
{
    let pos = start + logs.len();
    let (event, moved) = journal.answer(pos, ReadActionModel::QueryCursor);
    let (reader1, action1) = read_next(ReaderModel::Locating { logs }, event);
    assert(journal.drive(moved, reader1, action1, (steps - 1) as nat) == (action1, moved));
}

/// A read delivers as many records as the limit allows and the journal has
/// pending, whichever is smaller: for every journal, every position in it and
/// every limit, a read that is carried through against the journal ends by
/// delivering the first `min(limit, backlog)` pending records in order, with
/// the cursor after the last of them, and leaves the journal right after
/// them. It delivers nothing exactly when that number is zero. It never
/// takes more than `limit + 1` answers.
pub proof fn lemma_read_delivers_bounded_batch(
    journal: JournalModel,
    pos: int,
    limit: u32,
    steps: nat,
)
    requires
        journal.wf(),
        journal.has_position(pos),
        steps >= limit + 1,
    ensures
        journal.drive(pos, read_start(limit).0, read_start(limit).1, steps) == (
            ReadActionModel::Deliver { batch: journal.read_batch(pos, limit) },
            journal.position_after(pos, limit),
        ),
        journal.read_batch(pos, limit) matches Some(batch) ==> {
            &&& batch.logs.len() == journal.batch_len(pos, limit)
            &&& 0 < batch.logs.len() <= limit
            &&& batch.logs.len() <= journal.backlog(pos)
        },
        journal.read_batch(pos, limit) is None <==> limit == 0 || journal.backlog(pos) == 0,
{
    if limit > 0 {
        let logs = Seq::<Map<Seq<char>, Seq<char>>>::empty();
        assert(logs =~= journal.entries.subrange(pos, pos + logs.len()));
        lemma_collecting(journal, pos, limit, logs, steps);
    }
}

} // verus!
