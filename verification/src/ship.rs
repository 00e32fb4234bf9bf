//! The shipping loop: what the shipper does next, given what just happened.
//!
//! The shipper itself touches nothing. Each step hands out one action; the
//! caller carries it out against the journal, the ingestion service, the
//! cursor file or the clock, and hands back what came of it.

use crate::config::{Config, ConfigModel};
use crate::cursor::{journal_seek_target, seek_target, stored_cursor, JournalSeek, SeekModel};
use crate::record::{BatchModel, LogBatch};
use crate::sink::{
    create_log_stream_request, create_or_find_log_stream, create_request_of,
    describe_log_streams_request, describe_request_of, resolution_of, CreateLogStreamRequest,
    CreateModel, DescribeLogStreamsRequest, DescribeModel, LogStream, ResolutionModel,
    StreamModel, StreamResolution,
};
use vstd::prelude::*;

verus! {

/// Why the shipper stopped.
#[derive(Clone, Copy, Debug, PartialEq, Eq, Structural)]
pub enum ShipError {
    /// The journal could not be opened, positioned or read.
    Journal,
    /// The ingestion service refused or could not be reached.
    Sink,
    /// The cursor could not be written.
    CursorStore,
    /// What was reported answers no action that was open.
    Protocol,
}

/// What the caller reports.
#[derive(Clone, Debug, PartialEq, Eq)]
pub enum Event {
    /// The journal is open and stands where it was told to.
    JournalOpened,
    /// The service listed the streams that match; `None` where it gave no
    /// list.
    StreamsDescribed { streams: Option<Vec<LogStream>> },
    /// The service created the stream.
    StreamCreated,
    /// The journal was read: a batch, or `None` where nothing was pending.
    BatchRead { batch: Option<LogBatch> },
    /// The service took the upload and named the token for the next one.
    Uploaded { next_sequence_token: Option<String> },
    /// The cursor is in the cursor file.
    CursorPersisted,
    /// The pause is over.
    Woke,
    /// The action that was open failed.
    Failed,
}

/// What a report is in contracts.
pub enum EventModel {
    JournalOpened,
    StreamsDescribed { streams: Option<Seq<StreamModel>> },
    StreamCreated,
    BatchRead { batch: Option<BatchModel> },
    Uploaded { next_sequence_token: Option<Seq<char>> },
    CursorPersisted,
    Woke,
    Failed,
}

impl View for Event {
    type V = EventModel;

    open spec fn view(&self) -> EventModel {
        match self {
            Event::JournalOpened => EventModel::JournalOpened,
            Event::StreamsDescribed { streams } => EventModel::StreamsDescribed {
                streams: streams.deep_view(),
            },
            Event::StreamCreated => EventModel::StreamCreated,
            Event::BatchRead { batch } => EventModel::BatchRead {
                batch: match batch {
                    Some(b) => Some(b@),
                    None => None,
                },
            },
            Event::Uploaded { next_sequence_token } => EventModel::Uploaded {
                next_sequence_token: next_sequence_token.deep_view(),
            },
            Event::CursorPersisted => EventModel::CursorPersisted,
            Event::Woke => EventModel::Woke,
            Event::Failed => EventModel::Failed,
        }
    }
}

/// What the caller is to do.
#[derive(Clone, Debug, PartialEq, Eq)]
pub enum Action {
    /// Open the journal and position it.
    OpenJournal { seek: JournalSeek },
    /// Ask the service for the streams that match the configured name.
    DescribeLogStreams { request: DescribeLogStreamsRequest },
    /// Have the service create the configured stream.
    CreateLogStream { request: CreateLogStreamRequest },
    /// Read one batch of at most `limit` records from the journal.
    ReadBatch { limit: u32 },
    /// Upload the batch under the token.
    Upload { sequence_token: Option<String>, batch: LogBatch },
    /// Replace the contents of the cursor file by the cursor.
    PersistCursor { cursor: String },
    /// Pause for so many milliseconds at least.
    Sleep { millis: u64 },
    /// Stop for good.
    Halt { error: ShipError },
}

/// What an action is in contracts.
pub enum ActionModel {
    OpenJournal { seek: SeekModel },
    DescribeLogStreams { request: DescribeModel },
    CreateLogStream { request: CreateModel },
    ReadBatch { limit: u32 },
    Upload { sequence_token: Option<Seq<char>>, batch: BatchModel },
    PersistCursor { cursor: Seq<char> },
    Sleep { millis: u64 },
    Halt { error: ShipError },
}

impl View for Action {
    type V = ActionModel;

    open spec fn view(&self) -> ActionModel {
        match self {
            Action::OpenJournal { seek } => ActionModel::OpenJournal { seek: seek@ },
            Action::DescribeLogStreams { request } => ActionModel::DescribeLogStreams {
                request: request@,
            },
            Action::CreateLogStream { request } => ActionModel::CreateLogStream {
                request: request@,
            },
            Action::ReadBatch { limit } => ActionModel::ReadBatch { limit: *limit },
            Action::Upload { sequence_token, batch } => ActionModel::Upload {
                sequence_token: sequence_token.deep_view(),
                batch: batch@,
            },
            Action::PersistCursor { cursor } => ActionModel::PersistCursor { cursor: cursor@ },
            Action::Sleep { millis } => ActionModel::Sleep { millis: *millis },
            Action::Halt { error } => ActionModel::Halt { error: *error },
        }
    }
}

/// Which action is open.
#[derive(Clone, Debug, PartialEq, Eq)]
pub enum Phase {
    /// The journal is being opened.
    Opening,
    /// The service is being asked for the stream.
    Resolving,
    /// The stream is being created.
    Creating,
    /// The journal is being read.
    Polling,
    /// A batch is being uploaded; `cursor` is the batch's cursor.
    Uploading { cursor: String },
    /// The cursor of the batch uploaded last is being written.
    Persisting,
    /// The shipper pauses, the journal having had nothing.
    Idle,
    /// The shipper has stopped.
    Halted { error: ShipError },
}

/// What a phase is in contracts.
pub enum PhaseModel {
    Opening,
    Resolving,
    Creating,
    Polling,
    Uploading { cursor: Seq<char> },
    Persisting,
    Idle,
    Halted { error: ShipError },
}

impl View for Phase {
    type V = PhaseModel;

    open spec fn view(&self) -> PhaseModel {
        match self {
            Phase::Opening => PhaseModel::Opening,
            Phase::Resolving => PhaseModel::Resolving,
            Phase::Creating => PhaseModel::Creating,
            Phase::Polling => PhaseModel::Polling,
            Phase::Uploading { cursor } => PhaseModel::Uploading { cursor: cursor@ },
            Phase::Persisting => PhaseModel::Persisting,
            Phase::Idle => PhaseModel::Idle,
            Phase::Halted { error } => PhaseModel::Halted { error: *error },
        }
    }
}

impl PhaseModel {
    /// A batch is on its way: uploaded but not yet recorded as such.
    pub open spec fn draining(self) -> bool {
        self is Uploading || self is Persisting
    }

    /// The kind of failure that a failed action of this phase is.
    pub open spec fn failure(self) -> ShipError {
        match self {
            PhaseModel::Opening | PhaseModel::Polling => ShipError::Journal,
            PhaseModel::Resolving | PhaseModel::Creating | PhaseModel::Uploading { .. } =>
                ShipError::Sink,
            PhaseModel::Persisting => ShipError::CursorStore,
            PhaseModel::Idle => ShipError::Protocol,
            PhaseModel::Halted { error } => error,
        }
    }
}

/// The shipper between two steps.
#[derive(Clone, Debug, PartialEq, Eq)]
pub struct Shipper {
    pub config: Config,
    /// The token that the next upload has to carry.
    pub sequence_token: Option<String>,
    pub phase: Phase,
}

/// What a shipper is in contracts.
pub struct ShipperModel {
    pub config: ConfigModel,
    pub sequence_token: Option<Seq<char>>,
    pub phase: PhaseModel,
}

impl View for Shipper {
    type V = ShipperModel;

    open spec fn view(&self) -> ShipperModel {
        ShipperModel {
            config: self.config@,
            sequence_token: self.sequence_token.deep_view(),
            phase: self.phase@,
        }
    }
}

impl ShipperModel {
    /// This shipper in another phase.
    pub open spec fn at(self, phase: PhaseModel) -> ShipperModel {
        ShipperModel { phase, ..self }
    }

    /// This shipper, stopped.
    pub open spec fn halt(self, error: ShipError) -> (ShipperModel, ActionModel) {
        (self.at(PhaseModel::Halted { error }), ActionModel::Halt { error })
    }

    /// This shipper, about to read the journal.
    pub open spec fn poll(self) -> (ShipperModel, ActionModel) {
        (self.at(PhaseModel::Polling), ActionModel::ReadBatch { limit: self.config.batch_size })
    }
}

/// How a shipper begins: by having the journal opened at the cursor that the
/// cursor file holds, or at the head where it holds none. `cursor_file` is
/// the whole text of the file, or `None` for a file that is not there.
pub open spec fn ship_start(config: ConfigModel, cursor_file: Option<Seq<char>>) -> (
    ShipperModel,
    ActionModel,
) {
    (
        ShipperModel { config, sequence_token: None, phase: PhaseModel::Opening },
        ActionModel::OpenJournal { seek: seek_target(stored_cursor(cursor_file)) },
    )
}

/// What a shipper does on a report.
///
/// With the journal open, the stream of the configured name is looked for;
/// it is adopted with its token or created, and then the journal is read. A batch is uploaded under
/// the present token; the service's answer replaces the token, and only then
/// is the batch's cursor written; after that the journal is read again. An
/// empty read is followed by a pause, and the pause by another read. A batch
/// that is empty or larger than the configured size, a failure, and a report
/// that answers no open action stop the shipper, and once stopped it stays
/// so.
pub open spec fn ship_next(shipper: ShipperModel, event: EventModel) -> (
    ShipperModel,
    ActionModel,
) {
    match (shipper.phase, event) {
        (PhaseModel::Halted { error }, _) => shipper.halt(error),
        (phase, EventModel::Failed) => shipper.halt(phase.failure()),
        (PhaseModel::Opening, EventModel::JournalOpened) => (
            shipper.at(PhaseModel::Resolving),
            ActionModel::DescribeLogStreams { request: describe_request_of(shipper.config) },
        ),
        (PhaseModel::Resolving, EventModel::StreamsDescribed { streams }) => match resolution_of(
            shipper.config.log_stream_name,
            streams,
        ) {
            ResolutionModel::Adopt { sequence_token } => ShipperModel {
                sequence_token,
                ..shipper
            }.poll(),
            ResolutionModel::Create => (
                shipper.at(PhaseModel::Creating),
                ActionModel::CreateLogStream { request: create_request_of(shipper.config) },
            ),
        },
        (PhaseModel::Creating, EventModel::StreamCreated) => ShipperModel {
            sequence_token: None,
            ..shipper
        }.poll(),
        (PhaseModel::Polling, EventModel::BatchRead { batch: None }) => (
            shipper.at(PhaseModel::Idle),
            ActionModel::Sleep { millis: shipper.config.sleep_millis },
        ),
        (PhaseModel::Polling, EventModel::BatchRead { batch: Some(batch) }) => {
            if 0 < batch.logs.len() <= shipper.config.batch_size {
                (
                    shipper.at(PhaseModel::Uploading { cursor: batch.cursor }),
                    ActionModel::Upload { sequence_token: shipper.sequence_token, batch },
                )
            } else {
                shipper.halt(ShipError::Protocol)
            }
        },
        (PhaseModel::Uploading { cursor }, EventModel::Uploaded { next_sequence_token }) => (
            ShipperModel {
                sequence_token: next_sequence_token,
                phase: PhaseModel::Persisting,
                ..shipper
            },
            ActionModel::PersistCursor { cursor },
        ),
        (PhaseModel::Persisting, EventModel::CursorPersisted) => shipper.poll(),
        (PhaseModel::Idle, EventModel::Woke) => shipper.poll(),
        _ => shipper.halt(ShipError::Protocol),
    }
}

/// A copy of a token.
fn copy_token(token: &Option<String>) -> (copy: Option<String>)
    ensures
        copy.deep_view() == token.deep_view(),
{
    match token {
        Some(text) => Some(text.clone()),
        None => None,
    }
}

impl Phase {
    /// The kind of failure that a failed action of this phase is.
    pub fn failure(&self) -> (error: ShipError)
        ensures
            error == self@.failure(),
    {
        match self {
            Phase::Opening | Phase::Polling => ShipError::Journal,
            Phase::Resolving | Phase::Creating | Phase::Uploading { .. } => ShipError::Sink,
            Phase::Persisting => ShipError::CursorStore,
            Phase::Idle => ShipError::Protocol,
            Phase::Halted { error } => *error,
        }
    }
}

impl Shipper {
    /// Begins shipping. `cursor_file` is the whole text of the cursor file,
    /// or `None` for a file that is not there.
    pub fn start(config: Config, cursor_file: Option<String>) -> (begun: (Shipper, Action))
        ensures
            (begun.0@, begun.1@) == ship_start(config@, cursor_file.deep_view()),
    {
        let seek = journal_seek_target(cursor_file);
        (
            Shipper { config, sequence_token: None, phase: Phase::Opening },
            Action::OpenJournal { seek },
        )
    }

    fn halt(self, error: ShipError) -> (next: (Shipper, Action))
        ensures
            (next.0@, next.1@) == self@.halt(error),
    {
        (
            Shipper {
                config: self.config,
                sequence_token: self.sequence_token,
                phase: Phase::Halted { error },
            },
            Action::Halt { error },
        )
    }

    fn poll(self) -> (next: (Shipper, Action))
        ensures
            (next.0@, next.1@) == self@.poll(),
    {
        let limit = self.config.batch_size;
        (
            Shipper {
                config: self.config,
                sequence_token: self.sequence_token,
                phase: Phase::Polling,
            },
            Action::ReadBatch { limit },
        )
    }

    /// Takes the report on the action that was open and hands out the next
    /// action.
    pub fn step(self, event: Event) -> (next: (Shipper, Action))
        ensures
            (next.0@, next.1@) == ship_next(self@, event@),
    {
        let Shipper { config, sequence_token, phase } = self;
        match (phase, event) {
            (Phase::Halted { error }, _) => Shipper {
                config,
                sequence_token,
                phase: Phase::Halted { error },
            }.halt(error),
            (phase, Event::Failed) => {
                let error = phase.failure();
                Shipper { config, sequence_token, phase }.halt(error)
            },
            (Phase::Opening, Event::JournalOpened) => {
                let request = describe_log_streams_request(&config);
                (
                    Shipper { config, sequence_token, phase: Phase::Resolving },
                    Action::DescribeLogStreams { request },
                )
            },
            (Phase::Resolving, Event::StreamsDescribed { streams }) => {
                match create_or_find_log_stream(&config.log_stream_name, streams) {
                    StreamResolution::Adopt { sequence_token: adopted } => Shipper {
                        config,
                        sequence_token: adopted,
                        phase: Phase::Resolving,
                    }.poll(),
                    StreamResolution::Create => {
                        let request = create_log_stream_request(&config);
                        (
                            Shipper { config, sequence_token, phase: Phase::Creating },
                            Action::CreateLogStream { request },
                        )
                    },
                }
            },
            (Phase::Creating, Event::StreamCreated) => Shipper {
                config,
                sequence_token: None,
                phase: Phase::Creating,
            }.poll(),
            (Phase::Polling, Event::BatchRead { batch: None }) => {
                let millis = config.sleep_millis;
                (Shipper { config, sequence_token, phase: Phase::Idle }, Action::Sleep { millis })
            },
            (Phase::Polling, Event::BatchRead { batch: Some(batch) }) => {
                if batch.is_within(config.batch_size) {
                    let cursor = batch.cursor.clone();
                    let token = copy_token(&sequence_token);
                    (
                        Shipper { config, sequence_token, phase: Phase::Uploading { cursor } },
                        Action::Upload { sequence_token: token, batch },
                    )
                } else {
                    Shipper { config, sequence_token, phase: Phase::Polling }.halt(
                        ShipError::Protocol,
                    )
                }
            },
            (Phase::Uploading { cursor }, Event::Uploaded { next_sequence_token }) => (
                Shipper { config, sequence_token: next_sequence_token, phase: Phase::Persisting },
                Action::PersistCursor { cursor },
            ),
            (Phase::Persisting, Event::CursorPersisted) => Shipper {
                config,
                sequence_token,
                phase: Phase::Persisting,
            }.poll(),
            (Phase::Idle, Event::Woke) => Shipper {
                config,
                sequence_token,
                phase: Phase::Idle,
            }.poll(),
            (phase, _) => Shipper { config, sequence_token, phase }.halt(ShipError::Protocol),
        }
    }
}

} // verus!
