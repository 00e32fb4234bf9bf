//! The remote sink: which stream the shipper writes to, and what one upload
//! carries.

use crate::clock::{current_ms, ClockError};
use crate::config::{Config, ConfigModel};
use crate::record::{BatchModel, LogBatch, LogRecord};
use vstd::prelude::*;

verus! {

/// What the ingestion service reports of one existing stream, as far as the
/// shipper reads it.
#[derive(Clone, Debug, PartialEq, Eq)]
pub struct LogStream {
    /// The stream's name, where the service gives one.
    pub log_stream_name: Option<String>,
    /// Token that the next upload to the stream has to carry; absent when
    /// nothing was uploaded to it yet.
    pub upload_sequence_token: Option<String>,
}

/// What a reported stream is in contracts.
pub struct StreamModel {
    pub log_stream_name: Option<Seq<char>>,
    pub upload_sequence_token: Option<Seq<char>>,
}

impl View for LogStream {
    type V = StreamModel;

    open spec fn view(&self) -> StreamModel {
        StreamModel {
            log_stream_name: self.log_stream_name.deep_view(),
            upload_sequence_token: self.upload_sequence_token.deep_view(),
        }
    }
}

impl DeepView for LogStream {
    type V = StreamModel;

    open spec fn deep_view(&self) -> StreamModel {
        self@
    }
}

/// The query for the streams of the configured group whose names begin with
/// the configured stream name.
#[derive(Clone, Debug, PartialEq, Eq)]
pub struct DescribeLogStreamsRequest {
    pub log_group_name: String,
    pub log_stream_name_prefix: String,
}

/// What a stream query is in contracts.
pub struct DescribeModel {
    pub log_group_name: Seq<char>,
    pub log_stream_name_prefix: Seq<char>,
}

impl View for DescribeLogStreamsRequest {
    type V = DescribeModel;

    open spec fn view(&self) -> DescribeModel {
        DescribeModel {
            log_group_name: self.log_group_name@,
            log_stream_name_prefix: self.log_stream_name_prefix@,
        }
    }
}

/// The order to create the configured stream.
#[derive(Clone, Debug, PartialEq, Eq)]
pub struct CreateLogStreamRequest {
    pub log_group_name: String,
    pub log_stream_name: String,
}

/// What a creation order is in contracts.
pub struct CreateModel {
    pub log_group_name: Seq<char>,
    pub log_stream_name: Seq<char>,
}

impl View for CreateLogStreamRequest {
    type V = CreateModel;

    open spec fn view(&self) -> CreateModel {
        CreateModel {
            log_group_name: self.log_group_name@,
            log_stream_name: self.log_stream_name@,
        }
    }
}

/// What to do once the service has answered the stream query.
#[derive(Clone, Debug, PartialEq, Eq)]
pub enum StreamResolution {
    /// A stream exists: upload to it, starting with its current token.
    Adopt { sequence_token: Option<String> },
    /// No stream exists: create it, then upload without a token.
    Create,
}

/// What a resolution is in contracts.
pub enum ResolutionModel {
    Adopt { sequence_token: Option<Seq<char>> },
    Create,
}

impl View for StreamResolution {
    type V = ResolutionModel;

    open spec fn view(&self) -> ResolutionModel {
        match self {
            StreamResolution::Adopt { sequence_token } => ResolutionModel::Adopt {
                sequence_token: sequence_token.deep_view(),
            },
            StreamResolution::Create => ResolutionModel::Create,
        }
    }
}

/// The stream query that `config` calls for.
pub open spec fn describe_request_of(config: ConfigModel) -> DescribeModel {
    DescribeModel {
        log_group_name: config.log_group_name,
        log_stream_name_prefix: config.log_stream_name,
    }
}

/// The creation order that `config` calls for.
pub open spec fn create_request_of(config: ConfigModel) -> CreateModel {
    CreateModel {
        log_group_name: config.log_group_name,
        log_stream_name: config.log_stream_name,
    }
}

/// Whether `listed[i]` is the first stream listed that bears the name `name`.
pub open spec fn first_named(listed: Seq<StreamModel>, name: Seq<char>, i: int) -> bool {
    &&& 0 <= i < listed.len()
    &&& listed[i].log_stream_name == Some(name)
    &&& forall|j: int| 0 <= j < i ==> (#[trigger] listed[j]).log_stream_name != Some(name)
}

/// The resolution that an answer to the stream query leads to. The query
/// lists every stream whose name begins with the configured one; only a
/// stream that bears exactly the name `name` is the configured stream. The
/// first such stream listed is adopted with its token. Where there is none,
/// or no list, the stream is to be created.
pub open spec fn resolution_of(name: Seq<char>, streams: Option<Seq<StreamModel>>) -> ResolutionModel {
    match streams {
        Some(listed) if exists|i: int| first_named(listed, name, i) => ResolutionModel::Adopt {
            sequence_token: listed[choose|i: int| first_named(listed, name, i)].upload_sequence_token,
        },
        _ => ResolutionModel::Create,
    }
}

/// At most one stream is the first that bears a name.
pub proof fn lemma_first_named_unique(listed: Seq<StreamModel>, name: Seq<char>, i: int, k: int)
    requires
        first_named(listed, name, i),
        first_named(listed, name, k),
    ensures
        i == k,
{
    if i < k {
        assert(listed[i].log_stream_name != Some(name));
    } else if k < i {
        assert(listed[k].log_stream_name != Some(name));
    }
}

/// The token that uploads start with after `resolution` has been carried out.
pub open spec fn initial_token(resolution: ResolutionModel) -> Option<Seq<char>> {
    match resolution {
        ResolutionModel::Adopt { sequence_token } => sequence_token,
        ResolutionModel::Create => None,
    }
}

/// Builds the query for the streams that match the configured name.
pub fn describe_log_streams_request(config: &Config) -> (request: DescribeLogStreamsRequest)
    ensures
        request@ == describe_request_of(config@),
{
    DescribeLogStreamsRequest {
        log_group_name: config.log_group_name.clone(),
        log_stream_name_prefix: config.log_stream_name.clone(),
    }
}

/// Builds the order to create the configured stream.
pub fn create_log_stream_request(config: &Config) -> (request: CreateLogStreamRequest)
    ensures
        request@ == create_request_of(config@),
{
    CreateLogStreamRequest {
        log_group_name: config.log_group_name.clone(),
        log_stream_name: config.log_stream_name.clone(),
    }
}

/// Decides from the service's answer to the stream query whether the stream
/// named `log_stream_name` exists and is adopted, and with which token, or
/// has to be created.
pub fn create_or_find_log_stream(
    log_stream_name: &String,
    streams: Option<Vec<LogStream>>,
) -> (resolution: StreamResolution)
    ensures
        resolution@ == resolution_of(log_stream_name@, streams.deep_view()),
{
    let mut listed = match streams {
        Some(listed) => listed,
        None => {
            return StreamResolution::Create;
        },
    };
    let ghost model = listed.deep_view();
    let mut i: usize = 0;
    while i < listed.len()
        invariant
            i <= listed.len(),
            listed.deep_view() == model,
            streams.deep_view() == Some(model),
            forall|j: int| 0 <= j < i ==> (#[trigger] model[j]).log_stream_name != Some(
                log_stream_name@,
            ),
        decreases listed.len() - i,
    {
        let found = match &listed[i].log_stream_name {
            Some(name) => *name == *log_stream_name,
            None => false,
        };
        assert(model[i as int] == listed[i as int]@);
        if found {
            proof {
                assert(first_named(model, log_stream_name@, i as int));
                lemma_first_named_unique(
                    model,
                    log_stream_name@,
                    i as int,
                    choose|k: int| first_named(model, log_stream_name@, k),
                );
            }
            let stream = listed.swap_remove(i);
            assert(stream@ == model[i as int]);
            return StreamResolution::Adopt { sequence_token: stream.upload_sequence_token };
        }
        i = i + 1;
    }
    StreamResolution::Create
}

/// `serde_json::Error`, what `serde_json::to_string` fails with. Nothing
/// inside it is visible to the proofs.
#[verifier::external_type_specification]
#[verifier::external_body]
pub struct ExJsonError(serde_json::Error);

/// What `serde_json::to_string` makes of a map from strings to strings that
/// holds `fields`: the JSON text, or `None` where it gives an error.
pub uninterp spec fn json_text(fields: Map<Seq<char>, Seq<char>>) -> Option<Seq<char>>;

/// Calls `serde_json::to_string` on the record's fields. Whether the call
/// succeeds, and with which text, depends on the fields alone; `json_text` is
/// the name for that outcome. That the call succeeds is not claimed.
#[verifier::external_body]
fn to_json(record: &LogRecord) -> (encoded: Result<String, serde_json::Error>)
    ensures
        encoded_text(encoded) == json_text(record@),
{
    serde_json::to_string(&record.fields)
}

/// Why no upload could be put together.
#[derive(Clone, Copy, Debug, PartialEq, Eq, Structural)]
pub enum SinkError {
    /// A record could not be written as JSON.
    Encoding,
    /// No timestamp could be had for a record.
    Clock { error: ClockError },
}

/// One record as it goes over the wire.
#[derive(Clone, Debug, PartialEq, Eq)]
pub struct InputLogEvent {
    /// The record as one JSON text.
    pub message: String,
    /// Milliseconds since the Unix epoch at which the upload was put together.
    pub timestamp: i64,
}

/// What a wire event is in contracts.
pub struct LogEventModel {
    pub message: Seq<char>,
    pub timestamp: i64,
}

impl View for InputLogEvent {
    type V = LogEventModel;

    open spec fn view(&self) -> LogEventModel {
        LogEventModel { message: self.message@, timestamp: self.timestamp }
    }
}

impl DeepView for InputLogEvent {
    type V = LogEventModel;

    open spec fn deep_view(&self) -> LogEventModel {
        self@
    }
}

/// One upload: the events of one batch, for one stream, under one sequence
/// token.
#[derive(Clone, Debug, PartialEq, Eq)]
pub struct PutLogEventsRequest {
    pub log_events: Vec<InputLogEvent>,
    pub log_group_name: String,
    pub log_stream_name: String,
    pub sequence_token: Option<String>,
}

/// What an upload is in contracts.
pub struct PutModel {
    pub log_events: Seq<LogEventModel>,
    pub log_group_name: Seq<char>,
    pub log_stream_name: Seq<char>,
    pub sequence_token: Option<Seq<char>>,
}

impl View for PutLogEventsRequest {
    type V = PutModel;

    open spec fn view(&self) -> PutModel {
        PutModel {
            log_events: self.log_events.deep_view(),
            log_group_name: self.log_group_name@,
            log_stream_name: self.log_stream_name@,
            sequence_token: self.sequence_token.deep_view(),
        }
    }
}

/// What becomes of one record once its JSON text and the time are known, or
/// known to be missing: the event, or the first thing that went wrong.
pub open spec fn stamped(encoded: Option<Seq<char>>, now: Result<i64, ClockError>) -> Result<
    LogEventModel,
    SinkError,
> {
    match (encoded, now) {
        (None, _) => Err(SinkError::Encoding),
        (Some(_), Err(error)) => Err(SinkError::Clock { error }),
        (Some(message), Ok(timestamp)) => Ok(LogEventModel { message, timestamp }),
    }
}

/// The text of an encoding that succeeded.
pub open spec fn encoded_text(encoded: Result<String, serde_json::Error>) -> Option<Seq<char>> {
    match encoded {
        Ok(text) => Some(text@),
        Err(_) => None,
    }
}

/// Whether `request` is an upload of `batch` for the stream of `config` under
/// `sequence_token`: it names that group and stream, carries that token, and
/// holds one event for each record of the batch, in the batch's order, whose
/// message is the record's JSON text and whose timestamp is not negative.
pub open spec fn uploads(
    request: PutModel,
    config: ConfigModel,
    sequence_token: Option<Seq<char>>,
    batch: BatchModel,
) -> bool {
    &&& request.log_group_name == config.log_group_name
    &&& request.log_stream_name == config.log_stream_name
    &&& request.sequence_token == sequence_token
    &&& request.log_events.len() == batch.logs.len()
    &&& forall|i: int|
        0 <= i < batch.logs.len() ==> {
            &&& Some((#[trigger] request.log_events[i]).message) == json_text(batch.logs[i])
            &&& request.log_events[i].timestamp >= 0
        }
}

/// Makes the wire event of one record from the outcome of encoding it and the
/// outcome of reading the clock. A failed encoding is reported before a
/// failed clock.
pub fn stamped_event(encoded: Result<String, serde_json::Error>, now: Result<i64, ClockError>) -> (event:
    Result<InputLogEvent, SinkError>)
    ensures
        match stamped(encoded_text(encoded), now) {
            Ok(model) => event matches Ok(made) && made@ == model,
            Err(error) => event == Err::<InputLogEvent, SinkError>(error),
        },
{
    match encoded {
        Err(_) => Err(SinkError::Encoding),
        Ok(message) => match now {
            Err(error) => Err(SinkError::Clock { error }),
            Ok(timestamp) => Ok(InputLogEvent { message, timestamp }),
        },
    }
}

/// Makes the wire event of one record: its JSON text, stamped with the
/// present time.
///
/// A record that has no JSON text gives `Encoding`, whatever the clock reads.
/// For a record that has one the clock decides: either an event is made,
/// which carries that text and a timestamp that is not negative, or the
/// clock's failure is handed on.
pub fn input_log_event(record: &LogRecord) -> (event: Result<InputLogEvent, SinkError>)
    ensures
        match json_text(record@) {
            None => event == Err::<InputLogEvent, SinkError>(SinkError::Encoding),
            Some(text) => match event {
                Ok(made) => made@.message == text && made@.timestamp >= 0,
                Err(error) => error is Clock,
            },
        },
{
    let encoded = to_json(record);
    let now = current_ms();
    stamped_event(encoded, now)
}

/// Puts `events` into one upload for the stream of `config` under
/// `sequence_token`.
pub fn put_log_events_request(
    config: &Config,
    sequence_token: Option<String>,
    events: Vec<InputLogEvent>,
) -> (request: PutLogEventsRequest)
    ensures
        request@ == (PutModel {
            log_events: events.deep_view(),
            log_group_name: config@.log_group_name,
            log_stream_name: config@.log_stream_name,
            sequence_token: sequence_token.deep_view(),
        }),
{
    PutLogEventsRequest {
        log_events: events,
        log_group_name: config.log_group_name.clone(),
        log_stream_name: config.log_stream_name.clone(),
        sequence_token,
    }
}

/// Puts together the upload of `batch` under `sequence_token`: every record
/// is written as JSON and stamped with the time at which this happens.
///
/// Encoder and clock decide whether an upload is made; the first record that
/// fails ends the attempt, and a batch without records cannot fail. An upload
/// that is made is an upload of exactly this batch, for the configured
/// stream, under exactly this token. `Encoding` is reported only where a
/// record of the batch has no JSON text, and it is what is reported where
/// the first record has none.
pub fn upload_logs(config: &Config, sequence_token: Option<String>, batch: &LogBatch) -> (request:
    Result<PutLogEventsRequest, SinkError>)
    ensures
        request matches Ok(made) ==> uploads(
            made@,
            config@,
            sequence_token.deep_view(),
            batch@,
        ),
        batch.logs.len() == 0 ==> request is Ok,
        request == Err::<PutLogEventsRequest, SinkError>(SinkError::Encoding) ==> exists|i: int|
            0 <= i < batch@.logs.len() && json_text(#[trigger] batch@.logs[i]) is None,
        batch.logs.len() > 0 && json_text(batch@.logs[0]) is None ==> request == Err::<
            PutLogEventsRequest,
            SinkError,
        >(SinkError::Encoding),
{
    let mut events: Vec<InputLogEvent> = Vec::new();
    let mut i: usize = 0;
    while i < batch.logs.len()
        invariant
            i <= batch.logs.len(),
            events.len() == i,
            i > 0 ==> json_text(batch@.logs[0]) is Some,
            forall|k: int|
                0 <= k < i ==> {
                    &&& Some((#[trigger] events[k])@.message) == json_text(batch.logs[k]@)
                    &&& events[k]@.timestamp >= 0
                },
        decreases batch.logs.len() - i,
    {
        match input_log_event(&batch.logs[i]) {
            Ok(event) => {
                assert(batch@.logs[i as int] == batch.logs[i as int]@);
                events.push(event);
            },
            Err(error) => {
                assert(batch@.logs[i as int] == batch.logs[i as int]@);
                return Err(error);
            },
        }
        i = i + 1;
    }
    let request = put_log_events_request(config, sequence_token, events);
    assert(uploads(request@, config@, sequence_token.deep_view(), batch@)) by {
        assert forall|k: int| 0 <= k < batch@.logs.len() implies {
            &&& Some((#[trigger] request@.log_events[k]).message) == json_text(batch@.logs[k])
            &&& request@.log_events[k].timestamp >= 0
        } by {
            assert(request@.log_events[k] == events[k]@);
            assert(batch@.logs[k] == batch.logs[k]@);
        }
    }
    Ok(request)
}

} // verus!
