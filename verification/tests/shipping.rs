use cloudjournal::config::Config;
use cloudjournal::cursor::JournalSeek;
use cloudjournal::reader::{BatchReader, ReadAction, ReadEvent};
use cloudjournal::record::{LogBatch, LogRecord};
use cloudjournal::ship::{Action, Event, Phase, ShipError, Shipper};
use cloudjournal::sink::{
    upload_logs, CreateLogStreamRequest, DescribeLogStreamsRequest, LogStream,
};
use std::collections::BTreeMap;

fn config(batch_size: u32) -> Config {
    Config {
        aws_region: "eu-central-1".to_string(),
        cursor_file: "/tmp/cursor".to_string(),
        batch_size,
        sleep_millis: 500,
        log_group_name: "journal".to_string(),
        log_stream_name: "host-1".to_string(),
    }
}

fn record(message: &str) -> LogRecord {
    let mut fields = BTreeMap::new();
    fields.insert("MESSAGE".to_string(), message.to_string());
    LogRecord { fields }
}

fn batch(messages: &[&str], cursor: &str) -> LogBatch {
    LogBatch { cursor: cursor.to_string(), logs: messages.iter().map(|m| record(m)).collect() }
}

fn shipper(batch_size: u32, token: Option<&str>, phase: Phase) -> Shipper {
    Shipper { config: config(batch_size), sequence_token: token.map(|t| t.to_string()), phase }
}

/// A journal, a cursor file and an ingestion service in memory, with a log
/// of what was done to them.
struct World {
    journal: Vec<String>,
    position: usize,
    cursor_file: Option<String>,
    stream: Option<Option<String>>,
    /// Streams of other names that the service lists before the configured
    /// one.
    others: Vec<LogStream>,
    uploads: Vec<(Option<String>, Vec<String>)>,
    calls: Vec<String>,
    /// Records that are written to the journal during the next pause.
    later: Vec<String>,
}

impl World {
    fn new(journal: &[&str]) -> World {
        World {
            journal: journal.iter().map(|m| m.to_string()).collect(),
            position: 0,
            cursor_file: None,
            stream: None,
            others: Vec::new(),
            uploads: Vec::new(),
            calls: Vec::new(),
            later: Vec::new(),
        }
    }

    fn cursor_after(&self, position: usize) -> String {
        format!("cursor@{}", self.journal[position - 1])
    }

    fn read_batch(&mut self, limit: u32) -> Option<LogBatch> {
        let (mut reader, mut action) = BatchReader::start(limit);
        loop {
            let event = match action {
                ReadAction::NextRecord => {
                    if self.position < self.journal.len() {
                        self.position += 1;
                        ReadEvent::Record { record: record(&self.journal[self.position - 1]) }
                    } else {
                        ReadEvent::Exhausted
                    }
                }
                ReadAction::QueryCursor => {
                    ReadEvent::Position { cursor: self.cursor_after(self.position) }
                }
                ReadAction::Deliver { batch } => return batch,
                ReadAction::Reject => panic!("the reader rejected a truthful answer"),
            };
            let (next, then) = reader.step(event);
            reader = next;
            action = then;
        }
    }

    fn perform(&mut self, config: &Config, action: Action) -> Event {
        match action {
            Action::OpenJournal { seek } => match seek {
                JournalSeek::Head => {
                    self.calls.push("open@head".to_string());
                    self.position = 0;
                    Event::JournalOpened
                }
                JournalSeek::Cursor { cursor } => {
                    self.calls.push(format!("open@{}", cursor));
                    let found = (1..=self.journal.len()).find(|p| self.cursor_after(*p) == cursor);
                    match found {
                        Some(position) => {
                            self.position = position;
                            Event::JournalOpened
                        }
                        None => Event::Failed,
                    }
                }
            },
            Action::DescribeLogStreams { request } => {
                assert_eq!(request.log_group_name, config.log_group_name);
                assert_eq!(request.log_stream_name_prefix, config.log_stream_name);
                self.calls.push("describe".to_string());
                let mut listed = self.others.clone();
                for token in &self.stream {
                    listed.push(LogStream {
                        log_stream_name: Some(config.log_stream_name.clone()),
                        upload_sequence_token: token.clone(),
                    });
                }
                Event::StreamsDescribed { streams: Some(listed) }
            }
            Action::CreateLogStream { request } => {
                assert_eq!(request.log_group_name, config.log_group_name);
                assert_eq!(request.log_stream_name, config.log_stream_name);
                self.calls.push("create".to_string());
                if self.stream.is_some() {
                    return Event::Failed;
                }
                self.stream = Some(None);
                Event::StreamCreated
            }
            Action::ReadBatch { limit } => {
                let batch = self.read_batch(limit);
                match &batch {
                    Some(batch) => {
                        let messages: Vec<String> =
                            batch.logs.iter().map(|r| r.fields["MESSAGE"].clone()).collect();
                        self.calls.push(format!("read {{{}}}", messages.join(",")));
                    }
                    None => self.calls.push("read none".to_string()),
                }
                Event::BatchRead { batch }
            }
            Action::Upload { sequence_token, batch } => {
                let request = upload_logs(config, sequence_token, &batch).unwrap();
                if self.stream != Some(request.sequence_token.clone()) {
                    self.calls.push("upload refused".to_string());
                    return Event::Failed;
                }
                let messages: Vec<String> = request
                    .log_events
                    .iter()
                    .map(|event| {
                        let fields: BTreeMap<String, String> =
                            serde_json::from_str(&event.message).unwrap();
                        fields["MESSAGE"].clone()
                    })
                    .collect();
                self.calls.push(format!("upload {{{}}}", messages.join(",")));
                self.uploads.push((request.sequence_token, messages));
                let next = Some(format!("token-{}", self.uploads.len()));
                self.stream = Some(next.clone());
                Event::Uploaded { next_sequence_token: next }
            }
            Action::PersistCursor { cursor } => {
                self.calls.push(format!("persist {}", cursor));
                self.cursor_file = Some(cursor);
                Event::CursorPersisted
            }
            Action::Sleep { millis } => {
                self.calls.push(format!("sleep {}", millis));
                self.journal.append(&mut self.later);
                Event::Woke
            }
            Action::Halt { error } => panic!("the shipper stopped: {:?}", error),
        }
    }

    /// Runs a session of the shipper from a fresh start until `stop` holds
    /// of the action that is about to be carried out; that action is not
    /// carried out.
    fn run_until(&mut self, config: &Config, stop: impl Fn(&World, &Action) -> bool) -> Action {
        let (mut shipper, mut action) = Shipper::start(config.clone(), self.cursor_file.clone());
        loop {
            if stop(self, &action) {
                return action;
            }
            let event = self.perform(config, action);
            let (next, then) = shipper.step(event);
            shipper = next;
            action = then;
        }
    }
}

fn delivered(world: &World) -> Vec<String> {
    world.uploads.iter().flat_map(|(_, messages)| messages.clone()).collect()
}

#[test]
fn five_records_in_batches_of_two() {
    let mut world = World::new(&["a", "b", "c", "d", "e"]);
    let config = config(2);
    world.run_until(&config, |_, action| matches!(action, Action::Sleep { .. }));
    assert_eq!(
        world.calls,
        vec![
            "open@head",
            "describe",
            "create",
            "read {a,b}",
            "upload {a,b}",
            "persist cursor@b",
            "read {c,d}",
            "upload {c,d}",
            "persist cursor@d",
            "read {e}",
            "upload {e}",
            "persist cursor@e",
            "read none",
        ]
    );
    assert_eq!(world.cursor_file, Some("cursor@e".to_string()));
    assert_eq!(delivered(&world), vec!["a", "b", "c", "d", "e"]);
}

#[test]
fn caught_up_journal_is_polled_with_pauses() {
    let mut world = World::new(&["a"]);
    let config = config(2);
    world.run_until(&config, |world, _| world.calls.len() == 11);
    assert_eq!(
        world.calls,
        vec![
            "open@head",
            "describe",
            "create",
            "read {a}",
            "upload {a}",
            "persist cursor@a",
            "read none",
            "sleep 500",
            "read none",
            "sleep 500",
            "read none",
        ]
    );
    assert_eq!(world.uploads.len(), 1);
}

#[test]
fn records_written_during_a_pause_are_shipped_after_it() {
    let mut world = World::new(&["a"]);
    world.later = vec!["b".to_string(), "c".to_string(), "d".to_string()];
    let config = config(2);
    world.run_until(&config, |world, action| {
        world.uploads.len() == 3 && matches!(action, Action::Sleep { .. })
    });
    assert_eq!(
        world.calls,
        vec![
            "open@head",
            "describe",
            "create",
            "read {a}",
            "upload {a}",
            "persist cursor@a",
            "read none",
            "sleep 500",
            "read {b,c}",
            "upload {b,c}",
            "persist cursor@c",
            "read {d}",
            "upload {d}",
            "persist cursor@d",
            "read none",
        ]
    );
    assert_eq!(delivered(&world), vec!["a", "b", "c", "d"]);
}

#[test]
fn batch_size_zero_never_uploads() {
    let mut world = World::new(&["a", "b"]);
    let config = config(0);
    world.run_until(&config, |world, _| world.calls.len() == 7);
    assert_eq!(
        world.calls,
        vec!["open@head", "describe", "create", "read none", "sleep 500", "read none", "sleep 500"]
    );
    assert_eq!(world.cursor_file, None);
}

#[test]
fn crash_before_cursor_write_redelivers_from_the_stored_cursor() {
    let mut world = World::new(&["a", "b", "c", "d", "e"]);
    let config = config(2);
    // first session: {a,b} shipped and recorded, {c,d} shipped, then the crash
    world.run_until(&config, |world, action| {
        world.uploads.len() == 2 && matches!(action, Action::PersistCursor { .. })
    });
    assert_eq!(world.cursor_file, Some("cursor@b".to_string()));
    assert_eq!(delivered(&world), vec!["a", "b", "c", "d"]);

    let before = world.uploads.len();
    world.calls.clear();
    world.run_until(&config, |_, action| matches!(action, Action::Sleep { .. }));
    assert_eq!(
        world.calls,
        vec![
            "open@cursor@b",
            "describe",
            "read {c,d}",
            "upload {c,d}",
            "persist cursor@d",
            "read {e}",
            "upload {e}",
            "persist cursor@e",
            "read none",
        ]
    );
    let again: Vec<String> =
        world.uploads[before..].iter().flat_map(|(_, messages)| messages.clone()).collect();
    assert_eq!(again, vec!["c", "d", "e"]);
    assert!(!again.contains(&"a".to_string()));
    assert!(!again.contains(&"b".to_string()));
}

#[test]
fn crashes_at_every_point_lose_nothing_and_resume_at_the_cursor() {
    let records = ["a", "b", "c", "d", "e", "f", "g"];
    for limit in 1..4u32 {
        for first in 0..30usize {
            for second in 0..30usize {
                let mut world = World::new(&records);
                let config = config(limit);
                for cut in [first, second, 200] {
                    let stored = world.cursor_file.clone();
                    let resumed = match &stored {
                        None => 0,
                        Some(cursor) => {
                            (1..=records.len()).find(|p| world.cursor_after(*p) == *cursor).unwrap()
                        }
                    };
                    let before = world.uploads.len();
                    world.calls.clear();
                    world.run_until(&config, |world, _| world.calls.len() == cut);
                    let fresh: Vec<String> = world.uploads[before..]
                        .iter()
                        .flat_map(|(_, messages)| messages.clone())
                        .collect();
                    let expected: Vec<String> = records[resumed..resumed + fresh.len()]
                        .iter()
                        .map(|m| m.to_string())
                        .collect();
                    assert_eq!(fresh, expected);
                    let persisted = match &world.cursor_file {
                        None => 0,
                        Some(cursor) => {
                            (1..=records.len()).find(|p| world.cursor_after(*p) == *cursor).unwrap()
                        }
                    };
                    assert!(resumed <= persisted && persisted <= resumed + fresh.len());
                    for message in &records[..persisted] {
                        assert!(delivered(&world).contains(&message.to_string()));
                    }
                }
                assert_eq!(world.cursor_file, Some("cursor@g".to_string()));
            }
        }
    }
}

#[test]
fn fresh_start_opens_the_journal_at_its_head() {
    let (started, action) = Shipper::start(config(2), None);
    assert_eq!(action, Action::OpenJournal { seek: JournalSeek::Head });
    assert_eq!(started, shipper(2, None, Phase::Opening));
    let (_, action) = Shipper::start(config(2), Some(String::new()));
    assert_eq!(action, Action::OpenJournal { seek: JournalSeek::Head });
}

#[test]
fn fresh_start_reads_the_earliest_record_first() {
    for cursor_file in [None, Some(String::new())] {
        let mut world = World::new(&["a", "b", "c"]);
        world.cursor_file = cursor_file;
        world.position = 2;
        world.run_until(&config(2), |world, _| world.uploads.len() == 1);
        assert_eq!(world.uploads[0].1, vec!["a", "b"]);
    }
}

#[test]
fn start_with_cursor_opens_the_journal_there() {
    let (_, action) = Shipper::start(config(2), Some("s=1;i=2".to_string()));
    assert_eq!(
        action,
        Action::OpenJournal { seek: JournalSeek::Cursor { cursor: "s=1;i=2".to_string() } }
    );
}

#[test]
fn opened_journal_is_followed_by_the_stream_query() {
    let (next, action) = shipper(2, None, Phase::Opening).step(Event::JournalOpened);
    assert_eq!(next, shipper(2, None, Phase::Resolving));
    assert_eq!(
        action,
        Action::DescribeLogStreams {
            request: DescribeLogStreamsRequest {
                log_group_name: "journal".to_string(),
                log_stream_name_prefix: "host-1".to_string(),
            }
        }
    );
}

#[test]
fn found_stream_is_adopted_and_reading_begins() {
    let streams = Some(vec![LogStream {
        log_stream_name: Some("host-1".to_string()),
        upload_sequence_token: Some("t0".to_string()),
    }]);
    let (next, action) =
        shipper(7, None, Phase::Resolving).step(Event::StreamsDescribed { streams });
    assert_eq!(next, shipper(7, Some("t0"), Phase::Polling));
    assert_eq!(action, Action::ReadBatch { limit: 7 });
}

#[test]
fn missing_stream_is_created_and_reading_begins_without_token() {
    for streams in [None, Some(vec![])] {
        let (next, action) =
            shipper(7, None, Phase::Resolving).step(Event::StreamsDescribed { streams });
        assert_eq!(next, shipper(7, None, Phase::Creating));
        assert_eq!(
            action,
            Action::CreateLogStream {
                request: CreateLogStreamRequest {
                    log_group_name: "journal".to_string(),
                    log_stream_name: "host-1".to_string(),
                }
            }
        );
        let (next, action) = next.step(Event::StreamCreated);
        assert_eq!(next, shipper(7, None, Phase::Polling));
        assert_eq!(action, Action::ReadBatch { limit: 7 });
    }
}

#[test]
fn stream_of_another_name_is_left_alone_and_the_configured_one_created() {
    let streams = Some(vec![LogStream {
        log_stream_name: Some("host-10".to_string()),
        upload_sequence_token: Some("T9".to_string()),
    }]);
    let (next, action) =
        shipper(7, None, Phase::Resolving).step(Event::StreamsDescribed { streams });
    assert_eq!(next, shipper(7, None, Phase::Creating));
    assert_eq!(
        action,
        Action::CreateLogStream {
            request: CreateLogStreamRequest {
                log_group_name: "journal".to_string(),
                log_stream_name: "host-1".to_string(),
            }
        }
    );
    let (next, action) = next.step(Event::StreamCreated);
    assert_eq!(next, shipper(7, None, Phase::Polling));
    assert_eq!(action, Action::ReadBatch { limit: 7 });
}

#[test]
fn configured_stream_is_adopted_from_among_streams_of_the_prefix() {
    let streams = Some(vec![
        LogStream {
            log_stream_name: Some("host-10".to_string()),
            upload_sequence_token: Some("T9".to_string()),
        },
        LogStream {
            log_stream_name: Some("host-1".to_string()),
            upload_sequence_token: Some("T1".to_string()),
        },
    ]);
    let (next, action) =
        shipper(7, None, Phase::Resolving).step(Event::StreamsDescribed { streams });
    assert_eq!(next, shipper(7, Some("T1"), Phase::Polling));
    assert_eq!(action, Action::ReadBatch { limit: 7 });
}

#[test]
fn streams_of_other_names_do_not_disturb_a_session() {
    let others = vec![
        LogStream {
            log_stream_name: Some("host-10".to_string()),
            upload_sequence_token: Some("T9".to_string()),
        },
        LogStream { log_stream_name: None, upload_sequence_token: Some("T8".to_string()) },
    ];
    let mut world = World::new(&["a", "b", "c"]);
    world.others = others.clone();
    world.run_until(&config(2), |_, action| matches!(action, Action::Sleep { .. }));
    let tokens: Vec<Option<String>> = world.uploads.iter().map(|(t, _)| t.clone()).collect();
    assert_eq!(tokens, vec![None, Some("token-1".to_string())]);
    assert!(world.calls.contains(&"create".to_string()));

    let mut world = World::new(&["a", "b", "c"]);
    world.others = others;
    world.stream = Some(Some("found".to_string()));
    world.run_until(&config(2), |_, action| matches!(action, Action::Sleep { .. }));
    let tokens: Vec<Option<String>> = world.uploads.iter().map(|(t, _)| t.clone()).collect();
    assert_eq!(tokens, vec![Some("found".to_string()), Some("token-1".to_string())]);
    assert!(!world.calls.contains(&"create".to_string()));
}

#[test]
fn batch_is_uploaded_under_the_present_token() {
    let (next, action) = shipper(2, Some("t1"), Phase::Polling)
        .step(Event::BatchRead { batch: Some(batch(&["a", "b"], "after-b")) });
    assert_eq!(next, shipper(2, Some("t1"), Phase::Uploading { cursor: "after-b".to_string() }));
    assert_eq!(
        action,
        Action::Upload {
            sequence_token: Some("t1".to_string()),
            batch: batch(&["a", "b"], "after-b"),
        }
    );
}

#[test]
fn acknowledged_upload_replaces_the_token_and_writes_the_cursor() {
    let (next, action) =
        shipper(2, Some("t1"), Phase::Uploading { cursor: "after-b".to_string() })
            .step(Event::Uploaded { next_sequence_token: Some("t2".to_string()) });
    assert_eq!(next, shipper(2, Some("t2"), Phase::Persisting));
    assert_eq!(action, Action::PersistCursor { cursor: "after-b".to_string() });

    let (next, _) = shipper(2, Some("t1"), Phase::Uploading { cursor: "c".to_string() })
        .step(Event::Uploaded { next_sequence_token: None });
    assert_eq!(next, shipper(2, None, Phase::Persisting));
}

#[test]
fn written_cursor_is_followed_by_the_next_read() {
    let (next, action) = shipper(2, Some("t2"), Phase::Persisting).step(Event::CursorPersisted);
    assert_eq!(next, shipper(2, Some("t2"), Phase::Polling));
    assert_eq!(action, Action::ReadBatch { limit: 2 });
}

#[test]
fn every_upload_carries_the_token_of_the_acknowledgement_before() {
    let mut world = World::new(&["a", "b", "c", "d", "e", "f"]);
    world.stream = Some(Some("found".to_string()));
    world.run_until(&config(2), |_, action| matches!(action, Action::Sleep { .. }));
    let tokens: Vec<Option<String>> = world.uploads.iter().map(|(t, _)| t.clone()).collect();
    assert_eq!(
        tokens,
        vec![
            Some("found".to_string()),
            Some("token-1".to_string()),
            Some("token-2".to_string()),
        ]
    );
    assert!(!world.calls.contains(&"create".to_string()));
}

#[test]
fn first_upload_to_a_created_stream_carries_no_token() {
    let mut world = World::new(&["a", "b", "c"]);
    world.run_until(&config(2), |_, action| matches!(action, Action::Sleep { .. }));
    let tokens: Vec<Option<String>> = world.uploads.iter().map(|(t, _)| t.clone()).collect();
    assert_eq!(tokens, vec![None, Some("token-1".to_string())]);
}

#[test]
fn failed_upload_writes_no_cursor() {
    let (next, action) =
        shipper(2, Some("t1"), Phase::Uploading { cursor: "after-b".to_string() })
            .step(Event::Failed);
    assert_eq!(next, shipper(2, Some("t1"), Phase::Halted { error: ShipError::Sink }));
    assert_eq!(action, Action::Halt { error: ShipError::Sink });
}

#[test]
fn cursor_is_written_only_right_after_an_acknowledged_upload() {
    let phases = [
        Phase::Opening,
        Phase::Resolving,
        Phase::Creating,
        Phase::Polling,
        Phase::Uploading { cursor: "c".to_string() },
        Phase::Persisting,
        Phase::Idle,
        Phase::Halted { error: ShipError::Sink },
    ];
    let events = [
        Event::JournalOpened,
        Event::StreamsDescribed { streams: None },
        Event::StreamsDescribed {
            streams: Some(vec![LogStream {
                log_stream_name: Some("host-1".to_string()),
                upload_sequence_token: None,
            }]),
        },
        Event::StreamCreated,
        Event::BatchRead { batch: None },
        Event::BatchRead { batch: Some(batch(&["a"], "c")) },
        Event::Uploaded { next_sequence_token: Some("t".to_string()) },
        Event::CursorPersisted,
        Event::Woke,
        Event::Failed,
    ];
    for phase in &phases {
        for event in &events {
            let (_, action) = shipper(2, None, phase.clone()).step(event.clone());
            let writes = matches!(action, Action::PersistCursor { .. });
            let acknowledged = matches!(phase, Phase::Uploading { .. })
                && matches!(event, Event::Uploaded { .. });
            assert_eq!(writes, acknowledged, "{:?} {:?}", phase, event);
        }
    }
}

#[test]
fn empty_read_pauses_without_upload_or_cursor_write() {
    let (next, action) =
        shipper(2, Some("t"), Phase::Polling).step(Event::BatchRead { batch: None });
    assert_eq!(next, shipper(2, Some("t"), Phase::Idle));
    assert_eq!(action, Action::Sleep { millis: 500 });
}

#[test]
fn pause_is_the_configured_one() {
    let mut idle = shipper(2, None, Phase::Polling);
    idle.config.sleep_millis = 1234;
    let (_, action) = idle.step(Event::BatchRead { batch: None });
    assert_eq!(action, Action::Sleep { millis: 1234 });
}

#[test]
fn next_read_comes_only_after_the_pause() {
    let (next, action) = shipper(2, Some("t"), Phase::Idle).step(Event::Woke);
    assert_eq!(next, shipper(2, Some("t"), Phase::Polling));
    assert_eq!(action, Action::ReadBatch { limit: 2 });
    for event in [
        Event::JournalOpened,
        Event::StreamsDescribed { streams: None },
        Event::StreamCreated,
        Event::BatchRead { batch: None },
        Event::BatchRead { batch: Some(batch(&["a"], "c")) },
        Event::Uploaded { next_sequence_token: None },
        Event::CursorPersisted,
        Event::Failed,
    ] {
        let (next, action) = shipper(2, Some("t"), Phase::Idle).step(event);
        assert_eq!(next.phase, Phase::Halted { error: ShipError::Protocol });
        assert_eq!(action, Action::Halt { error: ShipError::Protocol });
    }
}

#[test]
fn failures_are_named_after_what_failed() {
    let cases = [
        (Phase::Opening, ShipError::Journal),
        (Phase::Polling, ShipError::Journal),
        (Phase::Resolving, ShipError::Sink),
        (Phase::Creating, ShipError::Sink),
        (Phase::Uploading { cursor: "c".to_string() }, ShipError::Sink),
        (Phase::Persisting, ShipError::CursorStore),
        (Phase::Idle, ShipError::Protocol),
    ];
    for (phase, error) in cases {
        assert_eq!(phase.failure(), error);
        let (next, action) = shipper(2, Some("t"), phase).step(Event::Failed);
        assert_eq!(next, shipper(2, Some("t"), Phase::Halted { error }));
        assert_eq!(action, Action::Halt { error });
    }
}

#[test]
fn stopped_shipper_stays_stopped() {
    for error in
        [ShipError::Journal, ShipError::Sink, ShipError::CursorStore, ShipError::Protocol]
    {
        for event in [
            Event::JournalOpened,
            Event::BatchRead { batch: Some(batch(&["a"], "c")) },
            Event::Uploaded { next_sequence_token: None },
            Event::CursorPersisted,
            Event::Woke,
            Event::Failed,
        ] {
            let (next, action) = shipper(2, Some("t"), Phase::Halted { error }).step(event);
            assert_eq!(next, shipper(2, Some("t"), Phase::Halted { error }));
            assert_eq!(action, Action::Halt { error });
        }
    }
}

#[test]
fn report_that_answers_nothing_stops_the_shipper() {
    let (next, action) = shipper(2, None, Phase::Opening).step(Event::Woke);
    assert_eq!(next, shipper(2, None, Phase::Halted { error: ShipError::Protocol }));
    assert_eq!(action, Action::Halt { error: ShipError::Protocol });
    let (_, action) = shipper(2, None, Phase::Polling)
        .step(Event::Uploaded { next_sequence_token: Some("t".to_string()) });
    assert_eq!(action, Action::Halt { error: ShipError::Protocol });
    let (_, action) = shipper(2, None, Phase::Persisting)
        .step(Event::BatchRead { batch: Some(batch(&["a"], "c")) });
    assert_eq!(action, Action::Halt { error: ShipError::Protocol });
}

#[test]
fn batch_outside_the_configured_size_stops_the_shipper() {
    let (next, action) = shipper(2, None, Phase::Polling)
        .step(Event::BatchRead { batch: Some(batch(&["a", "b", "c"], "c")) });
    assert_eq!(next.phase, Phase::Halted { error: ShipError::Protocol });
    assert_eq!(action, Action::Halt { error: ShipError::Protocol });
    let (_, action) =
        shipper(2, None, Phase::Polling).step(Event::BatchRead { batch: Some(batch(&[], "c")) });
    assert_eq!(action, Action::Halt { error: ShipError::Protocol });
}

#[test]
fn unknown_cursor_fails_the_journal() {
    let mut world = World::new(&["a", "b"]);
    world.cursor_file = Some("no such cursor".to_string());
    let config = config(2);
    let action = world.run_until(&config, |_, action| matches!(action, Action::Halt { .. }));
    assert_eq!(action, Action::Halt { error: ShipError::Journal });
    assert_eq!(world.calls, vec!["open@no such cursor"]);
    assert!(world.uploads.is_empty());
}
