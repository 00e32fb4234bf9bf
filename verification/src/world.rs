//! The shipper in a world that does what it is told: a journal, a cursor
//! file and an ingestion service, modelled, and what holds of every session
//! of the shipper in it, wherever the session is cut off.

use crate::config::ConfigModel;
use crate::cursor::{stored_cursor, SeekModel};
use crate::reader::JournalModel;
use crate::record::BatchModel;
use crate::ship::{ship_next, ship_start, ActionModel, EventModel, PhaseModel, ShipperModel};
use crate::sink::{
    describe_request_of, first_named, lemma_first_named_unique, resolution_of, ResolutionModel,
    StreamModel,
};
use vstd::prelude::*;

verus! {

impl JournalModel {
    /// Cursors are not empty, and no two positions share one.
    pub open spec fn named(self) -> bool {
        &&& forall|i: int| 0 <= i < self.cursors.len() ==> (#[trigger] self.cursors[i]).len() > 0
        &&& forall|i: int, j: int|
            0 <= i < j < self.cursors.len() ==> #[trigger] self.cursors[i]
                != #[trigger] self.cursors[j]
    }

    /// Whether `cursor` names a position of this journal.
    pub open spec fn names(self, cursor: Seq<char>) -> bool {
        exists|i: int| 0 <= i < self.cursors.len() && #[trigger] self.cursors[i] == cursor
    }

    /// The position that `cursor` names: the one right after the record
    /// whose cursor it is.
    pub open spec fn position_named(self, cursor: Seq<char>) -> int {
        (choose|i: int| 0 <= i < self.cursors.len() && #[trigger] self.cursors[i] == cursor) + 1
    }
}

/// The position right after record `i` is the one that the record's cursor
/// names.
pub proof fn lemma_position_named(journal: JournalModel, i: int)
    requires
        journal.named(),
        0 <= i < journal.cursors.len(),
    ensures
        journal.names(journal.cursors[i]),
        journal.position_named(journal.cursors[i]) == i + 1,
{
    let cursor = journal.cursors[i];
    let found = choose|k: int| 0 <= k < journal.cursors.len() && #[trigger] journal.cursors[k]
        == cursor;
    assert(journal.cursors[found] == cursor);
    if found != i {
        if found < i {
            assert(journal.cursors[found] != journal.cursors[i]);
        } else {
            assert(journal.cursors[i] != journal.cursors[found]);
        }
    }
}

/// The records of some batches, in order.
pub open spec fn records_of(batches: Seq<BatchModel>) -> Seq<Map<Seq<char>, Seq<char>>>
    decreases batches.len(),
{
    if batches.len() == 0 {
        Seq::empty()
    } else {
        records_of(batches.drop_last()) + batches.last().logs
    }
}

/// Everything that outlasts a session, and where the open journal stands.
pub struct World {
    /// The records that the journal comes to hold in the end.
    pub journal: JournalModel,
    /// How many of them are written so far.
    pub written: int,
    /// The position of the open journal.
    pub position: int,
    /// The whole text of the cursor file, or `None` while there is no file.
    pub cursor_file: Option<Seq<char>>,
    /// The configured stream at the service: `None` while there is none,
    /// else the token that the next upload to it has to carry.
    pub stream: Option<Option<Seq<char>>>,
    /// The streams of other names that the service lists beside it.
    pub others: Seq<StreamModel>,
    /// The batches that the service has taken, oldest first.
    pub uploaded: Seq<BatchModel>,
    /// The token that the service names for the upload after so many batches
    /// that it held before.
    pub tokens: spec_fn(int) -> Option<Seq<char>>,
}

impl World {
    /// The journal is in order, and the cursor file holds nothing, or the
    /// cursor of a record that is written.
    pub open spec fn wf(self) -> bool {
        &&& self.journal.wf()
        &&& self.journal.named()
        &&& 0 <= self.position <= self.written <= self.journal.entries.len()
        &&& stored_cursor(self.cursor_file) matches Some(cursor) ==> self.reaches(cursor)
    }

    /// None of the other streams bears the name `name`.
    pub open spec fn apart(self, name: Seq<char>) -> bool {
        forall|i: int|
            0 <= i < self.others.len() ==> (#[trigger] self.others[i]).log_stream_name != Some(
                name,
            )
    }

    /// What the service lists for a query by the prefix `name`: the streams
    /// of other names, then the stream of that name if there is one.
    pub open spec fn listing(self, name: Seq<char>) -> Seq<StreamModel> {
        match self.stream {
            Some(token) => self.others.push(
                StreamModel { log_stream_name: Some(name), upload_sequence_token: token },
            ),
            None => self.others,
        }
    }

    /// Whether `cursor` names a position in what is written so far.
    pub open spec fn reaches(self, cursor: Seq<char>) -> bool {
        self.journal.names(cursor) && self.journal.position_named(cursor) <= self.written
    }

    /// The journal as it is now: the records written so far.
    pub open spec fn present(self) -> JournalModel {
        JournalModel {
            entries: self.journal.entries.take(self.written),
            cursors: self.journal.cursors.take(self.written),
        }
    }

    /// This world once `more` records have been written, as far as the
    /// journal comes to hold so many.
    pub open spec fn grown(self, more: nat) -> World {
        World {
            written: if self.written + more <= self.journal.entries.len() {
                self.written + more
            } else {
                self.journal.entries.len() as int
            },
            ..self
        }
    }

    /// The position that the cursor file stands for: the head where it holds
    /// no cursor.
    pub open spec fn persisted(self) -> int {
        match stored_cursor(self.cursor_file) {
            Some(cursor) => self.journal.position_named(cursor),
            None => 0,
        }
    }

    /// Every record before the persisted position is among those that the
    /// service has taken.
    pub open spec fn delivered_before_cursor(self) -> bool {
        forall|i: int|
            0 <= i < self.persisted() ==> records_of(self.uploaded).contains(
                #[trigger] self.journal.entries[i],
            )
    }

    /// What the world makes of an action, and what it reports.
    ///
    /// The journal opens at the head or at the position that the cursor
    /// names, and fails on a cursor that names none in what is written. The
    /// service lists the streams that it has, creates the configured one if
    /// there is none, and takes an upload that carries the stream's token,
    /// naming the next. A read takes what is written and pending, up to the limit. The
    /// cursor file takes the cursor. A pause ends.
    pub open spec fn answer(self, action: ActionModel) -> (World, EventModel) {
        match action {
            ActionModel::OpenJournal { seek: SeekModel::Head } => (
                World { position: 0, ..self },
                EventModel::JournalOpened,
            ),
            ActionModel::OpenJournal { seek: SeekModel::Cursor { cursor } } => {
                if self.reaches(cursor) {
                    (
                        World { position: self.journal.position_named(cursor), ..self },
                        EventModel::JournalOpened,
                    )
                } else {
                    (self, EventModel::Failed)
                }
            },
            ActionModel::DescribeLogStreams { request } => (
                self,
                EventModel::StreamsDescribed {
                    streams: Some(self.listing(request.log_stream_name_prefix)),
                },
            ),
            ActionModel::CreateLogStream { .. } => {
                if self.stream is None {
                    (World { stream: Some(None), ..self }, EventModel::StreamCreated)
                } else {
                    (self, EventModel::Failed)
                }
            },
            ActionModel::ReadBatch { limit } => (
                World { position: self.present().position_after(self.position, limit), ..self },
                EventModel::BatchRead { batch: self.present().read_batch(self.position, limit) },
            ),
            ActionModel::Upload { sequence_token, batch } => {
                if self.stream == Some(sequence_token) {
                    let next = (self.tokens)(self.uploaded.len() as int);
                    (
                        World { stream: Some(next), uploaded: self.uploaded.push(batch), ..self },
                        EventModel::Uploaded { next_sequence_token: next },
                    )
                } else {
                    (self, EventModel::Failed)
                }
            },
            ActionModel::PersistCursor { cursor } => (
                World { cursor_file: Some(cursor), ..self },
                EventModel::CursorPersisted,
            ),
            ActionModel::Sleep { .. } => (self, EventModel::Woke),
            ActionModel::Halt { .. } => (self, EventModel::Failed),
        }
    }
}

/// A shipper at work in a world.
pub struct Session {
    pub world: World,
    pub shipper: ShipperModel,
    /// The action that the shipper handed out last.
    pub action: ActionModel,
}

/// The session that begins in `world` and is cut off after `steps` actions
/// were carried out. Before the action number `k` is carried out,
/// `arrivals(k)` more records are written to the journal.
pub open spec fn session(
    world: World,
    config: ConfigModel,
    arrivals: spec_fn(nat) -> nat,
    steps: nat,
) -> Session
    decreases steps,
{
    if steps == 0 {
        let (shipper, action) = ship_start(config, world.cursor_file);
        Session { world, shipper, action }
    } else {
        let before = session(world, config, arrivals, (steps - 1) as nat);
        let (world, event) = before.world.grown(arrivals((steps - 1) as nat)).answer(
            before.action,
        );
        let (shipper, action) = ship_next(before.shipper, event);
        Session { world, shipper, action }
    }
}

/// How long one session lasts and what is written to the journal meanwhile.
pub struct Span {
    pub steps: nat,
    pub arrivals: spec_fn(nat) -> nat,
}

/// The world after the given sessions, one after the other, each cut off and
/// followed by a fresh start.
pub open spec fn life(world: World, config: ConfigModel, sessions: Seq<Span>) -> World
    decreases sessions.len(),
{
    if sessions.len() == 0 {
        world
    } else {
        session(
            life(world, config, sessions.drop_last()),
            config,
            sessions.last().arrivals,
            sessions.last().steps,
        ).world
    }
}

/// What holds of a session at every moment, `start` being the world that it
/// began in.
pub open spec fn session_holds(start: World, config: ConfigModel, now: Session) -> bool {
    let journal = start.journal;
    let resumed = start.persisted();
    let fresh = now.world.uploaded.skip(start.uploaded.len() as int);
    let sent = resumed + records_of(fresh).len();
    let limit = config.batch_size;
    &&& now.world.wf()
    &&& now.world.journal == journal
    &&& now.world.tokens == start.tokens
    &&& now.world.others == start.others
    &&& now.world.apart(config.log_stream_name)
    &&& now.world.written >= start.written
    &&& now.shipper.config == config
    &&& start.uploaded.len() <= now.world.uploaded.len()
    &&& now.world.uploaded.take(start.uploaded.len() as int) == start.uploaded
    &&& 0 <= resumed <= sent <= now.world.written
    &&& records_of(fresh) == journal.entries.subrange(resumed, sent)
    &&& resumed <= now.world.persisted() <= sent
    &&& match now.shipper.phase {
        PhaseModel::Opening => {
            &&& now.action == ship_start(config, start.cursor_file).1
            &&& now.world.cursor_file == start.cursor_file
            &&& now.shipper.sequence_token is None
            &&& sent == resumed
        },
        PhaseModel::Resolving => {
            &&& now.action == (ActionModel::DescribeLogStreams {
                request: describe_request_of(config),
            })
            &&& now.shipper.sequence_token is None
            &&& now.world.position == resumed
            &&& now.world.persisted() == resumed
            &&& sent == resumed
        },
        PhaseModel::Creating => {
            &&& now.action is CreateLogStream
            &&& now.world.stream is None
            &&& now.world.position == resumed
            &&& now.world.persisted() == resumed
            &&& sent == resumed
        },
        PhaseModel::Polling => {
            &&& now.action == (ActionModel::ReadBatch { limit })
            &&& now.world.stream == Some(now.shipper.sequence_token)
            &&& now.world.position == sent
            &&& now.world.persisted() == sent
        },
        PhaseModel::Idle => {
            &&& now.action is Sleep
            &&& now.world.stream == Some(now.shipper.sequence_token)
            &&& now.world.position == sent
            &&& now.world.persisted() == sent
        },
        PhaseModel::Uploading { cursor } => {
            &&& now.action matches ActionModel::Upload { sequence_token, batch }
            &&& sequence_token == now.shipper.sequence_token
            &&& now.world.stream == Some(sequence_token)
            &&& sent < now.world.position
            &&& batch.logs == journal.entries.subrange(sent, now.world.position)
            &&& batch.cursor == journal.cursors[now.world.position - 1]
            &&& batch.cursor == cursor
            &&& now.world.persisted() == sent
        },
        PhaseModel::Persisting => {
            &&& now.action matches ActionModel::PersistCursor { cursor }
            &&& now.world.stream == Some(now.shipper.sequence_token)
            &&& sent > resumed
            &&& cursor == journal.cursors[sent - 1]
            &&& now.world.position == sent
        },
        PhaseModel::Halted { .. } => false,
    }
}

/// The records of some batches and one more are the records of the batches,
/// then those of the one.
proof fn lemma_records_push(batches: Seq<BatchModel>, batch: BatchModel)
    ensures
        records_of(batches.push(batch)) == records_of(batches) + batch.logs,
{
    assert(batches.push(batch).drop_last() =~= batches);
}

/// The records of batches that follow one another hold the records of the
/// first of them.
proof fn lemma_records_append(first: Seq<BatchModel>, then: Seq<BatchModel>)
    ensures
        records_of(first + then) == records_of(first) + records_of(then),
    decreases then.len(),
{
    if then.len() == 0 {
        assert(first + then =~= first);
        assert(records_of(first) + records_of(then) =~= records_of(first));
    } else {
        lemma_records_append(first, then.drop_last());
        assert((first + then).drop_last() =~= first + then.drop_last());
        assert((first + then).last() == then.last());
        assert(records_of(first) + (records_of(then.drop_last()) + then.last().logs) =~= (
        records_of(first) + records_of(then.drop_last())) + then.last().logs);
    }
}

/// The cursor that a world in order has stored names a position in what is
/// written.
proof fn lemma_persisted_in_range(world: World)
    requires
        world.wf(),
    ensures
        0 <= world.persisted() <= world.written,
{
    match stored_cursor(world.cursor_file) {
        Some(cursor) => {
            let found = choose|i: int|
                0 <= i < world.journal.cursors.len() && #[trigger] world.journal.cursors[i]
                    == cursor;
            assert(0 <= found < world.journal.cursors.len());
        },
        None => {},
    }
}

/// Among streams of other names, the configured stream is found with its
/// token if it is there, and is to be created if it is not.
proof fn lemma_resolution_in_world(world: World, name: Seq<char>)
    requires
        world.apart(name),
    ensures
        resolution_of(name, Some(world.listing(name))) == (match world.stream {
            Some(token) => ResolutionModel::Adopt { sequence_token: token },
            None => ResolutionModel::Create,
        }),
{
    let listed = world.listing(name);
    match world.stream {
        Some(token) => {
            let at = world.others.len() as int;
            assert forall|j: int| 0 <= j < at implies (#[trigger] listed[j]).log_stream_name
                != Some(name) by {
                assert(listed[j] == world.others[j]);
            }
            assert(first_named(listed, name, at));
            lemma_first_named_unique(
                listed,
                name,
                at,
                choose|i: int| first_named(listed, name, i),
            );
        },
        None => {
            assert forall|i: int| !first_named(listed, name, i) by {
                if 0 <= i < listed.len() {
                    assert(world.others[i].log_stream_name != Some(name));
                }
            }
        },
    }
}

/// A step of a session, with whatever is written meanwhile, keeps what holds
/// of it.
proof fn lemma_session_step(start: World, config: ConfigModel, before: Session, more: nat)
    requires
        start.wf(),
        session_holds(start, config, before),
    ensures
        ({
            let (world, event) = before.world.grown(more).answer(before.action);
            let (shipper, action) = ship_next(before.shipper, event);
            session_holds(start, config, Session { world, shipper, action })
        }),
{
    let journal = start.journal;
    let resumed = start.persisted();
    let kept = start.uploaded.len() as int;
    let fresh = before.world.uploaded.skip(kept);
    let sent = resumed + records_of(fresh).len();
    let limit = config.batch_size;
    let grown = before.world.grown(more);
    assert(grown.wf());
    assert(grown.persisted() == before.world.persisted());
    let (world, event) = grown.answer(before.action);
    let (shipper, action) = ship_next(before.shipper, event);
    match before.shipper.phase {
        PhaseModel::Opening => {
            lemma_persisted_in_range(start);
        },
        PhaseModel::Resolving => {
            lemma_resolution_in_world(grown, config.log_stream_name);
        },
        PhaseModel::Polling => {
            let present = grown.present();
            let taken = present.batch_len(sent, limit);
            if taken > 0 {
                assert(present.entries.subrange(sent, sent + taken) =~= journal.entries.subrange(
                    sent,
                    sent + taken,
                ));
                assert(present.cursors[sent + taken - 1] == journal.cursors[sent + taken - 1]);
            }
        },
        PhaseModel::Uploading { cursor } => {
            let batch = before.action->Upload_batch;
            let all = before.world.uploaded.push(batch);
            assert(all.skip(kept) =~= fresh.push(batch));
            lemma_records_push(fresh, batch);
            assert(all.take(kept) =~= before.world.uploaded.take(kept));
            assert(journal.entries.subrange(resumed, sent) + journal.entries.subrange(
                sent,
                before.world.position,
            ) =~= journal.entries.subrange(resumed, before.world.position));
        },
        PhaseModel::Persisting => {
            lemma_position_named(journal, sent - 1);
        },
        _ => {},
    }
}

/// What holds of a session holds of it from its beginning to wherever it is
/// cut off.
proof fn lemma_session_holds(
    start: World,
    config: ConfigModel,
    arrivals: spec_fn(nat) -> nat,
    steps: nat,
)
    requires
        start.wf(),
        start.apart(config.log_stream_name),
    ensures
        session_holds(start, config, session(start, config, arrivals, steps)),
    decreases steps,
{
    if steps == 0 {
        let fresh = start.uploaded.skip(start.uploaded.len() as int);
        assert(fresh =~= Seq::empty());
        assert(start.uploaded.take(start.uploaded.len() as int) =~= start.uploaded);
        let resumed = start.persisted();
        lemma_persisted_in_range(start);
        assert(records_of(fresh) =~= start.journal.entries.subrange(resumed, resumed));
    } else {
        lemma_session_holds(start, config, arrivals, (steps - 1) as nat);
        lemma_session_step(
            start,
            config,
            session(start, config, arrivals, (steps - 1) as nat),
            arrivals((steps - 1) as nat),
        );
    }
}

/// A restart delivers again only what lies at or after the stored cursor:
/// for every world in order and every session in it, wherever it is cut off
/// and whatever is written to the journal meanwhile, the batches that the
/// service took during the session hold, put together, exactly the journal's
/// records from the position that the cursor file stood for at the start,
/// one after the other with none left out and none twice. No record before
/// that position is delivered again. Without a cursor file, or with an empty
/// one, that position is the head.
///
/// The cursor file never runs ahead of what the service has taken: at the
/// end it stands for a position between the one it stood for at the start
/// and the end of the records taken. The session leaves the service's
/// earlier batches as they were, leaves the world in order, and has not
/// stopped. Streams of other names that the service lists beside the
/// configured one change nothing of this.
pub proof fn theorem_session_resumes_at_cursor(
    world: World,
    config: ConfigModel,
    arrivals: spec_fn(nat) -> nat,
    steps: nat,
)
    requires
        world.wf(),
        world.apart(config.log_stream_name),
    ensures
        ({
            let end = session(world, config, arrivals, steps);
            let resumed = world.persisted();
            let fresh = end.world.uploaded.skip(world.uploaded.len() as int);
            let sent = resumed + records_of(fresh).len();
            &&& end.world.wf()
            &&& end.world.apart(config.log_stream_name)
            &&& end.world.journal == world.journal
            &&& end.world.uploaded == world.uploaded + fresh
            &&& 0 <= resumed <= sent <= end.world.written
            &&& records_of(fresh) == world.journal.entries.subrange(resumed, sent)
            &&& resumed <= end.world.persisted() <= sent
            &&& stored_cursor(world.cursor_file) is None ==> resumed == 0
            &&& !(end.shipper.phase is Halted)
        }),
{
    lemma_session_holds(world, config, arrivals, steps);
    let end = session(world, config, arrivals, steps);
    let kept = world.uploaded.len() as int;
    assert(end.world.uploaded =~= end.world.uploaded.take(kept) + end.world.uploaded.skip(kept));
}

/// A session loses nothing: if every record before the stored cursor was
/// among those that the service had taken when the session began, the same
/// holds wherever the session is cut off.
pub proof fn theorem_session_keeps_delivered(
    world: World,
    config: ConfigModel,
    arrivals: spec_fn(nat) -> nat,
    steps: nat,
)
    requires
        world.wf(),
        world.apart(config.log_stream_name),
        world.delivered_before_cursor(),
    ensures
        session(world, config, arrivals, steps).world.wf(),
        session(world, config, arrivals, steps).world.apart(config.log_stream_name),
        session(world, config, arrivals, steps).world.delivered_before_cursor(),
{
    theorem_session_resumes_at_cursor(world, config, arrivals, steps);
    let end = session(world, config, arrivals, steps).world;
    let resumed = world.persisted();
    let fresh = end.uploaded.skip(world.uploaded.len() as int);
    lemma_records_append(world.uploaded, fresh);
    let before = records_of(world.uploaded);
    let during = records_of(fresh);
    assert forall|i: int| 0 <= i < end.persisted() implies records_of(end.uploaded).contains(
        #[trigger] end.journal.entries[i],
    ) by {
        if i < resumed {
            assert(before.contains(world.journal.entries[i]));
            let k = choose|k: int| 0 <= k < before.len() && before[k] == world.journal.entries[i];
            assert((before + during)[k] == world.journal.entries[i]);
        } else {
            assert(during[i - resumed] == world.journal.entries[i]);
            assert((before + during)[before.len() + (i - resumed)] == world.journal.entries[i]);
        }
    }
}

/// Nothing is lost over any number of restarts: in a world in order whose
/// cursor file holds no cursor, after any sessions, each cut off anywhere,
/// every record before the position that the cursor file stands for is among
/// those that the service has taken.
pub proof fn theorem_life_keeps_delivered(world: World, config: ConfigModel, sessions: Seq<Span>)
    requires
        world.wf(),
        world.apart(config.log_stream_name),
        stored_cursor(world.cursor_file) is None,
    ensures
        life(world, config, sessions).wf(),
        life(world, config, sessions).apart(config.log_stream_name),
        life(world, config, sessions).delivered_before_cursor(),
    decreases sessions.len(),
{
    if sessions.len() > 0 {
        theorem_life_keeps_delivered(world, config, sessions.drop_last());
        theorem_session_keeps_delivered(
            life(world, config, sessions.drop_last()),
            config,
            sessions.last().arrivals,
            sessions.last().steps,
        );
    }
}

} // verus!
