//! Histories of one shipper: what it hands out over any sequence of reports,
//! and what holds of every such history.

use crate::config::ConfigModel;
use crate::cursor::SeekModel;
use crate::ship::{ship_next, ship_start, ActionModel, EventModel, PhaseModel, ShipperModel};
use crate::sink::{initial_token, resolution_of};
use vstd::prelude::*;

verus! {

/// The shipper after `events`, and the actions that it handed out: the one
/// that it began with, then one for each report. So `actions[i]` is the
/// action that is open when `events[i]` is reported, and `actions[i + 1]` is
/// what the shipper does about that report.
pub open spec fn ship_run(
    config: ConfigModel,
    cursor_file: Option<Seq<char>>,
    events: Seq<EventModel>,
) -> (ShipperModel, Seq<ActionModel>)
    decreases events.len(),
{
    if events.len() == 0 {
        let (shipper, action) = ship_start(config, cursor_file);
        (shipper, seq![action])
    } else {
        let (shipper, actions) = ship_run(config, cursor_file, events.drop_last());
        let (shipper, action) = ship_next(shipper, events.last());
        (shipper, actions.push(action))
    }
}

/// The token that the service named last in `events` for the stream called
/// `name`: in the acknowledgement of an upload; before any upload, in its
/// description of that stream, and none where the stream was just created or
/// nothing was described yet.
pub open spec fn named_token(name: Seq<char>, events: Seq<EventModel>) -> Option<Seq<char>>
    decreases events.len(),
{
    if events.len() == 0 {
        None
    } else {
        match events.last() {
            EventModel::StreamsDescribed { streams } => initial_token(
                resolution_of(name, streams),
            ),
            EventModel::StreamCreated => None,
            EventModel::Uploaded { next_sequence_token } => next_sequence_token,
            _ => named_token(name, events.drop_last()),
        }
    }
}

/// Whether `action` is the action that is open in the phase of `shipper`.
pub open spec fn awaits(shipper: ShipperModel, action: ActionModel) -> bool {
    match shipper.phase {
        PhaseModel::Opening => action is OpenJournal,
        PhaseModel::Resolving => action is DescribeLogStreams,
        PhaseModel::Creating => action is CreateLogStream,
        PhaseModel::Polling => action == (ActionModel::ReadBatch {
            limit: shipper.config.batch_size,
        }),
        PhaseModel::Uploading { cursor } => {
            &&& action matches ActionModel::Upload { sequence_token, batch }
            &&& sequence_token == shipper.sequence_token
            &&& batch.cursor == cursor
            &&& 0 < batch.logs.len() <= shipper.config.batch_size
        },
        PhaseModel::Persisting => action is PersistCursor,
        PhaseModel::Idle => action == (ActionModel::Sleep { millis: shipper.config.sleep_millis }),
        PhaseModel::Halted { error } => action == (ActionModel::Halt { error }),
    }
}

/// A history has one action more than it has reports, and the actions up to
/// a report are those of the history that ends before it.
pub proof fn lemma_run_prefix(
    config: ConfigModel,
    cursor_file: Option<Seq<char>>,
    events: Seq<EventModel>,
    i: int,
)
    requires
        0 <= i <= events.len(),
    ensures
        ship_run(config, cursor_file, events).1.len() == events.len() + 1,
        ship_run(config, cursor_file, events.take(i)).1 == ship_run(
            config,
            cursor_file,
            events,
        ).1.take(i + 1),
    decreases events.len(),
{
    if events.len() == 0 {
        assert(events.take(i) =~= events);
        assert(ship_run(config, cursor_file, events).1.take(1) =~= ship_run(
            config,
            cursor_file,
            events,
        ).1);
    } else {
        let shorter = events.drop_last();
        lemma_run_prefix(config, cursor_file, shorter, shorter.len() as int);
        let whole = ship_run(config, cursor_file, events).1;
        if i == events.len() {
            assert(events.take(i) =~= events);
            assert(whole.take(i + 1) =~= whole);
        } else {
            lemma_run_prefix(config, cursor_file, shorter, i);
            assert(events.take(i) =~= shorter.take(i));
            assert(whole.take(i + 1) =~= ship_run(config, cursor_file, shorter).1.take(i + 1));
        }
    }
}

/// What a history does about its report number `i` is one step of the
/// shipper that the reports before it have left.
pub proof fn lemma_run_step(
    config: ConfigModel,
    cursor_file: Option<Seq<char>>,
    events: Seq<EventModel>,
    i: int,
)
    requires
        0 <= i < events.len(),
    ensures
        ship_run(config, cursor_file, events).1.len() == events.len() + 1,
        ship_run(config, cursor_file, events).1[i] == ship_run(
            config,
            cursor_file,
            events.take(i),
        ).1.last(),
        ship_run(config, cursor_file, events).1[i + 1] == ship_next(
            ship_run(config, cursor_file, events.take(i)).0,
            events[i],
        ).1,
{
    lemma_run_prefix(config, cursor_file, events, i);
    lemma_run_prefix(config, cursor_file, events, i + 1);
    let upto = events.take(i + 1);
    assert(upto.drop_last() =~= events.take(i));
    assert(upto.last() == events[i]);
    lemma_run_prefix(config, cursor_file, events.take(i), i);
    let whole = ship_run(config, cursor_file, events).1;
    let before = ship_run(config, cursor_file, events.take(i));
    assert(ship_run(config, cursor_file, upto).1 == before.1.push(
        ship_next(before.0, events[i]).1,
    ));
    assert(whole.take(i + 2)[i + 1] == whole[i + 1]);
    assert(whole.take(i + 1)[i] == whole[i]);
}

/// After any reports, the action handed out last is the one that is open in
/// the shipper's phase, the configuration is the one it began with, and a
/// shipper that has not stopped holds the token that the service named last.
pub proof fn lemma_run_invariant(
    config: ConfigModel,
    cursor_file: Option<Seq<char>>,
    events: Seq<EventModel>,
)
    ensures
        ({
            let (shipper, actions) = ship_run(config, cursor_file, events);
            &&& actions.len() == events.len() + 1
            &&& awaits(shipper, actions.last())
            &&& shipper.config == config
            &&& !(shipper.phase is Halted) ==> shipper.sequence_token == named_token(
                config.log_stream_name,
                events,
            )
            &&& shipper.phase is Opening || shipper.phase is Resolving || shipper.phase is Creating
                ==> shipper.sequence_token is None
        }),
    decreases events.len(),
{
    if events.len() > 0 {
        lemma_run_invariant(config, cursor_file, events.drop_last());
    }
}

/// The cursor is written only after the upload is acknowledged: in every
/// history, an order to write a cursor is the shipper's answer to the
/// service's acknowledgement of an upload, the upload was the action open at
/// that moment, and the cursor written is the cursor of the batch that this
/// upload carried.
pub proof fn theorem_cursor_written_after_acknowledgement(
    config: ConfigModel,
    cursor_file: Option<Seq<char>>,
    events: Seq<EventModel>,
    i: int,
)
    requires
        0 <= i < events.len(),
        ship_run(config, cursor_file, events).1[i + 1] is PersistCursor,
    ensures
        events[i] is Uploaded,
        ship_run(config, cursor_file, events).1[i] matches ActionModel::Upload { batch, .. }
            && ship_run(config, cursor_file, events).1[i + 1] == (ActionModel::PersistCursor {
            cursor: batch.cursor,
        }),
{
    lemma_run_step(config, cursor_file, events, i);
    lemma_run_invariant(config, cursor_file, events.take(i));
}

/// An acknowledged upload is followed by the writing of its cursor and by
/// nothing else: in every history, when the service acknowledges the upload
/// that is open, the shipper's answer is the order to write the cursor of
/// the batch uploaded.
pub proof fn theorem_acknowledgement_writes_cursor(
    config: ConfigModel,
    cursor_file: Option<Seq<char>>,
    events: Seq<EventModel>,
    i: int,
)
    requires
        0 <= i < events.len(),
        events[i] is Uploaded,
        ship_run(config, cursor_file, events).1[i] is Upload,
    ensures
        ship_run(config, cursor_file, events).1[i] matches ActionModel::Upload { batch, .. }
            && ship_run(config, cursor_file, events).1[i + 1] == (ActionModel::PersistCursor {
            cursor: batch.cursor,
        }),
{
    lemma_run_step(config, cursor_file, events, i);
    lemma_run_invariant(config, cursor_file, events.take(i));
}

/// Every upload carries the token that the service named last: in every
/// history, the token of an upload is the one from the acknowledgement of
/// the upload before it, and for the first upload the one that the
/// configured stream was found with, none where the stream was created or
/// had no upload yet.
pub proof fn theorem_upload_carries_named_token(
    config: ConfigModel,
    cursor_file: Option<Seq<char>>,
    events: Seq<EventModel>,
    i: int,
)
    requires
        0 <= i < events.len(),
        ship_run(config, cursor_file, events).1[i + 1] is Upload,
    ensures
        ship_run(config, cursor_file, events).1[i + 1]->Upload_sequence_token == named_token(
            config.log_stream_name,
            events.take(i),
        ),
        events[i] matches EventModel::BatchRead { batch: Some(batch) } && ship_run(
            config,
            cursor_file,
            events,
        ).1[i + 1]->Upload_batch == batch,
{
    lemma_run_step(config, cursor_file, events, i);
    lemma_run_invariant(config, cursor_file, events.take(i));
}

/// An empty read is followed by a pause and by nothing else: in every
/// history, when the journal had nothing for the read that is open, the
/// shipper's answer is a pause of the configured length, and neither an
/// upload nor a cursor is ordered.
pub proof fn theorem_empty_read_pauses(
    config: ConfigModel,
    cursor_file: Option<Seq<char>>,
    events: Seq<EventModel>,
    i: int,
)
    requires
        0 <= i < events.len(),
        events[i] == (EventModel::BatchRead { batch: None }),
        ship_run(config, cursor_file, events).1[i] is ReadBatch,
    ensures
        ship_run(config, cursor_file, events).1[i + 1] == (ActionModel::Sleep {
            millis: config.sleep_millis,
        }),
{
    lemma_run_step(config, cursor_file, events, i);
    lemma_run_invariant(config, cursor_file, events.take(i));
}

/// The journal is not read again before the pause is over: in every history,
/// while a pause is open the shipper orders the next read if and only if the
/// end of the pause is reported, and whatever else is reported stops it.
pub proof fn theorem_pause_precedes_next_read(
    config: ConfigModel,
    cursor_file: Option<Seq<char>>,
    events: Seq<EventModel>,
    i: int,
)
    requires
        0 <= i < events.len(),
        ship_run(config, cursor_file, events).1[i] is Sleep,
    ensures
        events[i] is Woke ==> ship_run(config, cursor_file, events).1[i + 1] == (
        ActionModel::ReadBatch { limit: config.batch_size }),
        !(events[i] is Woke) ==> ship_run(config, cursor_file, events).1[i + 1] is Halt,
{
    lemma_run_step(config, cursor_file, events, i);
    lemma_run_invariant(config, cursor_file, events.take(i));
}

/// Without a stored cursor the journal is read from its head: a shipper that
/// begins with no cursor file, or with an empty one, begins by having the
/// journal opened at the earliest record, whatever is reported afterwards.
pub proof fn theorem_fresh_start_opens_at_head(
    config: ConfigModel,
    cursor_file: Option<Seq<char>>,
    events: Seq<EventModel>,
)
    requires
        cursor_file is None || cursor_file->0.len() == 0,
    ensures
        ship_run(config, cursor_file, events).1[0] == (ActionModel::OpenJournal {
            seek: SeekModel::Head,
        }),
{
    lemma_run_prefix(config, cursor_file, events, 0);
    let whole = ship_run(config, cursor_file, events).1;
    assert(events.take(0).len() == 0);
    assert(ship_run(config, cursor_file, events.take(0)).1 == seq![
        ship_start(config, cursor_file).1,
    ]);
    assert(whole.take(1)[0] == whole[0]);
}

/// The stream is settled before anything is uploaded, and the journal is
/// opened once: in every history, an upload is ordered only in answer to a
/// read, and a read only after the journal was opened and the stream found
/// or created; the journal is opened by the first action and by no other.
pub proof fn theorem_journal_opened_once(
    config: ConfigModel,
    cursor_file: Option<Seq<char>>,
    events: Seq<EventModel>,
    i: int,
)
    requires
        0 <= i < events.len(),
    ensures
        !(ship_run(config, cursor_file, events).1[i + 1] is OpenJournal),
        ship_run(config, cursor_file, events).1[i + 1] is Upload ==> ship_run(
            config,
            cursor_file,
            events,
        ).1[i] is ReadBatch,
        ship_run(config, cursor_file, events).1[i + 1] is ReadBatch ==> {
            ||| ship_run(config, cursor_file, events).1[i] is DescribeLogStreams
            ||| ship_run(config, cursor_file, events).1[i] is CreateLogStream
            ||| ship_run(config, cursor_file, events).1[i] is PersistCursor
            ||| ship_run(config, cursor_file, events).1[i] is Sleep
        },
{
    lemma_run_step(config, cursor_file, events, i);
    lemma_run_invariant(config, cursor_file, events.take(i));
}

} // verus!
