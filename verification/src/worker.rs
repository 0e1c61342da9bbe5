//! The worker's read loop as a state machine.
//!
//! The worker reads entries after its position `last_id`, handles them one by one, and moves
//! `last_id` past an entry only once the entry is handled: its job completed now or before,
//! or it carries no job id. Before running a job it writes a processing checkpoint; after the
//! job succeeds it writes a completed marker. A failure while handling an entry ends the
//! batch, and the entry is read again on the next iteration. Every so many iterations the
//! stream is trimmed by a time watermark, never past `last_id`.
//!
//! The caller performs each action (a read, a store command, a clock read, a job run, a
//! sleep, a reconnect) and hands back what happened as an event.
use vstd::prelude::*;
use crate::config::WorkerConfig;
use crate::resp::RespValue;
use crate::runner::{runner_error_text, RunnerError};
use crate::store::{
    completed_key, completed_key_of, job_key, job_key_of, processing_key, processing_key_of, text,
    CommandView, StoreCommand, COMPLETED_KEY_NS, COMPLETED_TTL_SECS, LAST_ID_KEY,
    PROCESSING_TTL_SECS,
};
use crate::stream::{item_views, stream_read_items, xread_items, ItemView, StreamItem};
use crate::text::{decimal, format_u64};
use crate::trim::{is_nothing_handled, nothing_handled, trim_minid, trim_minid_spec, MS_PER_MINUTE};

verus! {

/// Sleep after a read that timed out with no entries.
pub const EMPTY_READ_SLEEP_MS: u64 = 10;

/// Sleep after a batch that moved the position past no entry.
pub const NO_PROGRESS_SLEEP_MS: u64 = 25;

/// Sleep after a batch that ended on a failure, before retrying.
pub const RETRY_BACKOFF_ON_ERROR_MS: u64 = 250;

/// Where the worker stands.
#[derive(Debug, PartialEq, Eq)]
pub enum WorkerStage {
    /// Not started.
    Idle,
    /// Waiting for the reply of a stream read.
    Reading,
    /// Reconnecting after a failed read.
    Reconnecting,
    /// Sleeping after a read with no entries.
    IdleSleep,
    /// Asking whether the current entry has a completed marker.
    CheckingCompleted,
    /// Asking whether the current entry is in the legacy set of completed entries.
    CheckingLegacy,
    /// Reading the clock for the processing checkpoint.
    CheckpointClock,
    /// Writing the job id into the processing checkpoint, stamped `ts`.
    CheckpointJid { ts: u64 },
    /// Writing the time stamp into the processing checkpoint.
    CheckpointTs,
    /// Setting the expiry of the processing checkpoint.
    CheckpointExpire,
    /// Marking the job `processing` (best effort).
    StatusProcessing,
    /// Recording the entry id on the job (best effort).
    ProcessingEntryId,
    /// Running the job.
    Running,
    /// Reading the clock for the completed marker.
    CompletionClock,
    /// Writing the completed marker.
    CompletedMarker,
    /// Removing the processing checkpoint (best effort).
    CleanupCheckpoint,
    /// Marking the job `completed` (best effort).
    StatusCompleted,
    /// Marking the job `failed` (best effort); `msg` is the failure's message.
    StatusFailed { msg: String },
    /// Writing the failure's message on the job (best effort).
    ErrorWriting,
    /// Keeping the new position (best effort).
    PersistingLastId,
    /// Sleeping after a batch that moved the position past no entry.
    BatchIdleSleep,
    /// Sleeping after a batch that ended on a failure.
    BatchErrorSleep,
    /// Reading the clock for trimming.
    TrimClock,
    /// Trimming the stream.
    Trimming,
    /// Stopped on an error that ends the worker.
    Aborted,
}

/// The plain-value view of a `WorkerStage`.
pub enum StageView {
    Idle,
    Reading,
    Reconnecting,
    IdleSleep,
    CheckingCompleted,
    CheckingLegacy,
    CheckpointClock,
    CheckpointJid { ts: u64 },
    CheckpointTs,
    CheckpointExpire,
    StatusProcessing,
    ProcessingEntryId,
    Running,
    CompletionClock,
    CompletedMarker,
    CleanupCheckpoint,
    StatusCompleted,
    StatusFailed { msg: Seq<char> },
    ErrorWriting,
    PersistingLastId,
    BatchIdleSleep,
    BatchErrorSleep,
    TrimClock,
    Trimming,
    Aborted,
}

impl View for WorkerStage {
    type V = StageView;

    open spec fn view(&self) -> StageView {
        match self {
            WorkerStage::Idle => StageView::Idle,
            WorkerStage::Reading => StageView::Reading,
            WorkerStage::Reconnecting => StageView::Reconnecting,
            WorkerStage::IdleSleep => StageView::IdleSleep,
            WorkerStage::CheckingCompleted => StageView::CheckingCompleted,
            WorkerStage::CheckingLegacy => StageView::CheckingLegacy,
            WorkerStage::CheckpointClock => StageView::CheckpointClock,
            WorkerStage::CheckpointJid { ts } => StageView::CheckpointJid { ts: *ts },
            WorkerStage::CheckpointTs => StageView::CheckpointTs,
            WorkerStage::CheckpointExpire => StageView::CheckpointExpire,
            WorkerStage::StatusProcessing => StageView::StatusProcessing,
            WorkerStage::ProcessingEntryId => StageView::ProcessingEntryId,
            WorkerStage::Running => StageView::Running,
            WorkerStage::CompletionClock => StageView::CompletionClock,
            WorkerStage::CompletedMarker => StageView::CompletedMarker,
            WorkerStage::CleanupCheckpoint => StageView::CleanupCheckpoint,
            WorkerStage::StatusCompleted => StageView::StatusCompleted,
            WorkerStage::StatusFailed { msg } => StageView::StatusFailed { msg: msg@ },
            WorkerStage::ErrorWriting => StageView::ErrorWriting,
            WorkerStage::PersistingLastId => StageView::PersistingLastId,
            WorkerStage::BatchIdleSleep => StageView::BatchIdleSleep,
            WorkerStage::BatchErrorSleep => StageView::BatchErrorSleep,
            WorkerStage::TrimClock => StageView::TrimClock,
            WorkerStage::Trimming => StageView::Trimming,
            WorkerStage::Aborted => StageView::Aborted,
        }
    }
}

/// What happened when the caller performed the last action.
#[derive(Debug, PartialEq, Eq)]
pub enum WorkerEvent {
    /// Start the worker.
    Started,
    /// The reply of a stream read.
    Read(RespValue),
    /// The reply of a command that answers with a flag.
    Flag(bool),
    /// The command, sleep or reconnect was done.
    Done,
    /// The command or read failed with this error text.
    Failed(String),
    /// The clock, in milliseconds since the Unix epoch.
    Clock(u64),
    /// The job run finished with this outcome.
    JobFinished(Result<(), RunnerError>),
}

/// The plain-value view of a `WorkerEvent`; a failed job run is seen by its message.
pub enum EventView {
    Started,
    Read(RespValue),
    Flag(bool),
    Done,
    Failed(Seq<char>),
    Clock(u64),
    JobFinished(Result<(), Seq<char>>),
}

impl View for WorkerEvent {
    type V = EventView;

    open spec fn view(&self) -> EventView {
        match self {
            WorkerEvent::Started => EventView::Started,
            WorkerEvent::Read(v) => EventView::Read(*v),
            WorkerEvent::Flag(b) => EventView::Flag(*b),
            WorkerEvent::Done => EventView::Done,
            WorkerEvent::Failed(m) => EventView::Failed(m@),
            WorkerEvent::Clock(ms) => EventView::Clock(*ms),
            WorkerEvent::JobFinished(r) => EventView::JobFinished(
                match r {
                    Ok(()) => Ok(()),
                    Err(e) => Err(runner_error_text(*e)),
                },
            ),
        }
    }
}

/// What the caller does next.
#[derive(Debug, PartialEq, Eq)]
pub enum WorkerAction {
    /// `XREAD BLOCK block_ms COUNT count STREAMS stream last_id`; answer `Read` or `Failed`.
    XRead { stream: String, last_id: String, block_ms: u64, count: usize },
    /// Reconnect to the store (with back-off); answer `Done`, or stop with the error.
    Reconnect,
    /// Sleep this many milliseconds; answer `Done`.
    Sleep(u64),
    /// Send this command; answer `Flag`, `Done` or `Failed`.
    Store(StoreCommand),
    /// Read the clock; answer `Clock`.
    ReadClock,
    /// Run the job with this time limit; answer `JobFinished`.
    RunJob { jid: String, timeout_s: u64 },
    /// Stop the worker with this error.
    Abort(String),
}

/// The plain-value view of a `WorkerAction`.
pub enum ActionView {
    XRead { stream: Seq<char>, last_id: Seq<char>, block_ms: u64, count: usize },
    Reconnect,
    Sleep(u64),
    Store(CommandView),
    ReadClock,
    RunJob { jid: Seq<char>, timeout_s: u64 },
    Abort(Seq<char>),
}

impl View for WorkerAction {
    type V = ActionView;

    open spec fn view(&self) -> ActionView {
        match self {
            WorkerAction::XRead { stream, last_id, block_ms, count } => ActionView::XRead {
                stream: stream@,
                last_id: last_id@,
                block_ms: *block_ms,
                count: *count,
            },
            WorkerAction::Reconnect => ActionView::Reconnect,
            WorkerAction::Sleep(ms) => ActionView::Sleep(*ms),
            WorkerAction::Store(c) => ActionView::Store(c@),
            WorkerAction::ReadClock => ActionView::ReadClock,
            WorkerAction::RunJob { jid, timeout_s } => ActionView::RunJob {
                jid: jid@,
                timeout_s: *timeout_s,
            },
            WorkerAction::Abort(m) => ActionView::Abort(m@),
        }
    }
}

/// The worker: its settings, its position in the stream, its iteration count, the batch in
/// hand and the entry being handled.
pub struct Worker {
    pub config: WorkerConfig,
    pub last_id: String,
    pub loop_count: u64,
    pub batch: Vec<StreamItem>,
    pub pos: usize,
    pub advanced_any: bool,
    pub had_batch_error: bool,
    pub entry_id: String,
    pub jid: String,
    pub stage: WorkerStage,
}

/// The plain-value view of a `Worker`, without its settings.
pub struct WorkerView {
    pub last_id: Seq<char>,
    pub loop_count: u64,
    pub batch: Seq<ItemView>,
    pub pos: int,
    pub advanced_any: bool,
    pub had_batch_error: bool,
    pub entry_id: Seq<char>,
    pub jid: Seq<char>,
    pub stage: StageView,
}

impl View for Worker {
    type V = WorkerView;

    open spec fn view(&self) -> WorkerView {
        WorkerView {
            last_id: self.last_id@,
            loop_count: self.loop_count,
            batch: item_views(self.batch@),
            pos: self.pos as int,
            advanced_any: self.advanced_any,
            had_batch_error: self.had_batch_error,
            entry_id: self.entry_id@,
            jid: self.jid@,
            stage: self.stage@,
        }
    }
}

/// Settings under which the loop runs without overflow or division by zero.
pub open spec fn config_ok(c: WorkerConfig) -> bool {
    &&& c.trim_every_n_loops > 0
    &&& c.trim_minutes * MS_PER_MINUTE <= u64::MAX
}

/// The events that the worker expects in each stage.
pub open spec fn expects(stage: StageView, e: EventView) -> bool {
    match stage {
        StageView::Idle => e is Started,
        StageView::Reading => e is Read || e is Failed,
        StageView::Reconnecting | StageView::IdleSleep | StageView::BatchIdleSleep
        | StageView::BatchErrorSleep => e is Done,
        StageView::CheckingCompleted | StageView::CheckingLegacy
        | StageView::CheckpointExpire => e is Flag || e is Failed,
        StageView::CheckpointClock | StageView::CompletionClock | StageView::TrimClock => e is Clock,
        StageView::Running => e is JobFinished,
        StageView::Aborted => false,
        _ => e is Done || e is Failed,
    }
}

/// A new iteration: count it and read the entries after `last_id`.
pub open spec fn begin_iteration(c: WorkerConfig, w: WorkerView) -> (WorkerView, ActionView) {
    (
        WorkerView { loop_count: (w.loop_count + 1) as u64, stage: StageView::Reading, ..w },
        ActionView::XRead {
            stream: c.stream_name@,
            last_id: w.last_id,
            block_ms: c.block_ms,
            count: c.count,
        },
    )
}

/// Whether this iteration tries to trim the stream.
pub open spec fn trim_due(c: WorkerConfig, w: WorkerView) -> bool {
    w.loop_count % c.trim_every_n_loops == 0
}

/// The end of an iteration: on every `trim_every_n_loops`-th one, and once something was
/// handled, read the clock for trimming; otherwise go on with the next iteration.
pub open spec fn end_iteration(c: WorkerConfig, w: WorkerView) -> (WorkerView, ActionView) {
    if trim_due(c, w) && !nothing_handled(w.last_id) {
        (WorkerView { stage: StageView::TrimClock, ..w }, ActionView::ReadClock)
    } else {
        begin_iteration(c, w)
    }
}

/// The end of a batch: sleep briefly when the position did not move, sleep longer after a
/// failure, then end the iteration.
pub open spec fn end_batch(c: WorkerConfig, w: WorkerView) -> (WorkerView, ActionView) {
    if !w.advanced_any {
        (WorkerView { stage: StageView::BatchIdleSleep, ..w }, ActionView::Sleep(NO_PROGRESS_SLEEP_MS))
    } else if w.had_batch_error {
        (
            WorkerView { stage: StageView::BatchErrorSleep, ..w },
            ActionView::Sleep(RETRY_BACKOFF_ON_ERROR_MS),
        )
    } else {
        end_iteration(c, w)
    }
}

/// A failure while handling the current entry: the rest of the batch is left for the next
/// read, and the position stays where it is.
pub open spec fn fail_batch(c: WorkerConfig, w: WorkerView) -> (WorkerView, ActionView) {
    end_batch(c, WorkerView { had_batch_error: true, ..w })
}

/// The current entry is handled: move the position past it and keep the new position.
pub open spec fn advance(w: WorkerView) -> (WorkerView, ActionView) {
    (
        WorkerView {
            last_id: w.entry_id,
            advanced_any: true,
            stage: StageView::PersistingLastId,
            ..w
        },
        ActionView::Store(CommandView::SetValue { key: LAST_ID_KEY@, value: w.entry_id }),
    )
}

/// The command that asks for the completed marker of an entry.
pub open spec fn completed_check(entry_id: Seq<char>) -> ActionView {
    ActionView::Store(CommandView::Exists { key: completed_key_of(entry_id) })
}

/// Take up the batch from `pos`: pass over entries without id; an entry without job id is
/// handled at once; an entry with a job id starts with the completed check; at the end of
/// the batch, end it.
pub open spec fn scan(c: WorkerConfig, w: WorkerView) -> (WorkerView, ActionView)
    decreases w.batch.len() - w.pos,
{
    if w.pos < 0 || w.pos >= w.batch.len() {
        end_batch(c, w)
    } else {
        match w.batch[w.pos] {
            ItemView::MissingId => scan(c, WorkerView { pos: w.pos + 1, ..w }),
            ItemView::Entry { entry_id, jid } => {
                let w1 = WorkerView { entry_id, jid, ..w };
                if jid.len() == 0 {
                    advance(w1)
                } else {
                    (WorkerView { stage: StageView::CheckingCompleted, ..w1 }, completed_check(entry_id))
                }
            },
        }
    }
}

/// A job hash field write.
pub open spec fn job_field_write(jid: Seq<char>, field: Seq<char>, value: Seq<char>) -> ActionView {
    ActionView::Store(CommandView::HSet { key: job_key_of(jid), field, value })
}

/// A processing checkpoint field write.
pub open spec fn checkpoint_write(entry_id: Seq<char>, field: Seq<char>, value: Seq<char>) -> ActionView {
    ActionView::Store(CommandView::HSet { key: processing_key_of(entry_id), field, value })
}

/// Stage `s`, the rest unchanged.
pub open spec fn at(w: WorkerView, s: StageView) -> WorkerView {
    WorkerView { stage: s, ..w }
}

/// The worker's next state and action after event `e`. A stage never receives an event that
/// it does not expect (see `expects`); the arms for such events carry no meaning.
pub open spec fn worker_next(c: WorkerConfig, w: WorkerView, e: EventView) -> (WorkerView, ActionView) {
    match w.stage {
        StageView::Idle => begin_iteration(c, w),
        StageView::Reading => match e {
            EventView::Read(v) => match xread_items(v) {
                None => (at(w, StageView::IdleSleep), ActionView::Sleep(EMPTY_READ_SLEEP_MS)),
                Some(items) => scan(
                    c,
                    WorkerView {
                        batch: items,
                        pos: 0,
                        advanced_any: false,
                        had_batch_error: false,
                        ..w
                    },
                ),
            },
            _ => (at(w, StageView::Reconnecting), ActionView::Reconnect),
        },
        StageView::Reconnecting => begin_iteration(c, w),
        StageView::IdleSleep => end_iteration(c, w),
        StageView::CheckingCompleted => match e {
            EventView::Flag(b) => if b {
                advance(w)
            } else {
                (
                    at(w, StageView::CheckingLegacy),
                    ActionView::Store(
                        CommandView::SIsMember { key: COMPLETED_KEY_NS@, member: w.entry_id },
                    ),
                )
            },
            EventView::Failed(m) => (at(w, StageView::Aborted), ActionView::Abort(m)),
            _ => (w, ActionView::Reconnect),
        },
        StageView::CheckingLegacy => match e {
            EventView::Flag(b) => if b {
                advance(w)
            } else {
                (at(w, StageView::CheckpointClock), ActionView::ReadClock)
            },
            EventView::Failed(m) => (at(w, StageView::Aborted), ActionView::Abort(m)),
            _ => (w, ActionView::Reconnect),
        },
        StageView::CheckpointClock => match e {
            EventView::Clock(ts) => (
                at(w, StageView::CheckpointJid { ts }),
                checkpoint_write(w.entry_id, "jid"@, w.jid),
            ),
            _ => (w, ActionView::Reconnect),
        },
        StageView::CheckpointJid { ts } => match e {
            EventView::Done => (
                at(w, StageView::CheckpointTs),
                checkpoint_write(w.entry_id, "ts_ms"@, decimal(ts as nat)),
            ),
            _ => fail_batch(c, w),
        },
        StageView::CheckpointTs => match e {
            EventView::Done => (
                at(w, StageView::CheckpointExpire),
                ActionView::Store(
                    CommandView::Expire {
                        key: processing_key_of(w.entry_id),
                        seconds: PROCESSING_TTL_SECS,
                    },
                ),
            ),
            _ => fail_batch(c, w),
        },
        StageView::CheckpointExpire => match e {
            EventView::Flag(_) => (
                at(w, StageView::StatusProcessing),
                job_field_write(w.jid, "status"@, "processing"@),
            ),
            _ => fail_batch(c, w),
        },
        StageView::StatusProcessing => (
            at(w, StageView::ProcessingEntryId),
            job_field_write(w.jid, "processing_entry_id"@, w.entry_id),
        ),
        StageView::ProcessingEntryId => (
            at(w, StageView::Running),
            ActionView::RunJob { jid: w.jid, timeout_s: c.runner_timeout_s },
        ),
        StageView::Running => match e {
            EventView::JobFinished(r) => match r {
                Ok(()) => (at(w, StageView::CompletionClock), ActionView::ReadClock),
                Err(msg) => (
                    at(w, StageView::StatusFailed { msg }),
                    job_field_write(w.jid, "status"@, "failed"@),
                ),
            },
            _ => (w, ActionView::Reconnect),
        },
        StageView::CompletionClock => match e {
            EventView::Clock(ts) => (
                at(w, StageView::CompletedMarker),
                ActionView::Store(
                    CommandView::SetEx {
                        key: completed_key_of(w.entry_id),
                        value: decimal(ts as nat),
                        expiry_secs: COMPLETED_TTL_SECS,
                    },
                ),
            ),
            _ => (w, ActionView::Reconnect),
        },
        StageView::CompletedMarker => match e {
            EventView::Done => (
                at(w, StageView::CleanupCheckpoint),
                ActionView::Store(CommandView::Del { key: processing_key_of(w.entry_id) }),
            ),
            _ => (at(w, StageView::StatusCompleted), job_field_write(w.jid, "status"@, "completed"@)),
        },
        StageView::CleanupCheckpoint => (
            at(w, StageView::StatusCompleted),
            job_field_write(w.jid, "status"@, "completed"@),
        ),
        StageView::StatusCompleted => advance(w),
        StageView::StatusFailed { msg } => (
            at(w, StageView::ErrorWriting),
            job_field_write(w.jid, "error"@, msg),
        ),
        StageView::ErrorWriting => fail_batch(c, w),
        StageView::PersistingLastId => scan(c, WorkerView { pos: w.pos + 1, ..w }),
        StageView::BatchIdleSleep => if w.had_batch_error {
            (at(w, StageView::BatchErrorSleep), ActionView::Sleep(RETRY_BACKOFF_ON_ERROR_MS))
        } else {
            end_iteration(c, w)
        },
        StageView::BatchErrorSleep => end_iteration(c, w),
        StageView::TrimClock => match e {
            EventView::Clock(now) => match trim_minid_spec(w.last_id, now, c.trim_minutes) {
                Some(minid) => (
                    at(w, StageView::Trimming),
                    ActionView::Store(CommandView::XTrimMinId { stream: c.stream_name@, minid }),
                ),
                None => begin_iteration(c, w),
            },
            _ => (w, ActionView::Reconnect),
        },
        StageView::Trimming => begin_iteration(c, w),
        StageView::Aborted => (w, ActionView::Reconnect),
    }
}


/// The stages in which an entry of the batch is being handled.
pub open spec fn handling_entry(s: StageView) -> bool {
    match s {
        StageView::CheckingCompleted | StageView::CheckingLegacy | StageView::CheckpointClock
        | StageView::CheckpointJid { .. } | StageView::CheckpointTs | StageView::CheckpointExpire
        | StageView::StatusProcessing | StageView::ProcessingEntryId | StageView::Running
        | StageView::CompletionClock | StageView::CompletedMarker | StageView::CleanupCheckpoint
        | StageView::StatusCompleted | StageView::StatusFailed { .. } | StageView::ErrorWriting
        | StageView::PersistingLastId => true,
        _ => false,
    }
}

/// Where the read position starts: the kept position when there is one, else the
/// configured start.
pub open spec fn resume_position(kept: Option<Seq<char>>, startup_id: Seq<char>) -> Seq<char> {
    match kept {
        Some(id) => id,
        None => startup_id,
    }
}

fn job_field(jid: &str, field: &str, value: String) -> (a: WorkerAction)
    ensures
        a@ == job_field_write(jid@, field@, value@),
{
    WorkerAction::Store(StoreCommand::HSet { key: job_key(jid), field: text(field), value })
}

fn checkpoint_field(entry_id: &str, field: &str, value: String) -> (a: WorkerAction)
    ensures
        a@ == checkpoint_write(entry_id@, field@, value@),
{
    WorkerAction::Store(StoreCommand::HSet { key: processing_key(entry_id), field: text(field), value })
}

impl Worker {
    /// The state in which `step` can be called.
    pub open spec fn wf(&self) -> bool {
        &&& config_ok(self.config)
        &&& self.pos <= self.batch@.len()
        &&& handling_entry(self.stage@) ==> self.pos < self.batch@.len()
    }

    /// A worker that has not started, positioned at the kept position when there is one,
    /// else at the configured start.
    pub fn new(config: WorkerConfig, kept_last_id: Option<String>) -> (w: Worker)
        requires
            config_ok(config),
        ensures
            w.wf(),
            w.config == config,
            kept_last_id matches Some(s) ==> w.last_id@ == s@,
            kept_last_id is None ==> w.last_id@ == config.startup_id@,
            w@ == (WorkerView {
                last_id: resume_position(
                    match kept_last_id {
                        Some(s) => Some(s@),
                        None => None,
                    },
                    config.startup_id@,
                ),
                loop_count: 0,
                batch: Seq::empty(),
                pos: 0,
                advanced_any: false,
                had_batch_error: false,
                entry_id: Seq::empty(),
                jid: Seq::empty(),
                stage: StageView::Idle,
            }),
    {
        let last_id = match kept_last_id {
            Some(s) => s,
            None => config.startup_id.clone(),
        };
        let w = Worker {
            config,
            last_id,
            loop_count: 0,
            batch: Vec::new(),
            pos: 0,
            advanced_any: false,
            had_batch_error: false,
            entry_id: String::new(),
            jid: String::new(),
            stage: WorkerStage::Idle,
        };
        assert(item_views(w.batch@) =~= Seq::<ItemView>::empty());
        w
    }

    /// Whether the worker expects `e` now.
    pub fn expects_event(&self, e: &WorkerEvent) -> (b: bool)
        ensures
            b == expects(self.stage@, e@),
    {
        match self.stage {
            WorkerStage::Idle => matches!(e, WorkerEvent::Started),
            WorkerStage::Reading => matches!(e, WorkerEvent::Read(_) | WorkerEvent::Failed(_)),
            WorkerStage::Reconnecting | WorkerStage::IdleSleep | WorkerStage::BatchIdleSleep
            | WorkerStage::BatchErrorSleep => matches!(e, WorkerEvent::Done),
            WorkerStage::CheckingCompleted | WorkerStage::CheckingLegacy
            | WorkerStage::CheckpointExpire => matches!(e, WorkerEvent::Flag(_) | WorkerEvent::Failed(_)),
            WorkerStage::CheckpointClock | WorkerStage::CompletionClock | WorkerStage::TrimClock => matches!(e, WorkerEvent::Clock(_)),
            WorkerStage::Running => matches!(e, WorkerEvent::JobFinished(_)),
            WorkerStage::Aborted => false,
            _ => matches!(e, WorkerEvent::Done | WorkerEvent::Failed(_)),
        }
    }

    fn begin_iteration_exec(&mut self) -> (a: WorkerAction)
        requires
            config_ok(old(self).config),
            old(self).pos <= old(self).batch@.len(),
            old(self).loop_count < u64::MAX,
        ensures
            final(self).wf(),
            final(self).config == old(self).config,
            (final(self)@, a@) == begin_iteration(old(self).config, old(self)@),
    {
        self.loop_count = self.loop_count + 1;
        self.stage = WorkerStage::Reading;
        WorkerAction::XRead {
            stream: self.config.stream_name.clone(),
            last_id: self.last_id.clone(),
            block_ms: self.config.block_ms,
            count: self.config.count,
        }
    }

    fn end_iteration_exec(&mut self) -> (a: WorkerAction)
        requires
            config_ok(old(self).config),
            old(self).pos <= old(self).batch@.len(),
            old(self).loop_count < u64::MAX,
        ensures
            final(self).wf(),
            final(self).config == old(self).config,
            (final(self)@, a@) == end_iteration(old(self).config, old(self)@),
    {
        if self.loop_count % self.config.trim_every_n_loops == 0 && !is_nothing_handled(
            self.last_id.as_str(),
        ) {
            self.stage = WorkerStage::TrimClock;
            WorkerAction::ReadClock
        } else {
            self.begin_iteration_exec()
        }
    }

    fn end_batch_exec(&mut self) -> (a: WorkerAction)
        requires
            config_ok(old(self).config),
            old(self).pos <= old(self).batch@.len(),
            old(self).loop_count < u64::MAX,
        ensures
            final(self).wf(),
            final(self).config == old(self).config,
            (final(self)@, a@) == end_batch(old(self).config, old(self)@),
    {
        if !self.advanced_any {
            self.stage = WorkerStage::BatchIdleSleep;
            WorkerAction::Sleep(NO_PROGRESS_SLEEP_MS)
        } else if self.had_batch_error {
            self.stage = WorkerStage::BatchErrorSleep;
            WorkerAction::Sleep(RETRY_BACKOFF_ON_ERROR_MS)
        } else {
            self.end_iteration_exec()
        }
    }

    fn fail_batch_exec(&mut self) -> (a: WorkerAction)
        requires
            config_ok(old(self).config),
            old(self).pos <= old(self).batch@.len(),
            old(self).loop_count < u64::MAX,
        ensures
            final(self).wf(),
            final(self).config == old(self).config,
            (final(self)@, a@) == fail_batch(old(self).config, old(self)@),
    {
        self.had_batch_error = true;
        self.end_batch_exec()
    }

    fn advance_exec(&mut self) -> (a: WorkerAction)
        requires
            config_ok(old(self).config),
            old(self).pos <= old(self).batch@.len(),
            old(self).pos < old(self).batch@.len(),
        ensures
            final(self).wf(),
            final(self).config == old(self).config,
            (final(self)@, a@) == advance(old(self)@),
    {
        self.last_id = self.entry_id.clone();
        self.advanced_any = true;
        self.stage = WorkerStage::PersistingLastId;
        WorkerAction::Store(StoreCommand::SetValue { key: text(LAST_ID_KEY), value: self.entry_id.clone() })
    }

    fn scan_exec(&mut self) -> (a: WorkerAction)
        requires
            config_ok(old(self).config),
            old(self).pos <= old(self).batch@.len(),
            old(self).loop_count < u64::MAX,
        ensures
            final(self).wf(),
            final(self).config == old(self).config,
            (final(self)@, a@) == scan(old(self).config, old(self)@),
    {
        let ghost c = self.config;
        let ghost w0 = self@;
        while self.pos < self.batch.len()
            invariant
                self.config == c,
                c == old(self).config,
                w0 == old(self)@,
                config_ok(c),
                self.pos <= self.batch@.len(),
                self.loop_count < u64::MAX,
                scan(c, self@) == scan(c, w0),
            decreases self.batch.len() - self.pos,
        {
            let item = &self.batch[self.pos];
            let copied: Option<(String, String)> = match item {
                StreamItem::MissingId => None,
                StreamItem::Entry { entry_id, jid } => Some((entry_id.clone(), jid.clone())),
            };
            match copied {
                None => {
                    self.pos = self.pos + 1;
                },
                Some((entry_id, jid)) => {
                    let no_job = jid.as_str().unicode_len() == 0;
                    self.entry_id = entry_id;
                    self.jid = jid;
                    if no_job {
                        return self.advance_exec();
                    } else {
                        self.stage = WorkerStage::CheckingCompleted;
                        return WorkerAction::Store(StoreCommand::Exists { key: completed_key(self.entry_id.as_str()) });
                    }
                },
            }
        }
        self.end_batch_exec()
    }

    /// Takes what happened and returns what to do next. The caller checks beforehand that
    /// the event is expected (`expects_event`) and that the iteration count can still grow.
    pub fn step(&mut self, e: WorkerEvent) -> (a: WorkerAction)
        requires
            old(self).wf(),
            expects(old(self).stage@, e@),
            old(self).loop_count < u64::MAX,
        ensures
            final(self).wf(),
            final(self).config == old(self).config,
            (final(self)@, a@) == worker_next(old(self).config, old(self)@, e@),
    {
        match &self.stage {
            WorkerStage::Idle => self.begin_iteration_exec(),
            WorkerStage::Reading => match e {
                WorkerEvent::Read(v) => match stream_read_items(&v) {
                    None => {
                        self.stage = WorkerStage::IdleSleep;
                        WorkerAction::Sleep(EMPTY_READ_SLEEP_MS)
                    },
                    Some(items) => {
                        self.batch = items;
                        self.pos = 0;
                        self.advanced_any = false;
                        self.had_batch_error = false;
                        self.scan_exec()
                    },
                },
                _ => {
                    self.stage = WorkerStage::Reconnecting;
                    WorkerAction::Reconnect
                },
            },
            WorkerStage::Reconnecting => self.begin_iteration_exec(),
            WorkerStage::IdleSleep => self.end_iteration_exec(),
            WorkerStage::CheckingCompleted => match e {
                WorkerEvent::Flag(b) => {
                    if b {
                        self.advance_exec()
                    } else {
                        self.stage = WorkerStage::CheckingLegacy;
                        WorkerAction::Store(
                            StoreCommand::SIsMember {
                                key: text(COMPLETED_KEY_NS),
                                member: self.entry_id.clone(),
                            },
                        )
                    }
                },
                WorkerEvent::Failed(m) => {
                    self.stage = WorkerStage::Aborted;
                    WorkerAction::Abort(m)
                },
                _ => WorkerAction::Reconnect,
            },
            WorkerStage::CheckingLegacy => match e {
                WorkerEvent::Flag(b) => {
                    if b {
                        self.advance_exec()
                    } else {
                        self.stage = WorkerStage::CheckpointClock;
                        WorkerAction::ReadClock
                    }
                },
                WorkerEvent::Failed(m) => {
                    self.stage = WorkerStage::Aborted;
                    WorkerAction::Abort(m)
                },
                _ => WorkerAction::Reconnect,
            },
            WorkerStage::CheckpointClock => match e {
                WorkerEvent::Clock(ts) => {
                    self.stage = WorkerStage::CheckpointJid { ts };
                    checkpoint_field(self.entry_id.as_str(), "jid", self.jid.clone())
                },
                _ => WorkerAction::Reconnect,
            },
            WorkerStage::CheckpointJid { ts } => {
                let ts = *ts;
                match e {
                    WorkerEvent::Done => {
                        self.stage = WorkerStage::CheckpointTs;
                        checkpoint_field(self.entry_id.as_str(), "ts_ms", format_u64(ts))
                    },
                    _ => self.fail_batch_exec(),
                }
            },
            WorkerStage::CheckpointTs => match e {
                WorkerEvent::Done => {
                    self.stage = WorkerStage::CheckpointExpire;
                    WorkerAction::Store(
                        StoreCommand::Expire {
                            key: processing_key(self.entry_id.as_str()),
                            seconds: PROCESSING_TTL_SECS,
                        },
                    )
                },
                _ => self.fail_batch_exec(),
            },
            WorkerStage::CheckpointExpire => match e {
                WorkerEvent::Flag(_) => {
                    self.stage = WorkerStage::StatusProcessing;
                    job_field(self.jid.as_str(), "status", text("processing"))
                },
                _ => self.fail_batch_exec(),
            },
            WorkerStage::StatusProcessing => {
                self.stage = WorkerStage::ProcessingEntryId;
                job_field(self.jid.as_str(), "processing_entry_id", self.entry_id.clone())
            },
            WorkerStage::ProcessingEntryId => {
                self.stage = WorkerStage::Running;
                WorkerAction::RunJob { jid: self.jid.clone(), timeout_s: self.config.runner_timeout_s }
            },
            WorkerStage::Running => match e {
                WorkerEvent::JobFinished(r) => match r {
                    Ok(()) => {
                        self.stage = WorkerStage::CompletionClock;
                        WorkerAction::ReadClock
                    },
                    Err(err) => {
                        self.stage = WorkerStage::StatusFailed { msg: err.message() };
                        job_field(self.jid.as_str(), "status", text("failed"))
                    },
                },
                _ => WorkerAction::Reconnect,
            },
            WorkerStage::CompletionClock => match e {
                WorkerEvent::Clock(ts) => {
                    self.stage = WorkerStage::CompletedMarker;
                    WorkerAction::Store(
                        StoreCommand::SetEx {
                            key: completed_key(self.entry_id.as_str()),
                            value: format_u64(ts),
                            expiry_secs: COMPLETED_TTL_SECS,
                        },
                    )
                },
                _ => WorkerAction::Reconnect,
            },
            WorkerStage::CompletedMarker => match e {
                WorkerEvent::Done => {
                    self.stage = WorkerStage::CleanupCheckpoint;
                    WorkerAction::Store(StoreCommand::Del { key: processing_key(self.entry_id.as_str()) })
                },
                _ => {
                    self.stage = WorkerStage::StatusCompleted;
                    job_field(self.jid.as_str(), "status", text("completed"))
                },
            },
            WorkerStage::CleanupCheckpoint => {
                self.stage = WorkerStage::StatusCompleted;
                job_field(self.jid.as_str(), "status", text("completed"))
            },
            WorkerStage::StatusCompleted => self.advance_exec(),
            WorkerStage::StatusFailed { msg } => {
                let msg = msg.clone();
                self.stage = WorkerStage::ErrorWriting;
                job_field(self.jid.as_str(), "error", msg)
            },
            WorkerStage::ErrorWriting => self.fail_batch_exec(),
            WorkerStage::PersistingLastId => {
                let n = self.batch.len();
                assert(self.pos < n);
                self.pos = self.pos + 1;
                self.scan_exec()
            },
            WorkerStage::BatchIdleSleep => {
                if self.had_batch_error {
                    self.stage = WorkerStage::BatchErrorSleep;
                    WorkerAction::Sleep(RETRY_BACKOFF_ON_ERROR_MS)
                } else {
                    self.end_iteration_exec()
                }
            },
            WorkerStage::BatchErrorSleep => self.end_iteration_exec(),
            WorkerStage::TrimClock => match e {
                WorkerEvent::Clock(now) => {
                    match trim_minid(self.last_id.as_str(), now, self.config.trim_minutes) {
                        Some(minid) => {
                            self.stage = WorkerStage::Trimming;
                            WorkerAction::Store(
                                StoreCommand::XTrimMinId {
                                    stream: self.config.stream_name.clone(),
                                    minid,
                                },
                            )
                        },
                        None => self.begin_iteration_exec(),
                    }
                },
                _ => WorkerAction::Reconnect,
            },
            WorkerStage::Trimming => self.begin_iteration_exec(),
            WorkerStage::Aborted => WorkerAction::Reconnect,
        }
    }
}

} // verus!
