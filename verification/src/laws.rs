//! Properties of the worker that hold over all of its steps.
use vstd::prelude::*;
use crate::config::WorkerConfig;
use crate::store::{completed_key_of, CommandView, LAST_ID_KEY};
use crate::trim::{nothing_handled, trim_minid_spec};
use crate::stream::ItemView;
use crate::worker::{
    advance, begin_iteration, completed_check, end_batch, end_iteration, expects, handling_entry,
    job_field_write, resume_position, scan, trim_due, worker_next, ActionView, EventView, StageView, WorkerView,
    NO_PROGRESS_SLEEP_MS, RETRY_BACKOFF_ON_ERROR_MS,
};

verus! {

/// The entry being handled is the one at `pos` in the batch, and it carries a job id
/// unless its handling is already over.
pub open spec fn entry_in_hand(w: WorkerView) -> bool {
    handling_entry(w.stage) ==> {
        &&& 0 <= w.pos < w.batch.len()
        &&& w.batch[w.pos] == (ItemView::Entry { entry_id: w.entry_id, jid: w.jid })
        &&& !(w.stage is PersistingLastId) ==> w.jid.len() > 0
    }
}

proof fn lemma_begin_iteration(c: WorkerConfig, w: WorkerView)
    ensures
        begin_iteration(c, w).0.last_id == w.last_id,
        begin_iteration(c, w).0.batch == w.batch,
        begin_iteration(c, w).0.pos == w.pos,
        begin_iteration(c, w).0.stage is Reading,
{
}

proof fn lemma_end_iteration(c: WorkerConfig, w: WorkerView)
    ensures
        end_iteration(c, w).0.last_id == w.last_id,
        end_iteration(c, w).0.batch == w.batch,
        end_iteration(c, w).0.pos == w.pos,
        !handling_entry(end_iteration(c, w).0.stage),
{
}

proof fn lemma_end_batch(c: WorkerConfig, w: WorkerView)
    ensures
        end_batch(c, w).0.last_id == w.last_id,
        end_batch(c, w).0.batch == w.batch,
        end_batch(c, w).0.pos == w.pos,
        end_batch(c, w).0.had_batch_error == w.had_batch_error,
        !handling_entry(end_batch(c, w).0.stage),
        end_batch(c, w).0.stage is BatchIdleSleep <==> !w.advanced_any,
        end_batch(c, w).0.stage is BatchErrorSleep <==> (w.advanced_any && w.had_batch_error),
        end_batch(c, w).1 is Sleep || end_batch(c, w).1 is ReadClock || end_batch(c, w).1 is XRead,
{
}

proof fn lemma_scan(c: WorkerConfig, w: WorkerView)
    requires
        w.pos >= 0,
    ensures
        entry_in_hand(scan(c, w).0),
        scan(c, w).0.batch == w.batch,
        scan(c, w).0.pos >= w.pos,
        scan(c, w).0.had_batch_error == w.had_batch_error,
        scan(c, w).0.last_id != w.last_id ==> {
            &&& scan(c, w).0.stage is PersistingLastId
            &&& scan(c, w).0.jid.len() == 0
            &&& scan(c, w).0.last_id == scan(c, w).0.entry_id
            &&& scan(c, w).1 == ActionView::Store(
                CommandView::SetValue { key: LAST_ID_KEY@, value: scan(c, w).0.last_id },
            )
        },
        handling_entry(scan(c, w).0.stage) ==> scan(c, w).0.stage is CheckingCompleted
            || scan(c, w).0.stage is PersistingLastId,
        scan(c, w).0.stage is CheckingCompleted ==> scan(c, w).1 == completed_check(
            scan(c, w).0.entry_id,
        ),
        scan(c, w).1 is Sleep || scan(c, w).1 is ReadClock || scan(c, w).1 is XRead || (
        scan(c, w).1 matches ActionView::Store(cmd) && (cmd is SetValue || cmd is Exists)),
        !(scan(c, w).1 matches ActionView::Store(CommandView::SetEx { .. })),
    decreases w.batch.len() - w.pos,
{
    if w.pos >= w.batch.len() {
        lemma_end_batch(c, w);
    } else {
        match w.batch[w.pos] {
            ItemView::MissingId => {
                lemma_scan(c, WorkerView { pos: w.pos + 1, ..w });
            },
            ItemView::Entry { entry_id, jid } => {},
        }
    }
}

/// Law (at-least-once delivery): the read position moves only past an entry that is
/// handled, and every move is kept in the store at once. A move happens when the entry's
/// completed marker or legacy membership shows it done, when its job completed (the job's
/// status write was the last step), or when it carries no job id; the new position is the
/// id of the entry in hand, which is the entry at `pos` of the batch.
pub proof fn law_position_moves_only_past_handled_entries(
    c: WorkerConfig,
    w: WorkerView,
    e: EventView,
)
    requires
        entry_in_hand(w),
        w.pos >= 0,
        expects(w.stage, e),
    ensures
        entry_in_hand(worker_next(c, w, e).0),
        worker_next(c, w, e).0.last_id != w.last_id ==> {
            let w2 = worker_next(c, w, e).0;
            &&& w2.stage is PersistingLastId
            &&& w2.last_id == w2.entry_id
            &&& w2.batch[w2.pos] == (ItemView::Entry { entry_id: w2.last_id, jid: w2.jid })
            &&& worker_next(c, w, e).1 == ActionView::Store(
                CommandView::SetValue { key: LAST_ID_KEY@, value: w2.last_id },
            )
            &&& {
                ||| (w.stage is CheckingCompleted && e == EventView::Flag(true))
                ||| (w.stage is CheckingLegacy && e == EventView::Flag(true))
                ||| w.stage is StatusCompleted
                ||| w2.jid.len() == 0
            }
        },
{
    lemma_begin_iteration(c, w);
    lemma_end_iteration(c, w);
    lemma_end_batch(c, w);
    lemma_end_batch(c, WorkerView { had_batch_error: true, ..w });
    match w.stage {
        StageView::Reading => {
            if let EventView::Read(v) = e {
                if let Some(items) = crate::stream::xread_items(v) {
                    lemma_scan(
                        c,
                        WorkerView {
                            batch: items,
                            pos: 0,
                            advanced_any: false,
                            had_batch_error: false,
                            ..w
                        },
                    );
                }
            }
        },
        StageView::PersistingLastId => {
            lemma_scan(c, WorkerView { pos: w.pos + 1, ..w });
        },
        _ => {},
    }
}


/// Law (checkpoint before side effects): the job of an entry is run only after its
/// completed marker and its legacy membership were both found absent and the processing
/// checkpoint (job id, time stamp, expiry) was written without error. Each stage of that
/// sequence is entered only from the one before it, on success.
pub proof fn law_job_runs_only_after_checkpoint(c: WorkerConfig, w: WorkerView, e: EventView)
    requires
        expects(w.stage, e),
        w.pos >= 0,
    ensures
        ({
            let (w2, a) = worker_next(c, w, e);
            &&& a is RunJob ==> w.stage is ProcessingEntryId && a == (ActionView::RunJob {
                jid: w.jid,
                timeout_s: c.runner_timeout_s,
            })
            &&& w2.stage is Running ==> w.stage is ProcessingEntryId
            &&& w2.stage is ProcessingEntryId ==> w.stage is StatusProcessing
            &&& w2.stage is StatusProcessing ==> w.stage is CheckpointExpire && e is Flag
            &&& w2.stage is CheckpointExpire ==> w.stage is CheckpointTs && e is Done
            &&& w2.stage is CheckpointTs ==> w.stage is CheckpointJid && e is Done
            &&& w2.stage is CheckpointJid ==> w.stage is CheckpointClock
            &&& w2.stage is CheckpointClock ==> w.stage is CheckingLegacy && e == EventView::Flag(
                false,
            )
            &&& w2.stage is CheckingLegacy ==> w.stage is CheckingCompleted && e == EventView::Flag(
                false,
            )
        }),
{
    lemma_end_iteration(c, w);
    lemma_end_batch(c, w);
    lemma_end_batch(c, WorkerView { had_batch_error: true, ..w });
    match w.stage {
        StageView::Reading => {
            if let EventView::Read(v) = e {
                if let Some(items) = crate::stream::xread_items(v) {
                    lemma_scan(
                        c,
                        WorkerView {
                            batch: items,
                            pos: 0,
                            advanced_any: false,
                            had_batch_error: false,
                            ..w
                        },
                    );
                }
            }
        },
        StageView::PersistingLastId => {
            lemma_scan(c, WorkerView { pos: w.pos + 1, ..w });
        },
        _ => {},
    }
}

/// Law (completion only after success): an entry is marked completed, and its job marked
/// `completed`, only after its job run finished without error. The completed marker is
/// written from the clock read that follows the successful run, and nothing else writes it.
pub proof fn law_completion_only_after_success(c: WorkerConfig, w: WorkerView, e: EventView)
    requires
        expects(w.stage, e),
        w.pos >= 0,
    ensures
        ({
            let (w2, a) = worker_next(c, w, e);
            &&& w2.stage is StatusCompleted ==> w.stage is CompletedMarker
                || w.stage is CleanupCheckpoint
            &&& w2.stage is CleanupCheckpoint ==> w.stage is CompletedMarker && e is Done
            &&& w2.stage is CompletedMarker ==> w.stage is CompletionClock
            &&& w2.stage is CompletionClock ==> w.stage is Running && (
            e matches EventView::JobFinished(r) && r is Ok)
            &&& a matches ActionView::Store(CommandView::SetEx { key, .. }) ==> w.stage is CompletionClock
                && key == completed_key_of(w.entry_id)
        }),
{
    lemma_end_iteration(c, w);
    lemma_end_batch(c, w);
    lemma_end_batch(c, WorkerView { had_batch_error: true, ..w });
    match w.stage {
        StageView::Reading => {
            if let EventView::Read(v) = e {
                if let Some(items) = crate::stream::xread_items(v) {
                    lemma_scan(
                        c,
                        WorkerView {
                            batch: items,
                            pos: 0,
                            advanced_any: false,
                            had_batch_error: false,
                            ..w
                        },
                    );
                }
            }
        },
        StageView::PersistingLastId => {
            lemma_scan(c, WorkerView { pos: w.pos + 1, ..w });
        },
        _ => {},
    }
}

/// Law (a failure ends the batch): when writing the processing checkpoint fails, or once a
/// failed job's error is recorded, the worker leaves the rest of the batch, keeps its
/// position (so the entry is read again), and sleeps: 25 ms when the batch moved nothing,
/// else the 250 ms retry back-off.
pub proof fn law_failure_ends_batch(c: WorkerConfig, w: WorkerView, e: EventView)
    requires
        expects(w.stage, e),
        ((w.stage is CheckpointJid || w.stage is CheckpointTs || w.stage is CheckpointExpire)
            && e is Failed) || w.stage is ErrorWriting,
    ensures
        ({
            let (w2, a) = worker_next(c, w, e);
            &&& w2.last_id == w.last_id
            &&& w2.pos == w.pos
            &&& w2.batch == w.batch
            &&& w2.had_batch_error
            &&& !handling_entry(w2.stage)
            &&& !w.advanced_any ==> w2.stage is BatchIdleSleep && a == ActionView::Sleep(
                NO_PROGRESS_SLEEP_MS,
            )
            &&& w.advanced_any ==> w2.stage is BatchErrorSleep && a == ActionView::Sleep(
                RETRY_BACKOFF_ON_ERROR_MS,
            )
        }),
{
    lemma_end_batch(c, WorkerView { had_batch_error: true, ..w });
}

/// Law (failed jobs are recorded): when a job run fails, the job is marked `failed`, then its
/// error message is written on it, and the position does not move.
pub proof fn law_failed_job_is_recorded(c: WorkerConfig, w: WorkerView, msg: Seq<char>)
    requires
        w.stage is Running,
    ensures
        ({
            let (w2, a) = worker_next(c, w, EventView::JobFinished(Err(msg)));
            &&& w2.last_id == w.last_id
            &&& w2.stage == StageView::StatusFailed { msg }
            &&& a == job_field_write(w.jid, "status"@, "failed"@)
            &&& worker_next(c, w2, EventView::Done).1 == job_field_write(w.jid, "error"@, msg)
            &&& worker_next(c, w2, EventView::Done).0.stage is ErrorWriting
        }),
{
}

/// Law (idempotent replays): an entry whose completed marker exists, or which is in the
/// legacy completed set, is not run again: the position moves past it at once. An error
/// while checking stops the worker with that error.
pub proof fn law_completed_entries_are_skipped(c: WorkerConfig, w: WorkerView, e: EventView)
    requires
        w.stage is CheckingCompleted || w.stage is CheckingLegacy,
        expects(w.stage, e),
    ensures
        e == EventView::Flag(true) ==> worker_next(c, w, e) == advance(w),
        e == EventView::Flag(true) ==> !(worker_next(c, w, e).1 is RunJob),
        e matches EventView::Failed(m) ==> worker_next(c, w, e) == (
            WorkerView { stage: StageView::Aborted, ..w },
            ActionView::Abort(m),
        ),
{
}

/// Law (reads and trimming): every read asks for the entries after the current position
/// and counts one more iteration; the stream is trimmed only on an iteration whose count is
/// a multiple of `trim_every_n_loops`, only once something was handled, and only down to
/// the `MINID` that `trim_minid_spec` gives for the current position and the clock.
pub proof fn law_reads_and_trimming(c: WorkerConfig, w: WorkerView, e: EventView)
    requires
        expects(w.stage, e),
        w.pos >= 0,
        w.loop_count < u64::MAX,
    ensures
        ({
            let (w2, a) = worker_next(c, w, e);
            &&& a is XRead ==> {
                &&& w2.loop_count == w.loop_count + 1
                &&& w2.last_id == w.last_id
                &&& a == ActionView::XRead {
                    stream: c.stream_name@,
                    last_id: w.last_id,
                    block_ms: c.block_ms,
                    count: c.count,
                }
            }
            &&& !(a is XRead) ==> w2.loop_count == w.loop_count
            &&& w2.stage is TrimClock ==> trim_due(c, w) && !nothing_handled(w.last_id)
            &&& a matches ActionView::Store(CommandView::XTrimMinId { stream, minid }) ==> {
                &&& w.stage is TrimClock
                &&& stream == c.stream_name@
                &&& e matches EventView::Clock(now) && trim_minid_spec(
                    w.last_id,
                    now,
                    c.trim_minutes,
                ) == Some(minid)
            }
        }),
{
    lemma_end_iteration(c, w);
    lemma_end_batch(c, w);
    lemma_end_batch(c, WorkerView { had_batch_error: true, ..w });
    match w.stage {
        StageView::Reading => {
            if let EventView::Read(v) = e {
                if let Some(items) = crate::stream::xread_items(v) {
                    lemma_scan_counts(
                        c,
                        WorkerView {
                            batch: items,
                            pos: 0,
                            advanced_any: false,
                            had_batch_error: false,
                            ..w
                        },
                    );
                }
            }
        },
        StageView::PersistingLastId => {
            lemma_scan_counts(c, WorkerView { pos: w.pos + 1, ..w });
        },
        _ => {},
    }
}

proof fn lemma_scan_counts(c: WorkerConfig, w: WorkerView)
    requires
        w.pos >= 0,
        w.loop_count < u64::MAX,
    ensures
        ({
            let (w2, a) = scan(c, w);
            &&& w2.last_id == w.last_id || w2.stage is PersistingLastId
            &&& a is XRead ==> w2.loop_count == w.loop_count + 1 && w2.last_id == w.last_id
                && a == ActionView::XRead {
                stream: c.stream_name@,
                last_id: w.last_id,
                block_ms: c.block_ms,
                count: c.count,
            }
            &&& !(a is XRead) ==> w2.loop_count == w.loop_count
            &&& w2.stage is TrimClock ==> trim_due(c, w) && !nothing_handled(w.last_id)
            &&& !(a is Store && (a->Store_0 is XTrimMinId))
        }),
    decreases w.batch.len() - w.pos,
{
    if w.pos < w.batch.len() {
        if let ItemView::MissingId = w.batch[w.pos] {
            lemma_scan_counts(c, WorkerView { pos: w.pos + 1, ..w });
        }
    }
}


/// Law (resuming): a kept position is resumed exactly, whatever the configured start is;
/// the configured start is used only when no position was kept.
pub proof fn law_resume_exactly(kept: Seq<char>, startup_id: Seq<char>)
    ensures
        resume_position(Some(kept), startup_id) == kept,
        resume_position(None, startup_id) == startup_id,
{
}

/// On a trim-due iteration with a handled position, a scan of the batch never goes on to
/// the next read.
proof fn lemma_scan_never_reads_when_trim_due(c: WorkerConfig, w: WorkerView)
    requires
        w.pos >= 0,
        c.trim_every_n_loops > 0,
        w.loop_count % c.trim_every_n_loops == 0,
        w.last_id.len() > 0,
        w.last_id != seq!['0', '-', '0'],
    ensures
        !(scan(c, w).1 is XRead),
    decreases w.batch.len() - w.pos,
{
    if w.pos < w.batch.len() {
        if let ItemView::MissingId = w.batch[w.pos] {
            lemma_scan_never_reads_when_trim_due(c, WorkerView { pos: w.pos + 1, ..w });
        }
    }
}

/// Law (periodic trimming): on an iteration whose count is a multiple of
/// `trim_every_n_loops`, once the position is neither empty nor `0-0`, the iteration never
/// ends by going straight to the next read: whatever the batch did (moved the position or
/// not, failed or not, or the read timed out), its end reads the clock to trim. The only
/// steps that issue a read then are the start, a reconnect, and the end of the trim itself.
pub proof fn law_due_iteration_trims(c: WorkerConfig, w: WorkerView, e: EventView)
    requires
        expects(w.stage, e),
        w.pos >= 0,
        c.trim_every_n_loops > 0,
        w.loop_count % c.trim_every_n_loops == 0,
        w.last_id.len() > 0,
        w.last_id != seq!['0', '-', '0'],
    ensures
        worker_next(c, w, e).1 is XRead ==> w.stage is Idle || w.stage is Reconnecting
            || w.stage is TrimClock || w.stage is Trimming,
        (w.stage is IdleSleep || w.stage is BatchErrorSleep || (w.stage is BatchIdleSleep
            && !w.had_batch_error)) ==> worker_next(c, w, e) == (
            WorkerView { stage: StageView::TrimClock, ..w },
            ActionView::ReadClock,
        ),
{
    match w.stage {
        StageView::Reading => {
            if let EventView::Read(v) = e {
                if let Some(items) = crate::stream::xread_items(v) {
                    lemma_scan_never_reads_when_trim_due(
                        c,
                        WorkerView {
                            batch: items,
                            pos: 0,
                            advanced_any: false,
                            had_batch_error: false,
                            ..w
                        },
                    );
                }
            }
        },
        StageView::PersistingLastId => {
            lemma_scan_never_reads_when_trim_due(c, WorkerView { pos: w.pos + 1, ..w });
        },
        _ => {},
    }
}

} // verus!
