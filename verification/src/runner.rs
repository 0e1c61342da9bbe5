//! Running the external job runner for one job, with a time limit.
//!
//! The decisions are a state machine: the caller performs each action (a store read, a
//! process spawn, a poll of the process, a sleep, a kill) and hands back what happened.
use vstd::prelude::*;
use crate::store::{job_key, job_key_of, text, CommandView, StoreCommand};
use crate::text::{decimal, format_i32, format_u64, signed_decimal};

verus! {

/// The program that runs a job.
pub const RUNNER_PROGRAM: &'static str = "python3";

/// The script that the program runs, with the job id as its argument.
pub const RUNNER_SCRIPT: &'static str = "/app/model_runner.py";

/// How long to wait between two polls of the running job.
pub const POLL_INTERVAL_MS: u64 = 100;

/// Why a job run failed.
#[derive(Debug, PartialEq, Eq)]
pub enum RunnerError {
    /// The runner process could not be started.
    SpawnFailed,
    /// The runner exited unsuccessfully, with this exit code (`None` when killed by a signal).
    ExitStatus(Option<i32>),
    /// The runner was still running after this many seconds and was killed.
    Timeout(u64),
    /// Waiting for the runner failed with this error text; it was killed.
    WaitFailed(String),
    /// The runner succeeded but left no `result_url` for the job.
    NoResultUrl,
}

/// How an exit code is written in a message (`{:?}` of an `Option<i32>`).
pub open spec fn exit_code_text(code: Option<i32>) -> Seq<char> {
    match code {
        Some(c) => "Some("@ + signed_decimal(c as int) + ")"@,
        None => "None"@,
    }
}

/// The message of a run failure, as it is logged and stored in the job's `error` field.
pub open spec fn runner_error_text(e: RunnerError) -> Seq<char> {
    match e {
        RunnerError::SpawnFailed => "failed to spawn python runner"@,
        RunnerError::ExitStatus(code) => "python runner failed with status "@ + exit_code_text(code),
        RunnerError::Timeout(secs) => "python runner timeout after "@ + decimal(secs as nat) + "s"@,
        RunnerError::WaitFailed(m) => "python runner wait error: "@ + m@,
        RunnerError::NoResultUrl => "no result_url set by runner"@,
    }
}

fn exit_code_message(code: Option<i32>) -> (s: String)
    ensures
        s@ == exit_code_text(code),
{
    match code {
        Some(c) => {
            let mut s = text("Some(");
            let digits = format_i32(c);
            s.append(digits.as_str());
            s.append(")");
            s
        },
        None => text("None"),
    }
}

impl RunnerError {
    /// The message of this failure.
    pub fn message(&self) -> (s: String)
        ensures
            s@ == runner_error_text(*self),
    {
        match self {
            RunnerError::SpawnFailed => text("failed to spawn python runner"),
            RunnerError::ExitStatus(code) => {
                let mut s = text("python runner failed with status ");
                let c = exit_code_message(*code);
                s.append(c.as_str());
                s
            },
            RunnerError::Timeout(secs) => {
                let mut s = text("python runner timeout after ");
                let d = format_u64(*secs);
                s.append(d.as_str());
                s.append("s");
                s
            },
            RunnerError::WaitFailed(m) => {
                let mut s = text("python runner wait error: ");
                s.append(m.as_str());
                s
            },
            RunnerError::NoResultUrl => text("no result_url set by runner"),
        }
    }
}

/// Where a job run stands.
#[derive(Debug, PartialEq, Eq)]
pub enum RunnerStage {
    /// Reading the job's `result_url`, to skip jobs that already have a result.
    CheckShortcut,
    /// Starting the runner process.
    Spawning,
    /// Asking whether the runner has exited.
    Polling,
    /// Waiting before the next poll.
    Sleeping,
    /// Killing a runner that ran past the time limit.
    KillingTimeout,
    /// Killing a runner after waiting for it failed with this error text.
    KillingWait(String),
    /// Reading the `result_url` that the runner should have written.
    ReadingResult,
    /// The run is over.
    Finished,
}

/// What happened when the caller performed the last action.
#[derive(Debug, PartialEq, Eq)]
pub enum RunnerEvent {
    /// The text of the field that was read; `None` when it is missing or could not be read.
    Text(Option<String>),
    /// The runner process started.
    Spawned,
    /// The runner process could not be started.
    SpawnFailed,
    /// The runner has exited; `success` tells whether its status was success.
    Exited { success: bool, code: Option<i32> },
    /// The runner is still running, this many whole seconds after it was started.
    Running { elapsed_secs: u64 },
    /// Waiting for the runner failed with this error text.
    WaitFailed(String),
    /// The sleep or the kill was done.
    Done,
}

/// What the caller does next.
#[derive(Debug, PartialEq, Eq)]
pub enum RunnerAction {
    /// Send this command to the store and answer with `Text`.
    Store(StoreCommand),
    /// Start `program script jid` with no input; answer `Spawned` or `SpawnFailed`.
    Spawn { program: String, script: String, jid: String },
    /// Ask whether the runner has exited; answer `Exited`, `Running` or `WaitFailed`.
    Poll,
    /// Sleep this many milliseconds; answer `Done`.
    Sleep(u64),
    /// Kill the runner, ignoring any error; answer `Done`.
    Kill,
    /// The run is over with this outcome.
    Finish(Result<(), RunnerError>),
}

/// The plain-value view of a `RunnerAction`.
pub enum RunnerActionView {
    Store(CommandView),
    Spawn { program: Seq<char>, script: Seq<char>, jid: Seq<char> },
    Poll,
    Sleep(u64),
    Kill,
    Finish(Result<(), RunnerError>),
}

impl View for RunnerAction {
    type V = RunnerActionView;

    open spec fn view(&self) -> RunnerActionView {
        match self {
            RunnerAction::Store(c) => RunnerActionView::Store(c@),
            RunnerAction::Spawn { program, script, jid } => RunnerActionView::Spawn {
                program: program@,
                script: script@,
                jid: jid@,
            },
            RunnerAction::Poll => RunnerActionView::Poll,
            RunnerAction::Sleep(ms) => RunnerActionView::Sleep(*ms),
            RunnerAction::Kill => RunnerActionView::Kill,
            RunnerAction::Finish(r) => RunnerActionView::Finish(*r),
        }
    }
}

/// One run of the job runner for one job.
pub struct Runner {
    pub jid: String,
    pub timeout_s: u64,
    pub stage: RunnerStage,
}

/// Whether a field read gave a nonempty text.
pub open spec fn nonempty_text(e: RunnerEvent) -> bool {
    match e {
        RunnerEvent::Text(Some(u)) => u@.len() > 0,
        _ => false,
    }
}

/// The command that reads the job's `result_url`.
pub open spec fn result_url_read(jid: Seq<char>) -> RunnerActionView {
    RunnerActionView::Store(CommandView::HGet { key: job_key_of(jid), field: "result_url"@ })
}

/// The next stage and action of a run after `e`.
pub open spec fn runner_next(r: Runner, e: RunnerEvent) -> (RunnerStage, RunnerActionView) {
    match r.stage {
        RunnerStage::CheckShortcut => if nonempty_text(e) {
            (RunnerStage::Finished, RunnerActionView::Finish(Ok(())))
        } else {
            (
                RunnerStage::Spawning,
                RunnerActionView::Spawn {
                    program: RUNNER_PROGRAM@,
                    script: RUNNER_SCRIPT@,
                    jid: r.jid@,
                },
            )
        },
        RunnerStage::Spawning => match e {
            RunnerEvent::Spawned => (RunnerStage::Polling, RunnerActionView::Poll),
            _ => (RunnerStage::Finished, RunnerActionView::Finish(Err(RunnerError::SpawnFailed))),
        },
        RunnerStage::Polling => match e {
            RunnerEvent::Exited { success, code } => if success {
                (RunnerStage::ReadingResult, result_url_read(r.jid@))
            } else {
                (
                    RunnerStage::Finished,
                    RunnerActionView::Finish(Err(RunnerError::ExitStatus(code))),
                )
            },
            RunnerEvent::Running { elapsed_secs } => if elapsed_secs >= r.timeout_s {
                (RunnerStage::KillingTimeout, RunnerActionView::Kill)
            } else {
                (RunnerStage::Sleeping, RunnerActionView::Sleep(POLL_INTERVAL_MS))
            },
            RunnerEvent::WaitFailed(m) => (RunnerStage::KillingWait(m), RunnerActionView::Kill),
            _ => (RunnerStage::Polling, RunnerActionView::Poll),
        },
        RunnerStage::Sleeping => (RunnerStage::Polling, RunnerActionView::Poll),
        RunnerStage::KillingTimeout => (
            RunnerStage::Finished,
            RunnerActionView::Finish(Err(RunnerError::Timeout(r.timeout_s))),
        ),
        RunnerStage::KillingWait(m) => (
            RunnerStage::Finished,
            RunnerActionView::Finish(Err(RunnerError::WaitFailed(m))),
        ),
        RunnerStage::ReadingResult => if nonempty_text(e) {
            (RunnerStage::Finished, RunnerActionView::Finish(Ok(())))
        } else {
            (RunnerStage::Finished, RunnerActionView::Finish(Err(RunnerError::NoResultUrl)))
        },
        RunnerStage::Finished => (RunnerStage::Finished, RunnerActionView::Poll),
    }
}

fn result_url_command(jid: &str) -> (a: RunnerAction)
    ensures
        a@ == result_url_read(jid@),
{
    RunnerAction::Store(StoreCommand::HGet { key: job_key(jid), field: text("result_url") })
}

fn is_nonempty_text(e: &RunnerEvent) -> (b: bool)
    ensures
        b == nonempty_text(*e),
{
    match e {
        RunnerEvent::Text(Some(u)) => u.as_str().unicode_len() > 0,
        _ => false,
    }
}

impl Runner {
    /// Starts a run of the job runner for `jid` with a limit of `timeout_s` seconds. The
    /// first action reads the job's `result_url`: a job that already has one is not run again.
    pub fn start(jid: String, timeout_s: u64) -> (res: (Runner, RunnerAction))
        ensures
            res.0.jid@ == jid@,
            res.0.timeout_s == timeout_s,
            res.0.stage == RunnerStage::CheckShortcut,
            res.1@ == result_url_read(jid@),
    {
        let a = result_url_command(jid.as_str());
        (Runner { jid, timeout_s, stage: RunnerStage::CheckShortcut }, a)
    }

    /// Whether the run is over.
    pub fn is_finished(&self) -> (b: bool)
        ensures
            b == (self.stage is Finished),
    {
        match self.stage {
            RunnerStage::Finished => true,
            _ => false,
        }
    }

    /// Takes what happened and returns what to do next.
    pub fn step(&mut self, e: RunnerEvent) -> (a: RunnerAction)
        requires
            !(old(self).stage is Finished),
        ensures
            final(self).jid == old(self).jid,
            final(self).timeout_s == old(self).timeout_s,
            (final(self).stage, a@) == runner_next(*old(self), e),
    {
        let ghost before = *self;
        let mut stage = RunnerStage::Finished;
        std::mem::swap(&mut stage, &mut self.stage);
        let nonempty = is_nonempty_text(&e);
        match stage {
            RunnerStage::CheckShortcut => {
                if nonempty {
                    RunnerAction::Finish(Ok(()))
                } else {
                    self.stage = RunnerStage::Spawning;
                    RunnerAction::Spawn {
                        program: text(RUNNER_PROGRAM),
                        script: text(RUNNER_SCRIPT),
                        jid: String::from_str(self.jid.as_str()),
                    }
                }
            },
            RunnerStage::Spawning => match e {
                RunnerEvent::Spawned => {
                    self.stage = RunnerStage::Polling;
                    RunnerAction::Poll
                },
                _ => RunnerAction::Finish(Err(RunnerError::SpawnFailed)),
            },
            RunnerStage::Polling => match e {
                RunnerEvent::Exited { success, code } => {
                    if success {
                        self.stage = RunnerStage::ReadingResult;
                        result_url_command(self.jid.as_str())
                    } else {
                        RunnerAction::Finish(Err(RunnerError::ExitStatus(code)))
                    }
                },
                RunnerEvent::Running { elapsed_secs } => {
                    if elapsed_secs >= self.timeout_s {
                        self.stage = RunnerStage::KillingTimeout;
                        RunnerAction::Kill
                    } else {
                        self.stage = RunnerStage::Sleeping;
                        RunnerAction::Sleep(POLL_INTERVAL_MS)
                    }
                },
                RunnerEvent::WaitFailed(m) => {
                    self.stage = RunnerStage::KillingWait(m);
                    RunnerAction::Kill
                },
                _ => {
                    self.stage = RunnerStage::Polling;
                    RunnerAction::Poll
                },
            },
            RunnerStage::Sleeping => {
                self.stage = RunnerStage::Polling;
                RunnerAction::Poll
            },
            RunnerStage::KillingTimeout => RunnerAction::Finish(
                Err(RunnerError::Timeout(self.timeout_s)),
            ),
            RunnerStage::KillingWait(m) => RunnerAction::Finish(Err(RunnerError::WaitFailed(m))),
            RunnerStage::ReadingResult => {
                if nonempty {
                    RunnerAction::Finish(Ok(()))
                } else {
                    RunnerAction::Finish(Err(RunnerError::NoResultUrl))
                }
            },
            RunnerStage::Finished => RunnerAction::Poll,
        }
    }
}


/// Law (a run succeeds only with a result): a run finishes without error only when a
/// nonempty `result_url` was read for the job, either before the runner was started (the job
/// already had a result and is not run again) or after the runner exited successfully.
pub proof fn law_success_needs_result_url(r: Runner, e: RunnerEvent)
    requires
        !(r.stage is Finished),
    ensures
        runner_next(r, e).1 == RunnerActionView::Finish(Ok(())) ==> nonempty_text(e) && (
        r.stage is CheckShortcut || r.stage is ReadingResult),
        runner_next(r, e).1 is Spawn ==> r.stage is CheckShortcut && !nonempty_text(e),
{
}

/// Law (time limit): while the runner runs, the run sleeps 100 ms and polls again as long as
/// fewer than `timeout_s` seconds have passed; once they have, the runner is killed and the
/// run fails with a timeout. A failed wait also kills the runner before the run fails.
pub proof fn law_time_limit(r: Runner, elapsed_secs: u64, m: String)
    requires
        r.stage is Polling,
    ensures
        elapsed_secs < r.timeout_s ==> runner_next(r, RunnerEvent::Running { elapsed_secs }) == (
            RunnerStage::Sleeping,
            RunnerActionView::Sleep(POLL_INTERVAL_MS),
        ),
        elapsed_secs >= r.timeout_s ==> runner_next(r, RunnerEvent::Running { elapsed_secs }) == (
            RunnerStage::KillingTimeout,
            RunnerActionView::Kill,
        ),
        runner_next(Runner { stage: RunnerStage::KillingTimeout, ..r }, RunnerEvent::Done).1
            == RunnerActionView::Finish(Err(RunnerError::Timeout(r.timeout_s))),
        runner_next(r, RunnerEvent::WaitFailed(m)) == (
            RunnerStage::KillingWait(m),
            RunnerActionView::Kill,
        ),
        runner_next(Runner { stage: RunnerStage::KillingWait(m), ..r }, RunnerEvent::Done).1
            == RunnerActionView::Finish(Err(RunnerError::WaitFailed(m))),
{
}

} // verus!
