use rust_worker::config::{Settings, WorkerConfig};
use rust_worker::resp::RespValue;
use rust_worker::runner::RunnerError;
use rust_worker::store::StoreCommand;
use rust_worker::worker::{Worker, WorkerAction, WorkerEvent, WorkerStage};

fn config(trim_every: &str) -> WorkerConfig {
    WorkerConfig::from_settings(Settings {
        redis_url: None,
        jobs_stream: None,
        jobs_start_id: None,
        xread_block_ms: None,
        xread_count: None,
        trim_minutes: Some("1".to_string()),
        trim_every_loops: Some(trim_every.to_string()),
        runner_timeout_s: Some("30".to_string()),
    })
}

fn bulk(s: &str) -> RespValue {
    RespValue::BulkString(s.as_bytes().to_vec())
}

fn reply(entries: Vec<(&str, Option<&str>)>) -> RespValue {
    let es = entries
        .into_iter()
        .map(|(id, jid)| {
            let fields = match jid {
                Some(j) => vec![bulk("id"), bulk(j)],
                None => vec![bulk("prompt"), bulk("p")],
            };
            RespValue::Array(vec![bulk(id), RespValue::Array(fields)])
        })
        .collect();
    RespValue::Array(vec![RespValue::Array(vec![bulk("videogen:jobs"), RespValue::Array(es)])])
}

fn xread(last_id: &str) -> WorkerAction {
    WorkerAction::XRead {
        stream: "videogen:jobs".to_string(),
        last_id: last_id.to_string(),
        block_ms: 5000,
        count: 10,
    }
}

fn hset(key: &str, field: &str, value: &str) -> WorkerAction {
    WorkerAction::Store(StoreCommand::HSet {
        key: key.to_string(),
        field: field.to_string(),
        value: value.to_string(),
    })
}

fn set_last_id(id: &str) -> WorkerAction {
    WorkerAction::Store(StoreCommand::SetValue {
        key: "videogen:last_id".to_string(),
        value: id.to_string(),
    })
}

fn step(w: &mut Worker, e: WorkerEvent) -> WorkerAction {
    assert!(w.expects_event(&e), "unexpected event {:?} in {:?}", e, w.stage);
    w.step(e)
}

#[test]
fn resumes_from_the_kept_position() {
    let w = Worker::new(config("80"), Some("17-3".to_string()));
    assert_eq!(w.last_id, "17-3");
    let w = Worker::new(config("80"), None);
    assert_eq!(w.last_id, "$");
}

#[test]
fn handles_a_job_end_to_end() {
    let mut w = Worker::new(config("80"), None);
    assert_eq!(step(&mut w, WorkerEvent::Started), xread("$"));
    assert_eq!(w.loop_count, 1);
    let a = step(&mut w, WorkerEvent::Read(reply(vec![("5-0", Some("j1"))])));
    assert_eq!(a, WorkerAction::Store(StoreCommand::Exists { key: "videogen:completed:5-0".to_string() }));
    let a = step(&mut w, WorkerEvent::Flag(false));
    assert_eq!(
        a,
        WorkerAction::Store(StoreCommand::SIsMember {
            key: "videogen:completed".to_string(),
            member: "5-0".to_string()
        })
    );
    assert_eq!(step(&mut w, WorkerEvent::Flag(false)), WorkerAction::ReadClock);
    assert_eq!(step(&mut w, WorkerEvent::Clock(123)), hset("videogen:processing:5-0", "jid", "j1"));
    assert_eq!(step(&mut w, WorkerEvent::Done), hset("videogen:processing:5-0", "ts_ms", "123"));
    assert_eq!(
        step(&mut w, WorkerEvent::Done),
        WorkerAction::Store(StoreCommand::Expire {
            key: "videogen:processing:5-0".to_string(),
            seconds: 86400
        })
    );
    assert_eq!(step(&mut w, WorkerEvent::Flag(true)), hset("job:j1", "status", "processing"));
    assert_eq!(step(&mut w, WorkerEvent::Done), hset("job:j1", "processing_entry_id", "5-0"));
    assert_eq!(
        step(&mut w, WorkerEvent::Failed("best effort".to_string())),
        WorkerAction::RunJob { jid: "j1".to_string(), timeout_s: 30 }
    );
    assert_eq!(step(&mut w, WorkerEvent::JobFinished(Ok(()))), WorkerAction::ReadClock);
    assert_eq!(
        step(&mut w, WorkerEvent::Clock(456)),
        WorkerAction::Store(StoreCommand::SetEx {
            key: "videogen:completed:5-0".to_string(),
            value: "456".to_string(),
            expiry_secs: 604800
        })
    );
    assert_eq!(
        step(&mut w, WorkerEvent::Done),
        WorkerAction::Store(StoreCommand::Del { key: "videogen:processing:5-0".to_string() })
    );
    assert_eq!(step(&mut w, WorkerEvent::Done), hset("job:j1", "status", "completed"));
    assert_eq!(w.last_id, "$");
    assert_eq!(step(&mut w, WorkerEvent::Done), set_last_id("5-0"));
    assert_eq!(w.last_id, "5-0");
    // the batch moved the position and had no failure: straight to the next read
    assert_eq!(step(&mut w, WorkerEvent::Done), xread("5-0"));
    assert_eq!(w.loop_count, 2);
}

#[test]
fn failed_completed_marker_skips_cleanup() {
    let mut w = Worker::new(config("80"), None);
    step(&mut w, WorkerEvent::Started);
    step(&mut w, WorkerEvent::Read(reply(vec![("5-0", Some("j1"))])));
    step(&mut w, WorkerEvent::Flag(false));
    step(&mut w, WorkerEvent::Flag(false));
    step(&mut w, WorkerEvent::Clock(1));
    step(&mut w, WorkerEvent::Done);
    step(&mut w, WorkerEvent::Done);
    step(&mut w, WorkerEvent::Flag(false));
    step(&mut w, WorkerEvent::Done);
    step(&mut w, WorkerEvent::Done);
    step(&mut w, WorkerEvent::JobFinished(Ok(())));
    step(&mut w, WorkerEvent::Clock(2));
    let a = step(&mut w, WorkerEvent::Failed("down".to_string()));
    assert_eq!(a, hset("job:j1", "status", "completed"));
    assert_eq!(step(&mut w, WorkerEvent::Done), set_last_id("5-0"));
}

#[test]
fn failed_job_is_recorded_and_read_again() {
    let mut w = Worker::new(config("80"), Some("4-0".to_string()));
    step(&mut w, WorkerEvent::Started);
    step(&mut w, WorkerEvent::Read(reply(vec![("5-0", Some("j1")), ("6-0", Some("j2"))])));
    step(&mut w, WorkerEvent::Flag(false));
    step(&mut w, WorkerEvent::Flag(false));
    step(&mut w, WorkerEvent::Clock(1));
    step(&mut w, WorkerEvent::Done);
    step(&mut w, WorkerEvent::Done);
    step(&mut w, WorkerEvent::Flag(true));
    step(&mut w, WorkerEvent::Done);
    step(&mut w, WorkerEvent::Done);
    let a = step(&mut w, WorkerEvent::JobFinished(Err(RunnerError::Timeout(30))));
    assert_eq!(a, hset("job:j1", "status", "failed"));
    assert_eq!(step(&mut w, WorkerEvent::Done), hset("job:j1", "error", "python runner timeout after 30s"));
    // the batch ends: nothing moved, so the short sleep, then the retry back-off
    assert_eq!(step(&mut w, WorkerEvent::Done), WorkerAction::Sleep(25));
    assert_eq!(step(&mut w, WorkerEvent::Done), WorkerAction::Sleep(250));
    assert_eq!(w.last_id, "4-0");
    assert_eq!(step(&mut w, WorkerEvent::Done), xread("4-0"));
}

#[test]
fn checkpoint_failure_ends_the_batch() {
    let mut w = Worker::new(config("80"), None);
    step(&mut w, WorkerEvent::Started);
    step(&mut w, WorkerEvent::Read(reply(vec![("1-0", None), ("5-0", Some("j1")), ("6-0", Some("j2"))])));
    // the entry without job id is handled at once
    assert_eq!(w.last_id, "1-0");
    assert_eq!(step(&mut w, WorkerEvent::Done), WorkerAction::Store(StoreCommand::Exists {
        key: "videogen:completed:5-0".to_string()
    }));
    step(&mut w, WorkerEvent::Flag(false));
    step(&mut w, WorkerEvent::Flag(false));
    step(&mut w, WorkerEvent::Clock(1));
    let a = step(&mut w, WorkerEvent::Failed("READONLY".to_string()));
    assert_eq!(a, WorkerAction::Sleep(250));
    assert!(w.had_batch_error);
    assert_eq!(w.last_id, "1-0");
    assert_eq!(step(&mut w, WorkerEvent::Done), xread("1-0"));
}

#[test]
fn entry_without_job_id_is_passed() {
    let mut w = Worker::new(config("80"), None);
    step(&mut w, WorkerEvent::Started);
    let a = step(&mut w, WorkerEvent::Read(reply(vec![("9-0", None)])));
    assert_eq!(a, set_last_id("9-0"));
    assert_eq!(step(&mut w, WorkerEvent::Done), xread("9-0"));
}

#[test]
fn completed_entries_are_skipped() {
    let mut w = Worker::new(config("80"), None);
    step(&mut w, WorkerEvent::Started);
    step(&mut w, WorkerEvent::Read(reply(vec![("5-0", Some("j1")), ("6-0", Some("j2"))])));
    assert_eq!(step(&mut w, WorkerEvent::Flag(true)), set_last_id("5-0"));
    assert_eq!(
        step(&mut w, WorkerEvent::Done),
        WorkerAction::Store(StoreCommand::Exists { key: "videogen:completed:6-0".to_string() })
    );
    step(&mut w, WorkerEvent::Flag(false));
    assert_eq!(step(&mut w, WorkerEvent::Flag(true)), set_last_id("6-0"));
    assert_eq!(step(&mut w, WorkerEvent::Done), xread("6-0"));
}

#[test]
fn completion_check_error_stops_the_worker() {
    let mut w = Worker::new(config("80"), None);
    step(&mut w, WorkerEvent::Started);
    step(&mut w, WorkerEvent::Read(reply(vec![("5-0", Some("j1"))])));
    let a = step(&mut w, WorkerEvent::Failed("connection reset".to_string()));
    assert_eq!(a, WorkerAction::Abort("connection reset".to_string()));
    assert_eq!(w.stage, WorkerStage::Aborted);
    assert!(!w.expects_event(&WorkerEvent::Done));
}

#[test]
fn read_failure_reconnects() {
    let mut w = Worker::new(config("80"), None);
    step(&mut w, WorkerEvent::Started);
    assert_eq!(step(&mut w, WorkerEvent::Failed("timeout".to_string())), WorkerAction::Reconnect);
    assert_eq!(step(&mut w, WorkerEvent::Done), xread("$"));
    assert_eq!(w.loop_count, 2);
}

#[test]
fn empty_read_sleeps() {
    let mut w = Worker::new(config("80"), None);
    step(&mut w, WorkerEvent::Started);
    assert_eq!(step(&mut w, WorkerEvent::Read(RespValue::Nil)), WorkerAction::Sleep(10));
    assert_eq!(step(&mut w, WorkerEvent::Done), xread("$"));
    // an array with no entries is a batch that moved nothing
    assert_eq!(step(&mut w, WorkerEvent::Read(RespValue::Array(vec![]))), WorkerAction::Sleep(25));
}

#[test]
fn trims_on_schedule_once_something_was_handled() {
    let mut w = Worker::new(config("2"), Some("1000-0".to_string()));
    step(&mut w, WorkerEvent::Started);
    // iteration 1: not due
    assert_eq!(step(&mut w, WorkerEvent::Read(RespValue::Nil)), WorkerAction::Sleep(10));
    assert_eq!(step(&mut w, WorkerEvent::Done), xread("1000-0"));
    // iteration 2: due
    assert_eq!(step(&mut w, WorkerEvent::Read(RespValue::Nil)), WorkerAction::Sleep(10));
    assert_eq!(step(&mut w, WorkerEvent::Done), WorkerAction::ReadClock);
    let a = step(&mut w, WorkerEvent::Clock(10_000_000));
    assert_eq!(
        a,
        WorkerAction::Store(StoreCommand::XTrimMinId {
            stream: "videogen:jobs".to_string(),
            minid: "1000-0".to_string()
        })
    );
    assert_eq!(step(&mut w, WorkerEvent::Failed("NOPERM".to_string())), xread("1000-0"));
    assert_eq!(w.loop_count, 3);
}

#[test]
fn never_trims_at_the_start_position() {
    let mut w = Worker::new(config("1"), Some("0-0".to_string()));
    step(&mut w, WorkerEvent::Started);
    assert_eq!(step(&mut w, WorkerEvent::Read(RespValue::Nil)), WorkerAction::Sleep(10));
    assert_eq!(step(&mut w, WorkerEvent::Done), xread("0-0"));
}
