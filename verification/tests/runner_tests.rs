use rust_worker::runner::{Runner, RunnerAction, RunnerError, RunnerEvent, RunnerStage};
use rust_worker::store::StoreCommand;

fn result_url_read(jid: &str) -> RunnerAction {
    RunnerAction::Store(StoreCommand::HGet {
        key: format!("job:{}", jid),
        field: "result_url".to_string(),
    })
}

fn spawn(jid: &str) -> RunnerAction {
    RunnerAction::Spawn {
        program: "python3".to_string(),
        script: "/app/model_runner.py".to_string(),
        jid: jid.to_string(),
    }
}

#[test]
fn job_with_a_result_is_not_run_again() {
    let (mut r, a) = Runner::start("j1".to_string(), 600);
    assert_eq!(a, result_url_read("j1"));
    let a = r.step(RunnerEvent::Text(Some("s3://bucket/v.mp4".to_string())));
    assert_eq!(a, RunnerAction::Finish(Ok(())));
    assert!(r.is_finished());
}

#[test]
fn empty_result_url_does_not_count() {
    let (mut r, _) = Runner::start("j1".to_string(), 600);
    assert_eq!(r.step(RunnerEvent::Text(Some(String::new()))), spawn("j1"));
    let (mut r, _) = Runner::start("j1".to_string(), 600);
    assert_eq!(r.step(RunnerEvent::Text(None)), spawn("j1"));
}

#[test]
fn successful_run_with_result() {
    let (mut r, _) = Runner::start("j2".to_string(), 600);
    assert_eq!(r.step(RunnerEvent::Text(None)), spawn("j2"));
    assert_eq!(r.step(RunnerEvent::Spawned), RunnerAction::Poll);
    assert_eq!(r.step(RunnerEvent::Running { elapsed_secs: 0 }), RunnerAction::Sleep(100));
    assert_eq!(r.step(RunnerEvent::Done), RunnerAction::Poll);
    assert_eq!(r.step(RunnerEvent::Exited { success: true, code: Some(0) }), result_url_read("j2"));
    assert_eq!(r.step(RunnerEvent::Text(Some("url".to_string()))), RunnerAction::Finish(Ok(())));
}

#[test]
fn successful_run_without_result_fails() {
    let (mut r, _) = Runner::start("j2".to_string(), 600);
    r.step(RunnerEvent::Text(None));
    r.step(RunnerEvent::Spawned);
    r.step(RunnerEvent::Exited { success: true, code: Some(0) });
    let a = r.step(RunnerEvent::Text(None));
    assert_eq!(a, RunnerAction::Finish(Err(RunnerError::NoResultUrl)));
}

#[test]
fn spawn_failure() {
    let (mut r, _) = Runner::start("j3".to_string(), 600);
    r.step(RunnerEvent::Text(None));
    assert_eq!(r.step(RunnerEvent::SpawnFailed), RunnerAction::Finish(Err(RunnerError::SpawnFailed)));
}

#[test]
fn exit_failure_keeps_the_code() {
    let (mut r, _) = Runner::start("j4".to_string(), 600);
    r.step(RunnerEvent::Text(None));
    r.step(RunnerEvent::Spawned);
    let a = r.step(RunnerEvent::Exited { success: false, code: Some(2) });
    assert_eq!(a, RunnerAction::Finish(Err(RunnerError::ExitStatus(Some(2)))));
}

#[test]
fn timeout_kills_the_runner() {
    let (mut r, _) = Runner::start("j5".to_string(), 30);
    r.step(RunnerEvent::Text(None));
    r.step(RunnerEvent::Spawned);
    assert_eq!(r.step(RunnerEvent::Running { elapsed_secs: 29 }), RunnerAction::Sleep(100));
    assert_eq!(r.step(RunnerEvent::Done), RunnerAction::Poll);
    assert_eq!(r.step(RunnerEvent::Running { elapsed_secs: 30 }), RunnerAction::Kill);
    assert_eq!(r.stage, RunnerStage::KillingTimeout);
    assert_eq!(r.step(RunnerEvent::Done), RunnerAction::Finish(Err(RunnerError::Timeout(30))));
}

#[test]
fn wait_error_kills_the_runner() {
    let (mut r, _) = Runner::start("j6".to_string(), 30);
    r.step(RunnerEvent::Text(None));
    r.step(RunnerEvent::Spawned);
    assert_eq!(r.step(RunnerEvent::WaitFailed("boom".to_string())), RunnerAction::Kill);
    assert_eq!(
        r.step(RunnerEvent::Done),
        RunnerAction::Finish(Err(RunnerError::WaitFailed("boom".to_string())))
    );
}

#[test]
fn failure_messages() {
    assert_eq!(RunnerError::SpawnFailed.message(), "failed to spawn python runner");
    assert_eq!(
        RunnerError::ExitStatus(Some(2)).message(),
        "python runner failed with status Some(2)"
    );
    assert_eq!(
        RunnerError::ExitStatus(Some(-9)).message(),
        format!("python runner failed with status {:?}", Some(-9))
    );
    assert_eq!(RunnerError::ExitStatus(None).message(), "python runner failed with status None");
    assert_eq!(RunnerError::Timeout(600).message(), "python runner timeout after 600s");
    assert_eq!(
        RunnerError::WaitFailed("broken pipe".to_string()).message(),
        "python runner wait error: broken pipe"
    );
    assert_eq!(RunnerError::NoResultUrl.message(), "no result_url set by runner");
}
