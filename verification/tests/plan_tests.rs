use rust_worker::backoff::ConnectBackoff;
use rust_worker::config::{parse_usize, Settings, WorkerConfig};
use rust_worker::store::{completed_key, job_key, processing_key};
use rust_worker::trim::{is_nothing_handled, trim_minid};

fn no_settings() -> Settings {
    Settings {
        redis_url: None,
        jobs_stream: None,
        jobs_start_id: None,
        xread_block_ms: None,
        xread_count: None,
        trim_minutes: None,
        trim_every_loops: None,
        runner_timeout_s: None,
    }
}

#[test]
fn builds_store_keys() {
    assert_eq!(processing_key("1-0"), "videogen:processing:1-0");
    assert_eq!(completed_key("1-0"), "videogen:completed:1-0");
    assert_eq!(job_key("abc"), "job:abc");
}

#[test]
fn backoff_doubles_up_to_five_seconds() {
    let mut b = ConnectBackoff::new();
    let mut sleeps = Vec::new();
    loop {
        match b.after_failure() {
            Some(ms) => sleeps.push(ms),
            None => break,
        }
    }
    assert_eq!(sleeps, vec![200, 400, 800, 1600, 3200, 5000, 5000, 5000]);
    assert_eq!(b.failures, 9);
}

#[test]
fn never_trims_before_anything_was_handled() {
    assert!(is_nothing_handled(""));
    assert!(is_nothing_handled("0-0"));
    assert!(!is_nothing_handled("$"));
    assert_eq!(trim_minid("", 10_000_000, 1), None);
    assert_eq!(trim_minid("0-0", 10_000_000, 1), None);
}

#[test]
fn trims_to_the_older_of_watermark_and_position() {
    // watermark 10_000_000 - 60_000 = 9_940_000, later than the position: keep the position
    assert_eq!(trim_minid("1000-3", 10_000_000, 1), Some("1000-3".to_string()));
    // watermark earlier than the position
    assert_eq!(
        trim_minid("9999999999999-3", 10_000_000_000_000, 120),
        Some("9999992800000-0".to_string())
    );
    // a position that equals the watermark keeps its own id
    assert_eq!(trim_minid("9940000-7", 10_000_000, 1), Some("9940000-7".to_string()));
}

#[test]
fn does_not_trim_on_unreadable_positions_or_early_clocks() {
    assert_eq!(trim_minid("$", 10_000_000, 1), None);
    assert_eq!(trim_minid("abc-1", 10_000_000, 1), None);
    assert_eq!(trim_minid("0-5", 10_000_000, 1), None);
    // the watermark lies before the epoch: saturates to 0
    assert_eq!(trim_minid("5000-0", 1000, 1), None);
    // without a dash the whole text is the millisecond part
    assert_eq!(trim_minid("1000", 10_000_000, 1), Some("1000".to_string()));
}

#[test]
fn settings_fall_back_to_defaults() {
    let c = WorkerConfig::from_settings(no_settings());
    assert_eq!(c.redis_url, "redis://redis:6379/0");
    assert_eq!(c.stream_name, "videogen:jobs");
    assert_eq!(c.startup_id, "$");
    assert_eq!(c.block_ms, 5000);
    assert_eq!(c.count, 10);
    assert_eq!(c.trim_minutes, 120);
    assert_eq!(c.trim_every_n_loops, 80);
    assert_eq!(c.runner_timeout_s, 600);
}

#[test]
fn settings_take_valid_values() {
    let mut s = no_settings();
    s.redis_url = Some("redis://localhost/1".to_string());
    s.jobs_stream = Some("jobs".to_string());
    s.jobs_start_id = Some("0-0".to_string());
    s.xread_block_ms = Some("+100".to_string());
    s.xread_count = Some("abc".to_string());
    s.trim_minutes = Some("-5".to_string());
    s.trim_every_loops = Some("3".to_string());
    s.runner_timeout_s = Some("".to_string());
    let c = WorkerConfig::from_settings(s);
    assert_eq!(c.redis_url, "redis://localhost/1");
    assert_eq!(c.stream_name, "jobs");
    assert_eq!(c.startup_id, "0-0");
    assert_eq!(c.block_ms, 100);
    assert_eq!(c.count, 10);
    assert_eq!(c.trim_minutes, 120);
    assert_eq!(c.trim_every_n_loops, 3);
    assert_eq!(c.runner_timeout_s, 600);
}

#[test]
fn parses_counts() {
    assert_eq!(parse_usize("12"), Some(12));
    assert_eq!(parse_usize("x"), None);
    assert_eq!(parse_usize("18446744073709551616"), None);
}

#[test]
fn huge_retention_is_fine_before_anything_was_handled() {
    assert_eq!(trim_minid("", 10_000_000, u64::MAX), None);
    assert_eq!(trim_minid("0-0", 10_000_000, u64::MAX), None);
}

#[test]
fn longer_retention_never_trims_more() {
    let last = "9999999999999-3";
    let now = 10_000_000_000_000;
    let short = trim_minid(last, now, 60).unwrap();
    let long = trim_minid(last, now, 120).unwrap();
    assert_eq!(short, "9999996400000-0");
    assert_eq!(long, "9999992800000-0");
    // a retention so long that the watermark lies before the epoch trims nothing
    assert_eq!(trim_minid(last, now, 200_000_000), None);
    assert!(trim_minid(last, now, 1).is_some());
}
