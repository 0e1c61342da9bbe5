//! The worker's settings, each read from an optional text with a fallback.
use vstd::prelude::*;
use crate::text::{parse_u64, parse_u64_spec, unsigned_digits, all_digits, digits_value};
use crate::store::text;

verus! {

/// What `s.parse::<usize>().ok()` gives: like `u64`, bounded by the width of `usize`.
pub open spec fn parse_usize_spec(s: Seq<char>) -> Option<usize> {
    let d = unsigned_digits(s);
    if d.len() > 0 && all_digits(d) && digits_value(d) <= usize::MAX {
        Some(digits_value(d) as usize)
    } else {
        None
    }
}

/// Parses a decimal `usize` as `s.parse::<usize>().ok()` does.
pub fn parse_usize(s: &str) -> (r: Option<usize>)
    ensures
        r == parse_usize_spec(s@),
{
    match parse_u64(s) {
        Some(v) => if v <= usize::MAX as u64 {
            Some(v as usize)
        } else {
            None
        },
        None => None,
    }
}

/// A text setting: its value when set, the default otherwise.
pub open spec fn text_setting(raw: Option<String>, default: Seq<char>) -> Seq<char> {
    match raw {
        Some(s) => s@,
        None => default,
    }
}

/// A number setting: its value when set and a valid number, the default otherwise.
pub open spec fn u64_setting(raw: Option<String>, default: u64) -> u64 {
    match raw {
        Some(s) => match parse_u64_spec(s@) {
            Some(v) => v,
            None => default,
        },
        None => default,
    }
}

/// A count setting: its value when set and a valid count, the default otherwise.
pub open spec fn usize_setting(raw: Option<String>, default: usize) -> usize {
    match raw {
        Some(s) => match parse_usize_spec(s@) {
            Some(v) => v,
            None => default,
        },
        None => default,
    }
}

/// The value of a text setting, or `default`.
pub fn text_or(raw: Option<String>, default: &str) -> (s: String)
    ensures
        s@ == text_setting(raw, default@),
{
    match raw {
        Some(s) => s,
        None => text(default),
    }
}

/// The value of a number setting, or `default` when unset or not a number.
pub fn u64_or(raw: &Option<String>, default: u64) -> (v: u64)
    ensures
        v == u64_setting(*raw, default),
        raw matches Some(s) ==> (parse_u64_spec(s@) matches Some(n) ==> v == n),
        raw matches Some(s) ==> (parse_u64_spec(s@) is None ==> v == default),
        raw is None ==> v == default,
{
    match raw {
        Some(s) => match parse_u64(s.as_str()) {
            Some(v) => v,
            None => default,
        },
        None => default,
    }
}

/// The value of a count setting, or `default` when unset or not a count.
pub fn usize_or(raw: &Option<String>, default: usize) -> (v: usize)
    ensures
        v == usize_setting(*raw, default),
        raw matches Some(s) ==> (parse_usize_spec(s@) matches Some(n) ==> v == n),
        raw matches Some(s) ==> (parse_usize_spec(s@) is None ==> v == default),
        raw is None ==> v == default,
{
    match raw {
        Some(s) => match parse_usize(s.as_str()) {
            Some(v) => v,
            None => default,
        },
        None => default,
    }
}

/// The raw texts of the settings, `None` where a setting is not given.
pub struct Settings {
    pub redis_url: Option<String>,
    pub jobs_stream: Option<String>,
    pub jobs_start_id: Option<String>,
    pub xread_block_ms: Option<String>,
    pub xread_count: Option<String>,
    pub trim_minutes: Option<String>,
    pub trim_every_loops: Option<String>,
    pub runner_timeout_s: Option<String>,
}

/// The worker's settings.
pub struct WorkerConfig {
    /// Where the store is.
    pub redis_url: String,
    /// The stream that carries the jobs.
    pub stream_name: String,
    /// Where to start reading when no position was kept: `$` for new entries only, `0-0` for
    /// the whole backlog.
    pub startup_id: String,
    /// How long one read waits for entries.
    pub block_ms: u64,
    /// How many entries one read fetches at most.
    pub count: usize,
    /// How many minutes of history the stream keeps.
    pub trim_minutes: u64,
    /// Trimming is tried on every this-many-th iteration.
    pub trim_every_n_loops: u64,
    /// Time limit of one job run, in seconds.
    pub runner_timeout_s: u64,
}

pub open spec fn default_redis_url() -> Seq<char> {
    "redis://redis:6379/0"@
}

pub open spec fn default_stream() -> Seq<char> {
    "videogen:jobs"@
}

pub open spec fn default_start_id() -> Seq<char> {
    "$"@
}

impl WorkerConfig {
    /// The settings, each from its raw text or its default: store `redis://redis:6379/0`,
    /// stream `videogen:jobs`, start `$`, reads of up to 10 entries waiting 5000 ms,
    /// 120 minutes of history trimmed every 80 iterations, runs limited to 600 s.
    pub fn from_settings(raw: Settings) -> (c: WorkerConfig)
        ensures
            c.redis_url@ == text_setting(raw.redis_url, default_redis_url()),
            c.stream_name@ == text_setting(raw.jobs_stream, default_stream()),
            c.startup_id@ == text_setting(raw.jobs_start_id, default_start_id()),
            c.block_ms == u64_setting(raw.xread_block_ms, 5000),
            c.count == usize_setting(raw.xread_count, 10),
            c.trim_minutes == u64_setting(raw.trim_minutes, 120),
            c.trim_every_n_loops == u64_setting(raw.trim_every_loops, 80),
            c.runner_timeout_s == u64_setting(raw.runner_timeout_s, 600),
    {
        let block_ms = u64_or(&raw.xread_block_ms, 5000);
        let count = usize_or(&raw.xread_count, 10);
        let trim_minutes = u64_or(&raw.trim_minutes, 120);
        let trim_every_n_loops = u64_or(&raw.trim_every_loops, 80);
        let runner_timeout_s = u64_or(&raw.runner_timeout_s, 600);
        WorkerConfig {
            redis_url: text_or(raw.redis_url, "redis://redis:6379/0"),
            stream_name: text_or(raw.jobs_stream, "videogen:jobs"),
            startup_id: text_or(raw.jobs_start_id, "$"),
            block_ms,
            count,
            trim_minutes,
            trim_every_n_loops,
            runner_timeout_s,
        }
    }
}


/// Law: a number setting that is given and parses (as `s.parse::<u64>()` does) is taken as
/// it is, whatever its value, zero included; one that is missing or does not parse gives the
/// default. The same holds of count settings, and a given text setting is taken as it is.
pub proof fn law_settings_take_given_values(s: String, d: u64, dc: usize, dt: Seq<char>)
    ensures
        parse_u64_spec(s@) matches Some(n) ==> u64_setting(Some(s), d) == n,
        parse_u64_spec(s@) is None ==> u64_setting(Some(s), d) == d,
        u64_setting(None, d) == d,
        parse_usize_spec(s@) matches Some(n) ==> usize_setting(Some(s), dc) == n,
        parse_usize_spec(s@) is None ==> usize_setting(Some(s), dc) == dc,
        usize_setting(None, dc) == dc,
        text_setting(Some(s), dt) == s@,
        text_setting(None, dt) == dt,
{
}

} // verus!
