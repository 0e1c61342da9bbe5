//! The wall clock, in milliseconds since the Unix epoch.
use vstd::prelude::*;

verus! {

/// The system clock's reading.
#[verifier::external_type_specification]
#[verifier::external_body]
pub struct ExSystemTime(std::time::SystemTime);

/// Calls `SystemTime::now`. What it returns depends on the time; nothing is claimed of it.
#[verifier::external_body]
fn system_now() -> std::time::SystemTime {
    std::time::SystemTime::now()
}

/// Calls `SystemTime::duration_since(UNIX_EPOCH)` and gives the duration as whole seconds
/// and the nanoseconds below a second, `None` when the reading lies before the epoch. The
/// only claim is the documented one that the nanoseconds are below one billion.
#[verifier::external_body]
fn since_unix_epoch(t: &std::time::SystemTime) -> (r: Option<(u64, u32)>)
    ensures
        r matches Some(p) ==> p.1 < 1_000_000_000,
{
    match t.duration_since(std::time::UNIX_EPOCH) {
        Ok(d) => Some((d.as_secs(), d.subsec_nanos())),
        Err(_) => None,
    }
}

/// The whole milliseconds of a duration given as seconds and nanoseconds, cut to 64 bits;
/// 0 for no duration.
pub open spec fn millis_of(p: Option<(u64, u32)>) -> u64 {
    match p {
        Some((secs, nanos)) => ((secs as nat * 1000 + nanos as nat / 1_000_000)
            % 0x1_0000_0000_0000_0000) as u64,
        None => 0,
    }
}

/// The whole milliseconds of a duration given as seconds and nanoseconds, cut to 64 bits
/// (as `as_millis() as u64` does); 0 for no duration.
pub fn millis_since_epoch(p: Option<(u64, u32)>) -> (ms: u64)
    ensures
        ms == millis_of(p),
{
    match p {
        Some((secs, nanos)) => {
            let total: u128 = (secs as u128) * 1000 + (nanos / 1_000_000) as u128;
            (total % 0x1_0000_0000_0000_0000u128) as u64
        },
        None => 0,
    }
}

/// The wall clock in milliseconds since the Unix epoch; 0 when it reads before the epoch.
pub fn now_ms() -> u64 {
    millis_since_epoch(since_unix_epoch(&system_now()))
}

} // verus!
