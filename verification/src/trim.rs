//! Trimming the stream by a time watermark (`XTRIM MINID`), never past what was handled.
use vstd::prelude::*;
use crate::text::{
    before_dash, decimal, first_field, format_u64, law_decimal_round_trip,
    law_first_field_of_decimal_id, parse_u64, parse_u64_spec, same_text,
};

verus! {

/// Milliseconds in a minute.
pub const MS_PER_MINUTE: u64 = 60000;

/// Whether the read position says that nothing was handled yet (empty, or `0-0`): then the
/// stream is never trimmed.
pub open spec fn nothing_handled(last_id: Seq<char>) -> bool {
    last_id.len() == 0 || last_id == seq!['0', '-', '0']
}

/// The millisecond part of a stream id (`<ms>-<seq>`), 0 when it does not parse.
pub open spec fn id_millis(id: Seq<char>) -> nat {
    match parse_u64_spec(before_dash(id)) {
        Some(v) => v as nat,
        None => 0,
    }
}

/// The time watermark: `trim_minutes` before now, and 0 when that lies before the epoch.
pub open spec fn trim_cutoff(now_ms: u64, trim_minutes: u64) -> nat {
    let span = trim_minutes * MS_PER_MINUTE;
    if now_ms >= span {
        (now_ms - span) as nat
    } else {
        0
    }
}

/// The lowest id to keep when trimming: the older of the watermark and the last handled id;
/// the last handled id itself when it is the older. `None` when nothing is to be trimmed.
pub open spec fn trim_minid_spec(last_id: Seq<char>, now_ms: u64, trim_minutes: u64) -> Option<
    Seq<char>,
> {
    if nothing_handled(last_id) {
        None
    } else {
        let cutoff = trim_cutoff(now_ms, trim_minutes);
        let last_ms = id_millis(last_id);
        if last_ms == 0 {
            None
        } else {
            let target = if cutoff < last_ms { cutoff } else { last_ms };
            if target == 0 {
                None
            } else if target == last_ms {
                Some(last_id)
            } else {
                Some(decimal(target) + seq!['-', '0'])
            }
        }
    }
}

/// Whether the read position says that nothing was handled yet.
pub fn is_nothing_handled(last_id: &str) -> (b: bool)
    ensures
        b == nothing_handled(last_id@),
{
    proof {
        reveal_strlit("0-0");
        assert("0-0"@ =~= seq!['0', '-', '0']);
    }
    last_id.unicode_len() == 0 || same_text(last_id, "0-0")
}

/// The `MINID` for trimming the stream, given the last handled id, the clock and the
/// retention in minutes; `None` when nothing is to be trimmed.
pub fn trim_minid(last_id: &str, now_ms: u64, trim_minutes: u64) -> (r: Option<String>)
    requires
        !nothing_handled(last_id@) ==> trim_minutes * MS_PER_MINUTE <= u64::MAX,
    ensures
        match r {
            Some(m) => trim_minid_spec(last_id@, now_ms, trim_minutes) == Some(m@),
            None => trim_minid_spec(last_id@, now_ms, trim_minutes) is None,
        },
{
    if is_nothing_handled(last_id) {
        return None;
    }
    let cutoff_ms = now_ms.saturating_sub(trim_minutes * MS_PER_MINUTE);
    let last_ms = match parse_u64(first_field(last_id)) {
        Some(v) => v,
        None => 0,
    };
    if last_ms == 0 {
        return None;
    }
    let target_ms = if cutoff_ms < last_ms { cutoff_ms } else { last_ms };
    if target_ms == 0 {
        return None;
    }
    if target_ms == last_ms {
        Some(String::from_str(last_id))
    } else {
        let mut m = format_u64(target_ms);
        proof {
            reveal_strlit("-0");
        }
        m.append("-0");
        Some(m)
    }
}

/// Law: trimming never drops the last handled entry nor anything after it. The `MINID` is
/// never later than the last handled id, nor later than the watermark, and it is never
/// chosen while nothing was handled.
pub proof fn law_trim_keeps_unhandled(last_id: Seq<char>, now_ms: u64, trim_minutes: u64)
    ensures
        nothing_handled(last_id) ==> trim_minid_spec(last_id, now_ms, trim_minutes) is None,
        trim_minid_spec(last_id, now_ms, trim_minutes) matches Some(m) ==> {
            &&& 0 < id_millis(m) <= id_millis(last_id)
            &&& id_millis(m) <= trim_cutoff(now_ms, trim_minutes)
            &&& (id_millis(m) == id_millis(last_id) ==> m == last_id)
        },
{
    if let Some(m) = trim_minid_spec(last_id, now_ms, trim_minutes) {
        let cutoff = trim_cutoff(now_ms, trim_minutes);
        let last_ms = id_millis(last_id);
        let target = if cutoff < last_ms { cutoff } else { last_ms };
        if target != last_ms {
            assert(target <= last_ms <= u64::MAX);
            law_first_field_of_decimal_id(target as u64, seq!['0']);
            assert(m == decimal(target) + seq!['-'] + seq!['0']);
        }
    }
}


/// Law: a longer retention never trims more. When the stream is trimmed with the longer
/// retention `b`, it is trimmed with the shorter retention `a` too, and the `MINID` for `b`
/// is not later than the one for `a` (equal millisecond parts give the same `MINID`).
pub proof fn law_longer_retention_trims_less(
    last_id: Seq<char>,
    now_ms: u64,
    a: u64,
    b: u64,
)
    requires
        a <= b,
    ensures
        trim_minid_spec(last_id, now_ms, b) matches Some(mb) ==> {
            &&& trim_minid_spec(last_id, now_ms, a) matches Some(ma)
            &&& id_millis(mb) <= id_millis(ma)
            &&& (id_millis(mb) == id_millis(ma) ==> ma == mb)
        },
{
    if let Some(mb) = trim_minid_spec(last_id, now_ms, b) {
        assert(a * MS_PER_MINUTE <= b * MS_PER_MINUTE) by (nonlinear_arith)
            requires
                a <= b,
        ;
        assert(trim_cutoff(now_ms, a) >= trim_cutoff(now_ms, b));
        law_trim_keeps_unhandled(last_id, now_ms, a);
        law_trim_keeps_unhandled(last_id, now_ms, b);
        let ma = trim_minid_spec(last_id, now_ms, a)->0;
        let last_ms = id_millis(last_id);
        let ta = if trim_cutoff(now_ms, a) < last_ms { trim_cutoff(now_ms, a) } else { last_ms };
        let tb = if trim_cutoff(now_ms, b) < last_ms { trim_cutoff(now_ms, b) } else { last_ms };
        assert(tb <= ta);
        if ta != last_ms {
            assert(ta <= last_ms <= u64::MAX);
            law_first_field_of_decimal_id(ta as u64, seq!['0']);
            assert(ma == decimal(ta) + seq!['-'] + seq!['0']);
        }
        if tb != last_ms {
            assert(tb <= last_ms <= u64::MAX);
            law_first_field_of_decimal_id(tb as u64, seq!['0']);
            assert(mb == decimal(tb) + seq!['-'] + seq!['0']);
        }
    }
}


/// Law: the stream is trimmed exactly when something was handled (the position is neither
/// empty nor `0-0`), the millisecond part `L` of the position is a positive number, and the
/// older of the watermark (now minus the retention, 0 before the epoch) and `L` is positive.
/// The `MINID` then has that older time as its millisecond part, and is the position itself
/// when that time is `L`. This holds for every retention.
pub proof fn law_trim_happens_when_due(last_id: Seq<char>, now_ms: u64, trim_minutes: u64)
    ensures
        ({
            let handled = last_id.len() > 0 && last_id != seq!['0', '-', '0'];
            let l: int = match parse_u64_spec(before_dash(last_id)) {
                Some(v) => v as int,
                None => 0,
            };
            let span: int = trim_minutes as int * 60000;
            let cutoff: int = if now_ms as int >= span { now_ms as int - span } else { 0 };
            let target: int = if cutoff < l { cutoff } else { l };
            &&& trim_minid_spec(last_id, now_ms, trim_minutes) is Some <==> (handled && l > 0
                && target > 0)
            &&& trim_minid_spec(last_id, now_ms, trim_minutes) matches Some(m) ==> {
                &&& parse_u64_spec(before_dash(m)) == Some(target as u64)
                &&& (target == l ==> m == last_id)
            }
        }),
{
    if let Some(m) = trim_minid_spec(last_id, now_ms, trim_minutes) {
        let cutoff = trim_cutoff(now_ms, trim_minutes);
        let last_ms = id_millis(last_id);
        let target = if cutoff < last_ms { cutoff } else { last_ms };
        if target != last_ms {
            assert(target <= last_ms <= u64::MAX);
            law_first_field_of_decimal_id(target as u64, seq!['0']);
            assert(m == decimal(target) + seq!['-'] + seq!['0']);
        }
    }
}

} // verus!
