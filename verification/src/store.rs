//! The keys and commands through which the worker keeps its state in the store.
use vstd::prelude::*;

verus! {

/// Key under which the last handled stream id is kept.
pub const LAST_ID_KEY: &'static str = "videogen:last_id";

/// Namespace of the processing checkpoints.
pub const PROCESSING_KEY_NS: &'static str = "videogen:processing";

/// Namespace of the completed markers (also the legacy set of completed entry ids).
pub const COMPLETED_KEY_NS: &'static str = "videogen:completed";

/// Processing checkpoints expire after a day.
pub const PROCESSING_TTL_SECS: i64 = 86400;

/// Completed markers are kept for a week.
pub const COMPLETED_TTL_SECS: u64 = 604800;

/// A command for the store, with its arguments as text.
#[derive(Debug, PartialEq, Eq)]
pub enum StoreCommand {
    /// `EXISTS key`, answered by a flag.
    Exists { key: String },
    /// `SISMEMBER key member`, answered by a flag.
    SIsMember { key: String, member: String },
    /// `HSET key field value`.
    HSet { key: String, field: String, value: String },
    /// `HGET key field`, answered by the field's text, if any.
    HGet { key: String, field: String },
    /// `EXPIRE key seconds`, answered by a flag.
    Expire { key: String, seconds: i64 },
    /// `SETEX key seconds value`.
    SetEx { key: String, value: String, expiry_secs: u64 },
    /// `DEL key`.
    Del { key: String },
    /// `SET key value`.
    SetValue { key: String, value: String },
    /// `XTRIM stream MINID ~ minid`: drop entries older than `minid` (approximately).
    XTrimMinId { stream: String, minid: String },
}

/// The plain-value view of a `StoreCommand`.
pub enum CommandView {
    Exists { key: Seq<char> },
    SIsMember { key: Seq<char>, member: Seq<char> },
    HSet { key: Seq<char>, field: Seq<char>, value: Seq<char> },
    HGet { key: Seq<char>, field: Seq<char> },
    Expire { key: Seq<char>, seconds: i64 },
    SetEx { key: Seq<char>, value: Seq<char>, expiry_secs: u64 },
    Del { key: Seq<char> },
    SetValue { key: Seq<char>, value: Seq<char> },
    XTrimMinId { stream: Seq<char>, minid: Seq<char> },
}

impl View for StoreCommand {
    type V = CommandView;

    open spec fn view(&self) -> CommandView {
        match self {
            StoreCommand::Exists { key } => CommandView::Exists { key: key@ },
            StoreCommand::SIsMember { key, member } => CommandView::SIsMember {
                key: key@,
                member: member@,
            },
            StoreCommand::HSet { key, field, value } => CommandView::HSet {
                key: key@,
                field: field@,
                value: value@,
            },
            StoreCommand::HGet { key, field } => CommandView::HGet { key: key@, field: field@ },
            StoreCommand::Expire { key, seconds } => CommandView::Expire {
                key: key@,
                seconds: *seconds,
            },
            StoreCommand::SetEx { key, value, expiry_secs } => CommandView::SetEx {
                key: key@,
                value: value@,
                expiry_secs: *expiry_secs,
            },
            StoreCommand::Del { key } => CommandView::Del { key: key@ },
            StoreCommand::SetValue { key, value } => CommandView::SetValue { key: key@, value: value@ },
            StoreCommand::XTrimMinId { stream, minid } => CommandView::XTrimMinId {
                stream: stream@,
                minid: minid@,
            },
        }
    }
}

/// The key `<namespace>:<id>`.
pub open spec fn namespaced(ns: Seq<char>, id: Seq<char>) -> Seq<char> {
    ns + seq![':'] + id
}

/// The key of the processing checkpoint of an entry.
pub open spec fn processing_key_of(entry_id: Seq<char>) -> Seq<char> {
    namespaced(PROCESSING_KEY_NS@, entry_id)
}

/// The key of the completed marker of an entry.
pub open spec fn completed_key_of(entry_id: Seq<char>) -> Seq<char> {
    namespaced(COMPLETED_KEY_NS@, entry_id)
}

/// The key of the hash that describes a job.
pub open spec fn job_key_of(jid: Seq<char>) -> Seq<char> {
    namespaced(seq!['j', 'o', 'b'], jid)
}

fn namespaced_key(ns: &str, id: &str) -> (key: String)
    ensures
        key@ == namespaced(ns@, id@),
{
    proof {
        reveal_strlit(":");
    }
    String::from_str(ns).concat(":").concat(id)
}

/// `videogen:processing:<entry_id>`.
pub fn processing_key(entry_id: &str) -> (key: String)
    ensures
        key@ == processing_key_of(entry_id@),
{
    namespaced_key(PROCESSING_KEY_NS, entry_id)
}

/// `videogen:completed:<entry_id>`.
pub fn completed_key(entry_id: &str) -> (key: String)
    ensures
        key@ == completed_key_of(entry_id@),
{
    namespaced_key(COMPLETED_KEY_NS, entry_id)
}

/// `job:<jid>`.
pub fn job_key(jid: &str) -> (key: String)
    ensures
        key@ == job_key_of(jid@),
{
    proof {
        reveal_strlit("job");
    }
    namespaced_key("job", jid)
}

/// A text given by a literal.
pub fn text(s: &str) -> (r: String)
    ensures
        r@ == s@,
{
    String::from_str(s)
}

} // verus!
