//! Decoding the reply of a stream read into the entries that the worker handles.
//!
//! The reply has the shape `[[stream, [[id, [k, v, k, v, ...]], ...]], ...]`. Anything of
//! another shape is passed over without failing.
use vstd::prelude::*;
use crate::decode::{text_of_bytes, try_string_from_bytes};
use crate::resp::{as_bulk, as_data, bulk_of, data_of, RespValue};

verus! {

/// One entry of a stream read, as the worker sees it.
#[derive(Debug, PartialEq, Eq)]
pub enum StreamItem {
    /// The entry has no usable id; it is passed over and never moves the read position.
    MissingId,
    /// An entry with its id and the job id found among its fields (empty when absent).
    Entry { entry_id: String, jid: String },
}

/// The plain-value view of a `StreamItem`.
pub enum ItemView {
    MissingId,
    Entry { entry_id: Seq<char>, jid: Seq<char> },
}

impl View for StreamItem {
    type V = ItemView;

    open spec fn view(&self) -> ItemView {
        match self {
            StreamItem::MissingId => ItemView::MissingId,
            StreamItem::Entry { entry_id, jid } => ItemView::Entry {
                entry_id: entry_id@,
                jid: jid@,
            },
        }
    }
}

/// The views of a sequence of items.
pub open spec fn item_views(items: Seq<StreamItem>) -> Seq<ItemView> {
    items.map_values(|x: StreamItem| x@)
}

/// The bytes of the field name `id`.
pub open spec fn id_field() -> Seq<u8> {
    seq![105u8, 100u8]
}

/// The job id after looking at the first `k` field pairs: the value of the last pair named
/// `id` whose name and value are both strings; empty when there is none.
pub open spec fn jid_scan(kv: Seq<RespValue>, k: nat) -> Seq<char>
    decreases k,
{
    if k == 0 {
        Seq::empty()
    } else {
        let i = 2 * (k - 1);
        if i + 1 < kv.len() && data_of(kv[i]) == Some(id_field()) && data_of(kv[i + 1]) is Some {
            text_of_bytes(data_of(kv[i + 1])->0)
        } else {
            jid_scan(kv, (k - 1) as nat)
        }
    }
}

/// The number of field pairs that a scan of `n` fields looks at (the last may be unpaired).
pub open spec fn pair_count(n: nat) -> nat {
    (n + 1) / 2
}

/// The job id held in the fields of an entry (its second part), empty when absent.
pub open spec fn jid_of_parts(parts: Seq<RespValue>) -> Seq<char> {
    if parts.len() > 1 {
        match bulk_of(parts[1]) {
            Some(kv) => jid_scan(kv, pair_count(kv.len())),
            None => Seq::empty(),
        }
    } else {
        Seq::empty()
    }
}

/// The id of an entry (its first part), empty when absent or not a string.
pub open spec fn entry_id_of_parts(parts: Seq<RespValue>) -> Seq<char> {
    if parts.len() > 0 {
        match data_of(parts[0]) {
            Some(b) => text_of_bytes(b),
            None => Seq::empty(),
        }
    } else {
        Seq::empty()
    }
}

/// What one entry of the reply contributes: nothing when it is not an array, `MissingId`
/// when its id is empty, and otherwise the entry with its job id.
pub open spec fn entry_items(ev: RespValue) -> Seq<ItemView> {
    match bulk_of(ev) {
        None => Seq::empty(),
        Some(parts) => {
            let id = entry_id_of_parts(parts);
            if id.len() == 0 {
                seq![ItemView::MissingId]
            } else {
                seq![ItemView::Entry { entry_id: id, jid: jid_of_parts(parts) }]
            }
        },
    }
}

/// The items of the first `k` entries of a stream.
pub open spec fn entries_items(entries: Seq<RespValue>, k: nat) -> Seq<ItemView>
    decreases k,
{
    if k == 0 || k > entries.len() {
        Seq::empty()
    } else {
        entries_items(entries, (k - 1) as nat) + entry_items(entries[k - 1])
    }
}

/// The items of one stream of the reply: a stream is a pair of its name and its entries;
/// anything else contributes nothing.
pub open spec fn stream_items(s: RespValue) -> Seq<ItemView> {
    match bulk_of(s) {
        Some(parts) => if parts.len() == 2 {
            match bulk_of(parts[1]) {
                Some(entries) => entries_items(entries, entries.len()),
                None => Seq::empty(),
            }
        } else {
            Seq::empty()
        },
        None => Seq::empty(),
    }
}

/// The items of the first `k` streams of the reply, in order.
pub open spec fn streams_items(streams: Seq<RespValue>, k: nat) -> Seq<ItemView>
    decreases k,
{
    if k == 0 || k > streams.len() {
        Seq::empty()
    } else {
        streams_items(streams, (k - 1) as nat) + stream_items(streams[k - 1])
    }
}

/// The items of a stream read: `None` when the reply is not an array (no entries arrived
/// before the read timed out).
pub open spec fn xread_items(v: RespValue) -> Option<Seq<ItemView>> {
    match bulk_of(v) {
        Some(streams) => Some(streams_items(streams, streams.len())),
        None => None,
    }
}

fn bytes_are_id(b: &[u8]) -> (r: bool)
    ensures
        r == (b@ == id_field()),
{
    if b.len() == 2 && b[0] == 105u8 && b[1] == 100u8 {
        assert(b@ =~= id_field());
        true
    } else {
        false
    }
}

/// Finds the job id among the fields `[k, v, k, v, ...]` of an entry: the value of the
/// last field named `id`.
pub fn job_id_of_fields(kv: &Vec<RespValue>) -> (jid: String)
    ensures
        jid@ == jid_scan(kv@, pair_count(kv@.len())),
{
    let mut jid = String::new();
    let n: usize = kv.len();
    let pairs: usize = n / 2 + n % 2;
    assert(pairs == pair_count(kv@.len()));
    let mut k: usize = 0;
    while k < pairs
        invariant
            pairs == pair_count(kv@.len()),
            n == kv@.len(),
            2 * pairs <= n + 1,
            k <= pairs,
            jid@ == jid_scan(kv@, k as nat),
        decreases pairs - k,
    {
        let i: usize = 2 * k;
        if i + 1 < kv.len() {
            match (as_data(&kv[i]), as_data(&kv[i + 1])) {
                (Some(kb), Some(vb)) => {
                    if bytes_are_id(kb) {
                        jid = try_string_from_bytes(vb);
                    }
                },
                _ => {},
            }
        }
        k = k + 1;
    }
    jid
}

/// Decodes one entry of a stream read, as the worker's read loop does.
pub fn entry_item(ev: &RespValue) -> (r: Option<StreamItem>)
    ensures
        match r {
            Some(item) => entry_items(*ev) == seq![item@],
            None => entry_items(*ev) == Seq::<ItemView>::empty(),
        },
{
    let parts = match as_bulk(ev) {
        Some(p) => p,
        None => return None,
    };
    let entry_id = if parts.len() > 0 {
        match as_data(&parts[0]) {
            Some(b) => try_string_from_bytes(b),
            None => String::new(),
        }
    } else {
        String::new()
    };
    if entry_id.unicode_len() == 0 {
        return Some(StreamItem::MissingId);
    }
    let jid = if parts.len() > 1 {
        match as_bulk(&parts[1]) {
            Some(kv) => job_id_of_fields(kv),
            None => String::new(),
        }
    } else {
        String::new()
    };
    Some(StreamItem::Entry { entry_id, jid })
}

/// Decodes the reply of a stream read into its items, stream by stream and entry by entry;
/// `None` when the reply is not an array.
pub fn stream_read_items(v: &RespValue) -> (r: Option<Vec<StreamItem>>)
    ensures
        match r {
            Some(items) => xread_items(*v) == Some(item_views(items@)),
            None => xread_items(*v) is None,
        },
{
    let streams = match as_bulk(v) {
        Some(s) => s,
        None => return None,
    };
    let mut items: Vec<StreamItem> = Vec::new();
    let mut i: usize = 0;
    while i < streams.len()
        invariant
            i <= streams@.len(),
            item_views(items@) == streams_items(streams@, i as nat),
        decreases streams.len() - i,
    {
        let ghost before = items@;
        if let Some(parts) = as_bulk(&streams[i]) {
            if parts.len() == 2 {
                if let Some(entries) = as_bulk(&parts[1]) {
                    let mut j: usize = 0;
                    while j < entries.len()
                        invariant
                            j <= entries@.len(),
                            item_views(items@) == item_views(before) + entries_items(
                                entries@,
                                j as nat,
                            ),
                        decreases entries.len() - j,
                    {
                        let ghost mid = items@;
                        if let Some(item) = entry_item(&entries[j]) {
                            items.push(item);
                            assert(item_views(items@) =~= item_views(mid) + entry_items(
                                entries@[j as int],
                            ));
                        } else {
                            assert(item_views(items@) =~= item_views(mid) + entry_items(
                                entries@[j as int],
                            ));
                        }
                        j = j + 1;
                        assert(item_views(items@) =~= item_views(before) + entries_items(
                            entries@,
                            j as nat,
                        ));
                    }
                }
            }
        }
        i = i + 1;
        assert(item_views(items@) =~= streams_items(streams@, i as nat));
    }
    Some(items)
}


/// Every `Entry` item has a nonempty id.
pub open spec fn entries_have_ids(items: Seq<ItemView>) -> bool {
    forall|i: int|
        0 <= i < items.len() ==> (#[trigger] items[i] matches ItemView::Entry { entry_id, .. }
            ==> entry_id.len() > 0)
}

proof fn lemma_entries_items_have_ids(entries: Seq<RespValue>, k: nat)
    ensures
        entries_have_ids(entries_items(entries, k)),
    decreases k,
{
    if k > 0 && k <= entries.len() {
        lemma_entries_items_have_ids(entries, (k - 1) as nat);
        let a = entries_items(entries, (k - 1) as nat);
        let b = entry_items(entries[k - 1]);
        assert forall|i: int| 0 <= i < (a + b).len() implies (#[trigger] (a + b)[i] matches ItemView::Entry { entry_id, .. }
            ==> entry_id.len() > 0) by {
            if i >= a.len() {
                assert((a + b)[i] == b[i - a.len()]);
            } else {
                assert((a + b)[i] == a[i]);
            }
        }
    }
}

proof fn lemma_streams_items_have_ids(streams: Seq<RespValue>, k: nat)
    ensures
        entries_have_ids(streams_items(streams, k)),
    decreases k,
{
    if k > 0 && k <= streams.len() {
        lemma_streams_items_have_ids(streams, (k - 1) as nat);
        let a = streams_items(streams, (k - 1) as nat);
        let b = stream_items(streams[k - 1]);
        match bulk_of(streams[k - 1]) {
            Some(parts) => if parts.len() == 2 {
                match bulk_of(parts[1]) {
                    Some(entries) => lemma_entries_items_have_ids(entries, entries.len()),
                    None => {},
                }
            },
            None => {},
        }
        assert forall|i: int| 0 <= i < (a + b).len() implies (#[trigger] (a + b)[i] matches ItemView::Entry { entry_id, .. }
            ==> entry_id.len() > 0) by {
            if i >= a.len() {
                assert((a + b)[i] == b[i - a.len()]);
            } else {
                assert((a + b)[i] == a[i]);
            }
        }
    }
}

/// Law: a stream read never yields an entry with an empty id; entries whose id is missing
/// come out as `MissingId`, which never becomes the read position.
pub proof fn law_read_entries_have_ids(v: RespValue)
    ensures
        xread_items(v) matches Some(items) ==> entries_have_ids(items),
{
    if let Some(streams) = bulk_of(v) {
        lemma_streams_items_have_ids(streams, streams.len());
    }
}


/// Whether the fields at `i` and `i + 1` are a pair named `id` whose value is a string.
pub open spec fn id_pair_at(kv: Seq<RespValue>, i: int) -> bool {
    &&& 0 <= i
    &&& i + 1 < kv.len()
    &&& data_of(kv[i]) == Some(seq![105u8, 100u8])
    &&& data_of(kv[i + 1]) is Some
}

proof fn lemma_jid_after_last_id_pair(kv: Seq<RespValue>, i: int, k: nat)
    requires
        i % 2 == 0,
        id_pair_at(kv, i),
        forall|j: int| i < j && j % 2 == 0 ==> !id_pair_at(kv, j),
        i / 2 + 1 <= k,
    ensures
        jid_scan(kv, k) == text_of_bytes(data_of(kv[i + 1])->0),
    decreases k,
{
    if k > i / 2 + 1 {
        let j = 2 * (k - 1);
        assert(j % 2 == 0 && j > i);
        assert(!id_pair_at(kv, j));
        lemma_jid_after_last_id_pair(kv, i, (k - 1) as nat);
    } else {
        assert(2 * (k - 1) == i);
    }
}

proof fn lemma_jid_without_id_pair(kv: Seq<RespValue>, k: nat)
    requires
        forall|j: int| j % 2 == 0 ==> !id_pair_at(kv, j),
    ensures
        jid_scan(kv, k) == Seq::<char>::empty(),
    decreases k,
{
    if k > 0 {
        let j = 2 * (k - 1);
        assert(j % 2 == 0);
        assert(!id_pair_at(kv, j));
        lemma_jid_without_id_pair(kv, (k - 1) as nat);
    }
}

/// Law: the job id of an entry is the whole decoded value of its last field pair named `id`
/// (pairs start at even positions; name and value must be strings), and empty when there is
/// no such pair.
pub proof fn law_job_id_is_last_id_value(kv: Seq<RespValue>, i: int)
    ensures
        i % 2 == 0 && id_pair_at(kv, i) && (forall|j: int|
            i < j && j % 2 == 0 ==> !id_pair_at(kv, j)) ==> jid_scan(kv, pair_count(kv.len()))
            == text_of_bytes(data_of(kv[i + 1])->0),
        (forall|j: int| j % 2 == 0 ==> !id_pair_at(kv, j)) ==> jid_scan(
            kv,
            pair_count(kv.len()),
        ) == Seq::<char>::empty(),
{
    if i % 2 == 0 && id_pair_at(kv, i) && (forall|j: int|
        i < j && j % 2 == 0 ==> !id_pair_at(kv, j)) {
        assert(i / 2 + 1 <= pair_count(kv.len()));
        lemma_jid_after_last_id_pair(kv, i, pair_count(kv.len()));
    }
    if forall|j: int| j % 2 == 0 ==> !id_pair_at(kv, j) {
        lemma_jid_without_id_pair(kv, pair_count(kv.len()));
    }
}

} // verus!
