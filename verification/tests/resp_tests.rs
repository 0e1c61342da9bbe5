use rust_worker::resp::{as_bulk, as_data, stored_string, RespValue};
use rust_worker::stream::{job_id_of_fields, stream_read_items, StreamItem};

fn bulk(s: &str) -> RespValue {
    RespValue::BulkString(s.as_bytes().to_vec())
}

fn entry(id: RespValue, fields: Vec<RespValue>) -> RespValue {
    RespValue::Array(vec![id, RespValue::Array(fields)])
}

fn item(id: &str, jid: &str) -> StreamItem {
    StreamItem::Entry { entry_id: id.to_string(), jid: jid.to_string() }
}

fn same_items(a: &[StreamItem], b: &[StreamItem]) -> bool {
    a.len() == b.len()
        && a.iter().zip(b.iter()).all(|(x, y)| match (x, y) {
            (StreamItem::MissingId, StreamItem::MissingId) => true,
            (
                StreamItem::Entry { entry_id: i1, jid: j1 },
                StreamItem::Entry { entry_id: i2, jid: j2 },
            ) => i1 == i2 && j1 == j2,
            _ => false,
        })
}

#[test]
fn reads_arrays_and_strings() {
    let v = RespValue::Array(vec![RespValue::Nil, bulk("x")]);
    assert_eq!(as_bulk(&v).map(|b| b.len()), Some(2));
    assert!(as_bulk(&bulk("x")).is_none());
    assert_eq!(as_data(&bulk("ab")), Some(&b"ab"[..]));
    assert_eq!(as_data(&RespValue::SimpleString("ok".to_string())), Some(&b"ok"[..]));
    assert!(as_data(&RespValue::Int(3)).is_none());
    assert!(as_data(&RespValue::Okay).is_none());
    assert!(as_data(&RespValue::Nil).is_none());
}

#[test]
fn reads_stored_strings() {
    assert_eq!(stored_string(Some(bulk("1700000000000-0"))), Some("1700000000000-0".to_string()));
    assert_eq!(
        stored_string(Some(RespValue::BulkString(vec![0x61, 0xfe]))),
        Some("a\u{FFFD}".to_string())
    );
    assert_eq!(stored_string(Some(RespValue::SimpleString("s".to_string()))), Some("s".to_string()));
    assert_eq!(stored_string(Some(RespValue::Okay)), Some("OK".to_string()));
    assert_eq!(stored_string(Some(RespValue::Nil)), None);
    assert_eq!(stored_string(Some(RespValue::Int(5))), None);
    assert_eq!(stored_string(None), None);
}

#[test]
fn finds_the_last_id_field() {
    let kv = vec![bulk("prompt"), bulk("a cat"), bulk("id"), bulk("j1"), bulk("id"), bulk("j2")];
    assert_eq!(job_id_of_fields(&kv), "j2");
    let odd = vec![bulk("id"), bulk("j1"), bulk("id")];
    assert_eq!(job_id_of_fields(&odd), "j1");
    let not_strings = vec![bulk("id"), RespValue::Int(4)];
    assert_eq!(job_id_of_fields(&not_strings), "");
    let simple = vec![RespValue::SimpleString("id".to_string()), RespValue::SimpleString("s1".to_string())];
    assert_eq!(job_id_of_fields(&simple), "s1");
    assert_eq!(job_id_of_fields(&vec![]), "");
}

#[test]
fn decodes_a_stream_read() {
    let stream1 = RespValue::Array(vec![
        bulk("videogen:jobs"),
        RespValue::Array(vec![
            entry(bulk("1-0"), vec![bulk("id"), bulk("a")]),
            RespValue::Int(3),
            entry(RespValue::Nil, vec![bulk("id"), bulk("b")]),
            entry(bulk("2-0"), vec![bulk("prompt"), bulk("p")]),
            RespValue::Array(vec![bulk("3-0")]),
        ]),
    ]);
    let not_a_pair = RespValue::Array(vec![bulk("other")]);
    let stream2 = RespValue::Array(vec![
        bulk("videogen:jobs"),
        RespValue::Array(vec![entry(bulk("4-0"), vec![bulk("id"), bulk("d")])]),
    ]);
    let reply = RespValue::Array(vec![stream1, bulk("noise"), not_a_pair, stream2]);
    let items = stream_read_items(&reply).unwrap();
    let expected = vec![
        item("1-0", "a"),
        StreamItem::MissingId,
        item("2-0", ""),
        item("3-0", ""),
        item("4-0", "d"),
    ];
    assert!(same_items(&items, &expected));
}

#[test]
fn a_read_that_timed_out_has_no_items() {
    assert!(stream_read_items(&RespValue::Nil).is_none());
    let empty = stream_read_items(&RespValue::Array(vec![])).unwrap();
    assert!(empty.is_empty());
}

#[test]
fn entries_without_id_are_marked_missing() {
    let reply = RespValue::Array(vec![RespValue::Array(vec![
        bulk("s"),
        RespValue::Array(vec![
            entry(bulk(""), vec![bulk("id"), bulk("x")]),
            RespValue::Array(vec![]),
        ]),
    ])]);
    let items = stream_read_items(&reply).unwrap();
    assert!(same_items(&items, &[StreamItem::MissingId, StreamItem::MissingId]));
}
