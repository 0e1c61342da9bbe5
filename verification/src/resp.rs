//! The replies of the store, as the worker reads them, and the decoding of a stream read.
use vstd::prelude::*;
use vstd::utf8::encode_utf8;
use crate::decode::{text_of_bytes, try_string_from_bytes};

verus! {

/// A reply of the store, holding as plain values what the worker reads of it.
/// Replies of any other kind are `Other`.
#[derive(Debug, PartialEq, Eq)]
pub enum RespValue {
    Nil,
    Int(i64),
    BulkString(Vec<u8>),
    Array(Vec<RespValue>),
    SimpleString(String),
    Okay,
    Other,
}

/// The items of an array reply; `None` for any other reply.
pub open spec fn bulk_of(v: RespValue) -> Option<Seq<RespValue>> {
    match v {
        RespValue::Array(items) => Some(items@),
        _ => None,
    }
}

/// The bytes of a string reply (bulk or simple); `None` for any other reply.
pub open spec fn data_of(v: RespValue) -> Option<Seq<u8>> {
    match v {
        RespValue::BulkString(b) => Some(b@),
        RespValue::SimpleString(s) => Some(encode_utf8(s@)),
        _ => None,
    }
}

/// The items of an array reply.
pub fn as_bulk(v: &RespValue) -> (r: Option<&Vec<RespValue>>)
    ensures
        match r {
            Some(items) => bulk_of(*v) == Some(items@),
            None => bulk_of(*v) is None,
        },
{
    match v {
        RespValue::Array(b) => Some(b),
        _ => None,
    }
}

/// The bytes of a bulk or simple string reply.
pub fn as_data(v: &RespValue) -> (r: Option<&[u8]>)
    ensures
        match r {
            Some(bytes) => data_of(*v) == Some(bytes@),
            None => data_of(*v) is None,
        },
{
    match v {
        RespValue::BulkString(b) => Some(b.as_slice()),
        RespValue::SimpleString(s) => Some(s.as_str().as_bytes()),
        _ => None,
    }
}

/// The text that a stored value reads as: bulk bytes decoded, a simple string as it is,
/// `OK` for the OK status; `None` for a missing value or any other reply.
pub open spec fn stored_text(v: Option<RespValue>) -> Option<Seq<char>> {
    match v {
        Some(RespValue::BulkString(b)) => Some(text_of_bytes(b@)),
        Some(RespValue::SimpleString(s)) => Some(s@),
        Some(RespValue::Okay) => Some(seq!['O', 'K']),
        _ => None,
    }
}

/// Reads a stored value as text; `None` when it is missing or of another kind.
pub fn stored_string(v: Option<RespValue>) -> (r: Option<String>)
    ensures
        match r {
            Some(s) => stored_text(v) == Some(s@),
            None => stored_text(v) is None,
        },
{
    match v {
        Some(RespValue::BulkString(b)) => Some(try_string_from_bytes(b.as_slice())),
        Some(RespValue::SimpleString(s)) => Some(s),
        Some(RespValue::Okay) => {
            proof {
                reveal_strlit("OK");
            }
            Some(String::from_str("OK"))
        },
        _ => None,
    }
}

} // verus!
