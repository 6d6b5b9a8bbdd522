use vstd::prelude::*;
use crate::cmd::cmd;
use crate::decode::FromWireValue;
use crate::err::{CusError, new_normal};
use crate::value::{WireValue, WireView, wire_view};
use crate::wrapper::ConnectionLike;

verus! {

/// Arguments for reading a span of a list.
pub struct LRangeArgs {
    pub name: String,
    pub start: i64,
    pub stop: i64,
    pub db: u8,
}

/// Reads the members of a list between two indexes, as text.
pub fn lrange<C: ConnectionLike>(args: LRangeArgs, conn: &mut C) -> (r: Result<
    Vec<String>,
    CusError,
>)
    ensures
        r matches Err(e) ==> (e matches CusError::Decode(_) || e matches CusError::Transport(_)),
{
    let mut c = cmd("lrange");
    c.arg_str(args.name.as_str());
    c.arg_i64(args.start);
    c.arg_i64(args.stop);
    match conn.req_packed_command(&c) {
        Ok(v) => <Vec<String> as FromWireValue>::from_wire_value(&v),
        Err(msg) => Err(CusError::Transport(msg)),
    }
}

/// Arguments for overwriting one member of a list.
pub struct LSetArgs {
    pub name: String,
    pub index: i64,
    pub value: String,
    pub db: u8,
}

/// Overwrites the member at an index and passes the acknowledgement through.
pub fn lset<C: ConnectionLike>(args: LSetArgs, conn: &mut C) -> (r: Result<String, CusError>)
    ensures
        r matches Err(e) ==> (e matches CusError::Decode(_) || e matches CusError::Transport(_)),
{
    let mut c = cmd("lset");
    c.arg_str(args.name.as_str());
    c.arg_i64(args.index);
    c.arg_str(args.value.as_str());
    match conn.req_packed_command(&c) {
        Ok(v) => <String as FromWireValue>::from_wire_value(&v),
        Err(msg) => Err(CusError::Transport(msg)),
    }
}

/// Arguments for trimming a list to a span.
pub struct LTrimArgs {
    pub name: String,
    pub db: u8,
    pub start: i64,
    pub stop: i64,
}

/// Trims a list to the span between two indexes.
pub fn ltrim<C: ConnectionLike>(args: LTrimArgs, conn: &mut C) -> (r: Result<String, CusError>)
    ensures
        r matches Err(e) ==> (e matches CusError::Decode(_) || e matches CusError::Transport(_)),
{
    let mut c = cmd("ltrim");
    c.arg_str(args.name.as_str());
    c.arg_i64(args.start);
    c.arg_i64(args.stop);
    match conn.req_packed_command(&c) {
        Ok(v) => <String as FromWireValue>::from_wire_value(&v),
        Err(msg) => Err(CusError::Transport(msg)),
    }
}

/// Arguments for inserting next to a pivot member.
pub struct InsertArgs {
    pub name: String,
    pub db: u8,
    pub types: String,
    pub value: String,
    pub pivot: String,
}

/// What LINSERT's reply means: zero means the key does not exist, minus one
/// that the pivot was not found, any other integer is the new length.
pub fn classify_linsert_reply(v: &WireValue) -> (r: Result<i64, CusError>)
    ensures
        match wire_view(*v) {
            WireView::Int(i) => if i == 0 {
                r matches Err(e) && e matches CusError::App(m) && (m@ == "key not exist"@)
            } else if i == -1 {
                r matches Err(e) && e matches CusError::App(m) && (m@
                    == "the pivot wasn't found."@)
            } else {
                r matches Ok(k) && k as int == i
            },
            _ => r matches Err(e) && e matches CusError::App(m) && (m@ == "something go wrong"@),
        },
{
    match v {
        WireValue::Int(i) => {
            if *i == 0 {
                Err(CusError::App(String::from_str("key not exist")))
            } else if *i == -1 {
                Err(CusError::App(String::from_str("the pivot wasn't found.")))
            } else {
                Ok(*i)
            }
        },
        _ => Err(new_normal()),
    }
}

/// Inserts a member before or after a pivot and classifies the answer.
pub fn linsert<C: ConnectionLike>(args: InsertArgs, conn: &mut C) -> (r: Result<i64, CusError>)
    ensures
        r matches Err(e) ==> (e matches CusError::App(_) || e matches CusError::Transport(_)),
{
    let mut c = cmd("linsert");
    c.arg_str(args.name.as_str());
    c.arg_str(args.types.as_str());
    c.arg_str(args.pivot.as_str());
    c.arg_str(args.value.as_str());
    match conn.req_packed_command(&c) {
        Ok(v) => classify_linsert_reply(&v),
        Err(msg) => Err(CusError::Transport(msg)),
    }
}

}
