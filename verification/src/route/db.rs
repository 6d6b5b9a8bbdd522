use vstd::prelude::*;
use crate::cmd::cmd;
use crate::err::CusError;
use crate::value::{WireValue, WireView, wire_view};
use crate::wrapper::ConnectionLike;

verus! {

/// Arguments for counting a database's keys.
pub struct DBSizeArgs {
    pub db: u8,
}

/// What DBSIZE's reply means: the key count, from an integer reply.
pub fn classify_dbsize_reply(v: &WireValue) -> (r: Result<i64, CusError>)
    ensures
        match wire_view(*v) {
            WireView::Int(i) => r matches Ok(k) && k as int == i,
            _ => r matches Err(e) && e matches CusError::Decode(_),
        },
{
    match v {
        WireValue::Int(i) => Ok(*i),
        _ => Err(CusError::Decode(String::from_str("reply is not an integer"))),
    }
}

/// Counts the keys of the selected database.
pub fn dbsize<C: ConnectionLike>(args: DBSizeArgs, conn: &mut C) -> (r: Result<i64, CusError>)
    ensures
        r matches Err(e) ==> (e matches CusError::Decode(_) || e matches CusError::Transport(_)),
{
    let c = cmd("dbsize");
    match conn.req_packed_command(&c) {
        Ok(v) => classify_dbsize_reply(&v),
        Err(msg) => Err(CusError::Transport(msg)),
    }
}

}
