use vstd::prelude::*;
use vstd::string::StringExecFns;
use vstd::utf8::encode_utf8;
use crate::cmd::cmd;
use crate::request::EventResp;
use crate::strutil::eq_ignore_ascii_case_spec;
use crate::util::random_str;
use crate::value::{CValue, WireView, wire_view, cvalue_view, build_view};
use crate::wrapper::ConnectionLike;

verus! {

/// The two event names a terminal session listens and answers on.
pub struct OpenArgs {
    pub send: String,
    pub receive: String,
}

impl OpenArgs {
    /// A pair of fresh event names.
    pub fn new() -> (r: OpenArgs)
        ensures
            r.send@.len() == 32,
            r.receive@.len() == 32,
    {
        OpenArgs { send: random_str(), receive: random_str() }
    }
}

/// Opens a terminal session: picks the fresh pair of event names the
/// session will exchange lines on. Listening and emitting on them is the
/// windowing layer's part; every line it receives is answered through
/// `cmd_handle`.
pub fn open() -> (r: OpenArgs)
    ensures
        r.send@.len() == 32,
        r.receive@.len() == 32,
{
    OpenArgs::new()
}

/// Whether a command name is one of the continuous commands a terminal
/// session refuses, compared without regard to ASCII case.
pub open spec fn refused_command(name: Seq<char>) -> bool {
    eq_ignore_ascii_case_spec(encode_utf8(name), encode_utf8("monitor"@))
        || eq_ignore_ascii_case_spec(encode_utf8(name), encode_utf8("subscribe"@))
}

/// Handles one terminal line, already split into words: an empty line and a
/// refused command are answered without touching the wire; any other line
/// becomes a command whose normalized reply — or failure text — is the
/// event's payload.
pub fn cmd_handle<C: ConnectionLike>(cmd_vec: &Vec<String>, conn: &mut C) -> (r: EventResp<CValue>)
    ensures
        cmd_vec@.len() == 0 ==> {
            &&& !r.success
            &&& r.data matches CValue::Str(s) && (s@ == "invalid args"@)
        },
        cmd_vec@.len() > 0 && refused_command(cmd_vec@[0]@) ==> {
            &&& !r.success
            &&& r.data matches CValue::Str(s) && (s@ == "not support this command"@)
        },
        r.success ==> exists|wv: WireView| cvalue_view(r.data) == build_view(wv),
{
    if cmd_vec.len() == 0 {
        return EventResp {
            data: CValue::Str(String::from_str("invalid args")),
            success: false,
            event: String::new(),
        };
    }
    let first = &cmd_vec[0];
    let refused = crate::strutil::eq_ignore_ascii_case_bytes(
        first.as_str().as_bytes(),
        "monitor".as_bytes(),
    ) || crate::strutil::eq_ignore_ascii_case_bytes(
        first.as_str().as_bytes(),
        "subscribe".as_bytes(),
    );
    if refused {
        return EventResp {
            data: CValue::Str(String::from_str("not support this command")),
            success: false,
            event: String::new(),
        };
    }
    let mut c = cmd(first.as_str());
    let mut i: usize = 1;
    let n = cmd_vec.len();
    while i < n
        invariant
            1 <= i <= n,
            n == cmd_vec@.len(),
        decreases n - i,
    {
        c.arg_str(cmd_vec[i].as_str());
        i = i + 1;
    }
    match conn.req_packed_command(&c) {
        Ok(v) => {
            let ghost gv = v;
            let built = CValue::build(v);
            proof {
                assert(cvalue_view(built) == build_view(wire_view(gv)));
            }
            EventResp { data: built, success: true, event: String::new() }
        },
        Err(msg) => EventResp { data: CValue::Str(msg), success: false, event: String::new() },
    }
}

}
