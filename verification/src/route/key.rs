use vstd::prelude::*;
use vstd::string::StringExecFns;
use vstd::utf8::{valid_utf8, decode_utf8};
use crate::cmd::cmd;
use crate::err::{CusError, new_normal};
use crate::request::ScanResp;
use crate::strutil::{utf8_to_string, str_eq};
use crate::value::{
    CValue, WireValue, WireView, wire_view, wire_view_seq, build_view, text_view,
    lemma_wire_view_seq_elts,
};
use crate::wrapper::ConnectionLike;

verus! {

/// The display value carried by a key summary: the text of a string key,
/// or nothing.
#[derive(Debug)]
pub enum CusRedisValue {
    STRING(String),
    NONE(),
}

impl CusRedisValue {
    /// The display text: the string itself, or empty.
    pub fn text(&self) -> (r: String)
        ensures
            self matches CusRedisValue::STRING(s) ==> r@ == s@,
            self matches CusRedisValue::NONE() ==> r@.len() == 0,
    {
        match self {
            CusRedisValue::STRING(s) => s.clone(),
            CusRedisValue::NONE() => String::new(),
        }
    }
}

/// A summary of one key: its name, type, time to live, displayable value,
/// owning connection and database, and its memory use and length.
pub struct Key {
    pub name: String,
    pub types: String,
    pub ttl: i64,
    pub data: CusRedisValue,
    pub connection_id: u32,
    pub db: u8,
    pub memory: i64,
    pub length: i64,
}

/// Everything of a key summary except its time to live is unchanged.
pub open spec fn same_but_ttl(a: Key, b: Key) -> bool {
    a.name == b.name && a.types == b.types && a.connection_id == b.connection_id && a.db == b.db
        && a.memory == b.memory && a.length == b.length
}

impl Key {
    /// Builds a key summary by asking the store for the key's type and, when
    /// the key exists, its time to live, memory use and length.
    pub fn new<C: ConnectionLike>(name: String, db: u8, cid: u32, conn: &mut C) -> (r: Result<
        Key,
        CusError,
    >)
        ensures
            r matches Ok(k) ==> k.name@ == name@ && k.connection_id == cid && k.db == db,
    {
        let mut key = Key {
            name,
            types: String::new(),
            ttl: -2,
            data: CusRedisValue::NONE(),
            connection_id: cid,
            db,
            memory: 0,
            length: 0,
        };
        let mut c = cmd("type");
        c.arg_str(key.name.as_str());
        match conn.req_packed_command(&c) {
            Ok(WireValue::Status(t)) => {
                key.types = t;
            },
            Ok(_) => {},
            Err(msg) => {
                return Err(CusError::Transport(msg));
            },
        }
        if !key.is_none() {
            key.get_ttl(conn)?;
            key.get_memory(conn)?;
            key.get_length(conn)?;
        }
        Ok(key)
    }

    /// Reads the key's time to live; only that field may change.
    pub fn get_ttl<C: ConnectionLike>(&mut self, conn: &mut C) -> (r: Result<(), CusError>)
        ensures
            same_but_ttl(*final(self), *old(self)),
            final(self).data == old(self).data,
    {
        let mut c = cmd("ttl");
        c.arg_str(self.name.as_str());
        match conn.req_packed_command(&c) {
            Ok(WireValue::Int(i)) => {
                self.ttl = i;
                Ok(())
            },
            Ok(_) => Err(CusError::Decode(String::from_str("ttl reply is not an integer"))),
            Err(msg) => Err(CusError::Transport(msg)),
        }
    }

    /// Reads the key's memory use; only that field may change, and an
    /// unexpected reply shape leaves it as it was.
    pub fn get_memory<C: ConnectionLike>(&mut self, conn: &mut C) -> (r: Result<(), CusError>)
        ensures
            final(self).name == old(self).name,
            final(self).types == old(self).types,
            final(self).ttl == old(self).ttl,
            final(self).data == old(self).data,
            final(self).connection_id == old(self).connection_id,
            final(self).db == old(self).db,
            final(self).length == old(self).length,
    {
        let mut c = cmd("memory");
        c.arg_str("usage");
        c.arg_str(self.name.as_str());
        c.arg_str("SAMPLES");
        c.arg_str("0");
        match conn.req_packed_command(&c) {
            Ok(WireValue::Int(i)) => {
                self.memory = i;
                Ok(())
            },
            Ok(_) => Ok(()),
            Err(msg) => Err(CusError::Transport(msg)),
        }
    }

    /// Reads the key's length with the counting command its type calls for
    /// (STRLEN, HLEN, LLEN, SCARD or ZCARD); a key of any other type is left
    /// untouched. Only the length field may change.
    pub fn get_length<C: ConnectionLike>(&mut self, conn: &mut C) -> (r: Result<(), CusError>)
        ensures
            final(self).name == old(self).name,
            final(self).types == old(self).types,
            final(self).ttl == old(self).ttl,
            final(self).data == old(self).data,
            final(self).connection_id == old(self).connection_id,
            final(self).db == old(self).db,
            final(self).memory == old(self).memory,
    {
        let len_cmd: Option<&str> = if str_eq(self.types.as_str(), "string") {
            Some("STRLEN")
        } else if str_eq(self.types.as_str(), "hash") {
            Some("HLEN")
        } else if str_eq(self.types.as_str(), "list") {
            Some("LLEN")
        } else if str_eq(self.types.as_str(), "set") {
            Some("SCARD")
        } else if str_eq(self.types.as_str(), "zset") {
            Some("ZCARD")
        } else {
            None
        };
        match len_cmd {
            Some(name) => {
                let mut c = cmd(name);
                c.arg_str(self.name.as_str());
                match conn.req_packed_command(&c) {
                    Ok(WireValue::Int(i)) => {
                        self.length = i;
                        Ok(())
                    },
                    Ok(_) => Ok(()),
                    Err(msg) => Err(CusError::Transport(msg)),
                }
            },
            None => Ok(()),
        }
    }

    /// Reads a string key's value into the summary's display field.
    pub fn get_string_value<C: ConnectionLike>(&mut self, conn: &mut C) -> (r: Result<
        (),
        CusError,
    >)
        ensures
            final(self).name == old(self).name,
            final(self).types == old(self).types,
            final(self).ttl == old(self).ttl,
            final(self).connection_id == old(self).connection_id,
            final(self).db == old(self).db,
            final(self).memory == old(self).memory,
            final(self).length == old(self).length,
            r is Ok ==> final(self).data is STRING,
    {
        let mut c = cmd("get");
        c.arg_str(self.name.as_str());
        match conn.req_packed_command(&c) {
            Ok(WireValue::Data(b)) => {
                match utf8_to_string(&b) {
                    Some(s) => {
                        self.data = CusRedisValue::STRING(s);
                        Ok(())
                    },
                    None => Err(
                        CusError::Decode(String::from_str("value holds non-text bytes")),
                    ),
                }
            },
            Ok(_) => Err(CusError::Decode(String::from_str("value is not a string"))),
            Err(msg) => Err(CusError::Transport(msg)),
        }
    }

    /// Whether the store reported that the key does not exist.
    pub fn is_none(&self) -> (r: bool)
        ensures
            r == (self.types@ == "none"@),
    {
        str_eq(self.types.as_str(), "none")
    }
}

/// Arguments of a whole-database key scan.
pub struct ScanArgs {
    pub cursor: String,
    pub search: String,
    pub db: u8,
}

/// The cursor a scan reply carries: the text of its first member when that
/// member is a text payload, else "0".
pub open spec fn scan_cursor_view(ws: Seq<WireView>) -> Seq<char> {
    if ws.len() < 1 {
        "0"@
    } else {
        match ws[0] {
            WireView::Data(b) => if valid_utf8(b) {
                decode_utf8(b)
            } else {
                "0"@
            },
            _ => "0"@,
        }
    }
}

/// The flattened texts of a list of replies, one per member, nothing
/// dropped: a member of any shape appears as its normalized text.
pub open spec fn texts_of(ks: Seq<WireView>) -> Seq<Seq<char>>
    decreases ks,
{
    if ks.len() == 0 {
        Seq::empty()
    } else {
        seq![text_view(build_view(ks[0]))] + texts_of(ks.drop_first())
    }
}

pub proof fn lemma_texts_of_elts(ks: Seq<WireView>)
    ensures
        texts_of(ks).len() == ks.len(),
        forall|i: int| 0 <= i < ks.len() ==> texts_of(ks)[i] == text_view(build_view(ks[i])),
    decreases ks.len(),
{
    if ks.len() > 0 {
        lemma_texts_of_elts(ks.drop_first());
    }
}

/// The keys a scan reply carries: the texts of the members of its second
/// member, when that member is a list.
pub open spec fn scan_keys_view(ws: Seq<WireView>) -> Seq<Seq<char>> {
    if ws.len() < 2 {
        Seq::empty()
    } else {
        match ws[1] {
            WireView::Bulk(ks) => texts_of(ks),
            _ => Seq::empty(),
        }
    }
}

/// Reads a scan reply — a list of cursor and key page — into a scan result.
/// Succeeds exactly on list replies; every key of the page appears, as its
/// normalized text.
#[verifier::loop_isolation(false)]
pub fn parse_scan_reply(v: &WireValue) -> (r: Result<ScanResp<String>, CusError>)
    ensures
        r matches Ok(resp) ==> wire_view(*v) matches WireView::Bulk(ws) && resp.cursor@
            == scan_cursor_view(ws) && resp.keys@.map_values(|s: String| s@) == scan_keys_view(ws),
        r matches Err(e) ==> {
            &&& !(wire_view(*v) matches WireView::Bulk(_))
            &&& e matches CusError::App(m) && (m@ == "something go wrong"@)
        },
{
    match v {
        WireValue::Bulk(items) => {
            let ghost gitems = items@;
            proof {
                lemma_wire_view_seq_elts(gitems);
            }
            let mut cursor = String::from_str("0");
            if items.len() >= 1 {
                match &items[0] {
                    WireValue::Data(b) => {
                        match utf8_to_string(b) {
                            Some(t) => {
                                cursor = t;
                            },
                            None => {},
                        }
                    },
                    _ => {},
                }
            }
            let mut keys: Vec<String> = Vec::new();
            if items.len() >= 2 {
                match &items[1] {
                    WireValue::Bulk(ks) => {
                        let ghost gks = ks@;
                        proof {
                            lemma_wire_view_seq_elts(gks);
                            lemma_texts_of_elts(wire_view_seq(gks));
                        }
                        let n = ks.len();
                        let mut i: usize = 0;
                        while i < n
                            invariant
                                keys@.len() == i,
                                i <= n,
                                forall|j: int|
                                    0 <= j < i ==> #[trigger] keys@[j]@ == text_view(
                                        build_view(wire_view(gks[j])),
                                    ),
                            decreases n - i,
                        {
                            let t = CValue::build_of(&ks[i]).text();
                            keys.push(t);
                            i = i + 1;
                        }
                        proof {
                            assert(keys@.map_values(|s: String| s@) =~= texts_of(
                                wire_view_seq(gks),
                            ));
                        }
                    },
                    _ => {},
                }
            }
            proof {
                let ws = wire_view_seq(gitems);
                if gitems.len() >= 2 {
                    assert(ws[1] == wire_view(gitems[1]));
                }
                if gitems.len() >= 1 {
                    assert(ws[0] == wire_view(gitems[0]));
                }
                assert(keys@.map_values(|s: String| s@) =~= scan_keys_view(ws));
            }
            Ok(ScanResp { cursor, keys })
        },
        _ => Err(new_normal()),
    }
}

/// Scans one page of key names: issues SCAN with the caller's cursor, a page
/// size of one hundred, and — when a search text is given — a contains-style
/// MATCH pattern, then reads the reply into a scan result.
pub fn scan<C: ConnectionLike>(args: ScanArgs, conn: &mut C) -> (r: Result<
    ScanResp<String>,
    CusError,
>)
    ensures
        r matches Err(e) ==> (e matches CusError::App(_) || e matches CusError::Transport(_)),
{
    let mut c = cmd("scan");
    c.arg_str(args.cursor.as_str());
    c.arg_str("count");
    c.arg_str("100");
    if !str_eq(args.search.as_str(), "") {
        let mut pattern = String::from_str("*");
        pattern.append(args.search.as_str());
        pattern.append("*");
        c.arg_str("MATCH");
        c.arg_str(pattern.as_str());
    }
    match conn.req_packed_command(&c) {
        Ok(v) => parse_scan_reply(&v),
        Err(msg) => Err(CusError::Transport(msg)),
    }
}

/// Arguments for reading one key.
pub struct GetArgs {
    pub name: String,
    pub db: u8,
}

/// Reads one key's summary: selects the database, builds the summary, fails
/// for a key that does not exist, and loads a string key's value.
pub fn get<C: ConnectionLike>(args: GetArgs, cid: u32, conn: &mut C) -> (r: Result<Key, CusError>)
    ensures
        r matches Ok(k) ==> k.name@ == args.name@ && k.db == args.db && k.connection_id == cid && (
        k.types@ == "none"@) == false,
{
    let mut sel = cmd("select");
    sel.arg_i64(args.db as i64);
    match conn.req_packed_command(&sel) {
        Ok(_) => {},
        Err(msg) => {
            return Err(CusError::Transport(msg));
        },
    }
    let mut key = Key::new(args.name, args.db, cid, conn)?;
    if key.is_none() {
        let mut m = key.name.clone();
        m.append(" is not exist");
        return Err(CusError::App(m));
    }
    if str_eq(key.types.as_str(), "string") {
        key.get_string_value(conn)?;
    }
    Ok(key)
}

/// Arguments for deleting keys.
pub struct DelArgs {
    pub names: Vec<String>,
    pub db: u8,
}

/// What DEL's reply means: the number of removed keys, from an integer
/// reply; any other shape is a malfunction.
pub fn classify_del_reply(v: &WireValue) -> (r: Result<i64, CusError>)
    ensures
        match wire_view(*v) {
            WireView::Int(i) => r matches Ok(k) && k as int == i,
            _ => r matches Err(e) && e matches CusError::App(m) && (m@ == "something go wrong"@),
        },
{
    match v {
        WireValue::Int(i) => Ok(*i),
        _ => Err(new_normal()),
    }
}

/// Deletes the named keys and reports how many the store removed.
pub fn del<C: ConnectionLike>(args: DelArgs, conn: &mut C) -> (r: Result<i64, CusError>)
    ensures
        r matches Err(e) ==> (e matches CusError::App(_) || e matches CusError::Transport(_)),
{
    let mut c = cmd("del");
    let mut i: usize = 0;
    let n = args.names.len();
    while i < n
        invariant
            i <= n,
            n == args.names@.len(),
        decreases n - i,
    {
        c.arg_str(args.names[i].as_str());
        i = i + 1;
    }
    match conn.req_packed_command(&c) {
        Ok(v) => classify_del_reply(&v),
        Err(msg) => Err(CusError::Transport(msg)),
    }
}

/// Arguments for setting a key's time to live.
pub struct ExpireArgs {
    pub name: String,
    pub ttl: i64,
    pub db: u8,
}

/// What EXPIRE's reply means: one is success, zero means the arguments were
/// invalid, and anything else is a malfunction.
pub fn classify_expire_reply(v: &WireValue) -> (r: Result<i64, CusError>)
    ensures
        match wire_view(*v) {
            WireView::Int(i) => if i == 1 {
                r matches Ok(k) && k == 1
            } else if i == 0 {
                r matches Err(e) && e matches CusError::App(m) && (m@ == "invalid args"@)
            } else {
                r matches Err(e) && e matches CusError::App(m) && (m@ == "something go wrong"@)
            },
            _ => r matches Err(e) && e matches CusError::App(m) && (m@ == "something go wrong"@),
        },
{
    match v {
        WireValue::Int(i) => {
            if *i == 1 {
                Ok(1)
            } else if *i == 0 {
                Err(CusError::App(String::from_str("invalid args")))
            } else {
                Err(new_normal())
            }
        },
        _ => Err(new_normal()),
    }
}

/// Sets a key's time to live and classifies the store's answer.
pub fn expire<C: ConnectionLike>(args: ExpireArgs, conn: &mut C) -> (r: Result<i64, CusError>)
    ensures
        r matches Ok(k) ==> k == 1,
        r matches Err(e) ==> (e matches CusError::App(_) || e matches CusError::Transport(_)),
{
    let mut c = cmd("expire");
    c.arg_str(args.name.as_str());
    c.arg_i64(args.ttl);
    match conn.req_packed_command(&c) {
        Ok(v) => classify_expire_reply(&v),
        Err(msg) => Err(CusError::Transport(msg)),
    }
}

/// Arguments for renaming a key.
pub struct RenameArgs {
    pub name: String,
    pub new_name: String,
    pub db: u8,
}

/// What RENAME's reply means: only the acknowledgement is success.
pub fn classify_rename_reply(v: &WireValue) -> (r: Result<String, CusError>)
    ensures
        match wire_view(*v) {
            WireView::Okay => r matches Ok(s) && s@ == "OK"@,
            _ => r matches Err(e) && e matches CusError::App(m) && (m@ == "something go wrong"@),
        },
{
    match v {
        WireValue::Okay => Ok(String::from_str("OK")),
        _ => Err(new_normal()),
    }
}

/// Renames a key and classifies the store's answer.
pub fn rename<C: ConnectionLike>(args: RenameArgs, conn: &mut C) -> (r: Result<String, CusError>)
    ensures
        r matches Ok(s) ==> s@ == "OK"@,
        r matches Err(e) ==> (e matches CusError::App(_) || e matches CusError::Transport(_)),
{
    let mut c = cmd("rename");
    c.arg_str(args.name.as_str());
    c.arg_str(args.new_name.as_str());
    match conn.req_packed_command(&c) {
        Ok(v) => classify_rename_reply(&v),
        Err(msg) => Err(CusError::Transport(msg)),
    }
}

/// Arguments for creating a key of a given type.
pub struct AddArgs {
    pub name: String,
    pub types: String,
    pub db: u8,
}

/// Creating a key is not carried out for any type: every call reports the
/// general failure.
pub fn add<C: ConnectionLike>(args: AddArgs, conn: &mut C) -> (r: Result<String, CusError>)
    ensures
        r matches Err(e) && e matches CusError::App(m) && (m@ == "something go wrong"@),
{
    Err(new_normal())
}

}
