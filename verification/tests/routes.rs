use redis_core::cmd::Cmd;
use redis_core::conn::{ConnectedParam, Connection, ConnectionParams};
use redis_core::err::CusError;
use redis_core::request::{CommonValueArgs, FieldValueArgs, FieldValueItem, ItemScanArgs, NameArgs};
use redis_core::route::db::{classify_dbsize_reply, dbsize, DBSizeArgs};
use redis_core::route::hash::{hdel, hexists, hget, hincrby, hscan, hset, hvals};
use redis_core::route::key::{
    classify_del_reply, classify_expire_reply, classify_rename_reply, del, expire, get,
    parse_scan_reply, rename, scan, add, AddArgs, DelArgs, ExpireArgs, GetArgs, Key, RenameArgs,
    ScanArgs, CusRedisValue,
};
use redis_core::route::list::{classify_linsert_reply, linsert, lrange, lset, ltrim, InsertArgs, LRangeArgs, LSetArgs, LTrimArgs};
use redis_core::route::terminal::{cmd_handle, open, OpenArgs};
use redis_core::value::{CValue, WireValue};
use redis_core::wrapper::{Command, ConnectionLike, ConnectionWrapper};

fn data(s: &str) -> WireValue {
    WireValue::Data(s.as_bytes().to_vec())
}

/// A transport that replays a scripted list of replies, in order, and keeps
/// the audit text of every command it saw.
struct ScriptedTransport {
    replies: Vec<Option<Result<WireValue, String>>>,
    next: usize,
    seen: Vec<String>,
}

impl ScriptedTransport {
    fn new(replies: Vec<Result<WireValue, String>>) -> Self {
        ScriptedTransport {
            replies: replies.into_iter().map(Some).collect(),
            next: 0,
            seen: Vec::new(),
        }
    }
}

impl ConnectionLike for ScriptedTransport {
    fn req_packed_command(&mut self, cmd: &Cmd) -> Result<WireValue, String> {
        self.seen.push(cmd.render());
        let r = self.replies[self.next].take().unwrap();
        self.next += 1;
        r
    }
    fn req_packed_commands(
        &mut self,
        _cmds: &Vec<Cmd>,
        _offset: usize,
        _count: usize,
    ) -> Result<Vec<WireValue>, String> {
        Err("not scripted".to_string())
    }
    fn get_db(&self) -> i64 {
        0
    }
}

fn wrapper_with(
    transport: ScriptedTransport,
) -> ConnectionWrapper<ScriptedTransport> {
    let conn = Connection::new(ConnectionParams {
        redis_params: ConnectedParam {
            tcp_host: "127.0.0.1".to_string(),
            tcp_port: 6379,
            username: None,
            password: None,
        },
        ssh_params: None,
        is_cluster: false,
    });
    ConnectionWrapper::build(conn, Ok(transport)).unwrap()
}

#[test]
fn key_summary_is_assembled_from_replies() {
    let mut t = ScriptedTransport::new(vec![
        Ok(WireValue::Status("string".to_string())),
        Ok(WireValue::Int(42)),
        Ok(WireValue::Int(96)),
        Ok(WireValue::Int(3)),
    ]);
    let k = Key::new("foo".to_string(), 2, 7, &mut t).unwrap();
    assert_eq!(k.name, "foo");
    assert_eq!(k.types, "string");
    assert_eq!(k.ttl, 42);
    assert_eq!(k.memory, 96);
    assert_eq!(k.length, 3);
    assert_eq!(k.connection_id, 7);
    assert_eq!(k.db, 2);
    assert!(!k.is_none());
    assert_eq!(t.seen[0], "type foo");
    assert_eq!(t.seen[1], "ttl foo");
    assert_eq!(t.seen[2], "memory usage foo SAMPLES 0");
    assert_eq!(t.seen[3], "STRLEN foo");
}

#[test]
fn missing_key_is_reported() {
    let mut t = ScriptedTransport::new(vec![
        Ok(WireValue::Okay),
        Ok(WireValue::Status("none".to_string())),
    ]);
    let r = get(GetArgs { name: "gone".to_string(), db: 0 }, 1, &mut t);
    match r.err().unwrap() {
        CusError::App(m) => assert_eq!(m, "gone is not exist"),
        _ => panic!("a missing key is an application error"),
    }
}

#[test]
fn string_key_value_is_loaded() {
    let mut t = ScriptedTransport::new(vec![
        Ok(WireValue::Okay),
        Ok(WireValue::Status("string".to_string())),
        Ok(WireValue::Int(10)),
        Ok(WireValue::Int(64)),
        Ok(WireValue::Int(5)),
        Ok(data("hello")),
    ]);
    let k = get(GetArgs { name: "greeting".to_string(), db: 1 }, 3, &mut t).unwrap();
    match &k.data {
        CusRedisValue::STRING(s) => assert_eq!(s, "hello"),
        CusRedisValue::NONE() => panic!("the string value must be loaded"),
    }
    assert_eq!(k.data.text(), "hello");
    assert_eq!(t.seen[0], "select 1");
}

#[test]
fn scan_reply_parses_cursor_and_keys() {
    let reply = WireValue::Bulk(vec![
        data("17"),
        WireValue::Bulk(vec![data("alpha"), data("beta"), WireValue::Data(vec![0xff])]),
    ]);
    let resp = parse_scan_reply(&reply).unwrap();
    assert_eq!(resp.cursor, "17");
    assert_eq!(resp.keys, vec!["alpha".to_string(), "beta".to_string(), "\\xff".to_string()]);

    assert!(parse_scan_reply(&WireValue::Nil).is_err());
}

#[test]
fn scan_builds_match_pattern() {
    let mut t = ScriptedTransport::new(vec![Ok(WireValue::Bulk(vec![
        data("0"),
        WireValue::Bulk(vec![]),
    ]))]);
    let resp = scan(
        ScanArgs { cursor: "0".to_string(), search: "user".to_string(), db: 0 },
        &mut t,
    )
    .unwrap();
    assert_eq!(resp.cursor, "0");
    assert!(resp.keys.is_empty());
    assert_eq!(t.seen[0], "scan 0 count 100 MATCH *user*");
}

#[test]
fn reply_classifications() {
    assert_eq!(classify_del_reply(&WireValue::Int(4)).unwrap(), 4);
    assert!(classify_del_reply(&WireValue::Nil).is_err());

    assert_eq!(classify_expire_reply(&WireValue::Int(1)).unwrap(), 1);
    match classify_expire_reply(&WireValue::Int(0)).err().unwrap() {
        CusError::App(m) => assert_eq!(m, "invalid args"),
        _ => panic!("zero means invalid arguments"),
    }
    assert!(classify_expire_reply(&WireValue::Int(9)).is_err());
    assert!(classify_expire_reply(&WireValue::Okay).is_err());

    assert_eq!(classify_rename_reply(&WireValue::Okay).unwrap(), "OK");
    assert!(classify_rename_reply(&WireValue::Int(1)).is_err());

    match classify_linsert_reply(&WireValue::Int(0)).err().unwrap() {
        CusError::App(m) => assert_eq!(m, "key not exist"),
        _ => panic!("zero means the key is missing"),
    }
    match classify_linsert_reply(&WireValue::Int(-1)).err().unwrap() {
        CusError::App(m) => assert_eq!(m, "the pivot wasn't found."),
        _ => panic!("minus one means the pivot is missing"),
    }
    assert_eq!(classify_linsert_reply(&WireValue::Int(5)).unwrap(), 5);

    assert_eq!(classify_dbsize_reply(&WireValue::Int(12)).unwrap(), 12);
    assert!(classify_dbsize_reply(&WireValue::Okay).is_err());
}

#[test]
fn key_commands_round_through_transport() {
    let mut t = ScriptedTransport::new(vec![Ok(WireValue::Int(2))]);
    let n = del(
        DelArgs { names: vec!["a".to_string(), "b".to_string()], db: 0 },
        &mut t,
    )
    .unwrap();
    assert_eq!(n, 2);
    assert_eq!(t.seen[0], "del a b");

    let mut t = ScriptedTransport::new(vec![Ok(WireValue::Int(1))]);
    assert_eq!(
        expire(ExpireArgs { name: "k".to_string(), ttl: 60, db: 0 }, &mut t).unwrap(),
        1
    );
    assert_eq!(t.seen[0], "expire k 60");

    let mut t = ScriptedTransport::new(vec![Ok(WireValue::Okay)]);
    assert_eq!(
        rename(
            RenameArgs { name: "old_name".to_string(), new_name: "new_name".to_string(), db: 0 },
            &mut t,
        )
        .unwrap(),
        "OK"
    );
    assert_eq!(t.seen[0], "rename old_name new_name");

    let mut t = ScriptedTransport::new(vec![]);
    match add(
        AddArgs { name: "k".to_string(), types: "string".to_string(), db: 0 },
        &mut t,
    )
    .err()
    .unwrap()
    {
        CusError::App(m) => assert_eq!(m, "something go wrong"),
        _ => panic!("creating keys is not carried out"),
    }
}

#[test]
fn list_commands_round_through_transport() {
    let mut t = ScriptedTransport::new(vec![Ok(WireValue::Bulk(vec![data("x"), data("y")]))]);
    let items = lrange(
        LRangeArgs { name: "l".to_string(), start: 0, stop: -1, db: 0 },
        &mut t,
    )
    .unwrap();
    assert_eq!(items, vec!["x".to_string(), "y".to_string()]);
    assert_eq!(t.seen[0], "lrange l 0 -1");

    let mut t = ScriptedTransport::new(vec![Ok(WireValue::Int(3))]);
    let n = linsert(
        InsertArgs {
            name: "l".to_string(),
            db: 0,
            types: "BEFORE".to_string(),
            value: "v".to_string(),
            pivot: "p".to_string(),
        },
        &mut t,
    )
    .unwrap();
    assert_eq!(n, 3);
    assert_eq!(t.seen[0], "linsert l BEFORE p v");
}

#[test]
fn hash_commands_audit_exactly_once() {
    let mut log: Vec<Command> = Vec::new();

    let mut w = wrapper_with(ScriptedTransport::new(vec![Ok(WireValue::Int(1))]));
    let v = hset(
        CommonValueArgs {
            name: "h".to_string(),
            value: vec![FieldValueItem { field: "f".to_string(), value: "v".to_string() }],
            db: 0,
        },
        &mut w,
        &mut log,
    )
    .unwrap();
    assert_eq!(v, CValue::Int(1));
    assert_eq!(log.len(), 1);
    assert_eq!(log[0].cmd, "HSET h f v");

    let mut w = wrapper_with(ScriptedTransport::new(vec![Ok(data("value"))]));
    let v = hget(
        CommonValueArgs { name: "h".to_string(), value: "f".to_string(), db: 0 },
        &mut w,
        &mut log,
    )
    .unwrap();
    assert_eq!(v, CValue::Str("value".to_string()));
    assert_eq!(log.len(), 2);
    assert_eq!(log[1].cmd, "HGET h f");

    let mut w = wrapper_with(ScriptedTransport::new(vec![Ok(WireValue::Int(2))]));
    let n = hdel(
        CommonValueArgs {
            name: "h".to_string(),
            value: vec!["f1".to_string(), "f2".to_string()],
            db: 0,
        },
        &mut w,
        &mut log,
    )
    .unwrap();
    assert_eq!(n, 2);
    assert_eq!(log[2].cmd, "HDEL h f1 f2");

    let mut w = wrapper_with(ScriptedTransport::new(vec![Ok(WireValue::Int(11))]));
    let v = hincrby(
        FieldValueArgs { name: "h".to_string(), field: "n".to_string(), value: 5, db: 0 },
        &mut w,
        &mut log,
    )
    .unwrap();
    assert_eq!(v, CValue::Int(11));
    assert_eq!(log[3].cmd, "HINCRBY h n 5");

    // a failing wire still writes exactly one record
    let mut w = wrapper_with(ScriptedTransport::new(vec![Err("boom".to_string())]));
    let r = hget(
        CommonValueArgs { name: "h".to_string(), value: "f".to_string(), db: 0 },
        &mut w,
        &mut log,
    );
    assert!(r.is_err());
    assert_eq!(log.len(), 5);
    assert_eq!(log[4].response_text(), "boom");
}

#[test]
fn hscan_pairs_fields_and_values() {
    let mut log: Vec<Command> = Vec::new();
    let page = WireValue::Bulk(vec![
        data("33"),
        WireValue::Bulk(vec![data("f1"), data("v1"), data("f2"), data("v2")]),
    ]);
    let mut w = wrapper_with(ScriptedTransport::new(vec![Ok(page)]));
    let resp = hscan(
        ItemScanArgs {
            name: "h".to_string(),
            cursor: "0".to_string(),
            count: 20,
            search: Some("f".to_string()),
            db: 0,
        },
        &mut w,
        &mut log,
    )
    .unwrap();
    assert_eq!(resp.cursor, "33");
    assert_eq!(resp.keys.len(), 2);
    assert_eq!(resp.keys[0].field, "f1");
    assert_eq!(resp.keys[0].value, "v1");
    assert_eq!(resp.keys[1].field, "f2");
    assert_eq!(resp.keys[1].value, "v2");
    assert_eq!(log.len(), 1);
    assert_eq!(log[0].cmd, "HSCAN h 0 COUNT 20 MATCH *f*");
}

#[test]
fn hash_reply_of_wrong_shape_is_a_decode_error() {
    let mut log: Vec<Command> = Vec::new();
    let mut w = wrapper_with(ScriptedTransport::new(vec![Ok(WireValue::Okay)]));
    let r = hdel(
        CommonValueArgs { name: "h".to_string(), value: vec!["f".to_string()], db: 0 },
        &mut w,
        &mut log,
    );
    assert!(matches!(r.err().unwrap(), CusError::Decode(_)));
    assert_eq!(log.len(), 1);
}

#[test]
fn dbsize_counts_keys() {
    let mut t = ScriptedTransport::new(vec![Ok(WireValue::Int(1234))]);
    assert_eq!(dbsize(DBSizeArgs { db: 0 }, &mut t).unwrap(), 1234);
    assert_eq!(t.seen[0], "dbsize");
}

#[test]
fn hvals_and_hlen_audit_names() {
    let mut log: Vec<Command> = Vec::new();
    let mut w = wrapper_with(ScriptedTransport::new(vec![Ok(WireValue::Int(9))]));
    redis_core::route::hash::hlen(
        NameArgs { name: "h".to_string(), db: 0 },
        &mut w,
        &mut log,
    )
    .unwrap();
    assert_eq!(log[0].cmd, "HLEN h");
}

#[test]
fn terminal_refuses_continuous_commands() {
    let mut t = ScriptedTransport::new(vec![]);
    let r = cmd_handle(&vec![], &mut t);
    assert!(!r.success);
    assert_eq!(r.data, CValue::Str("invalid args".to_string()));

    let r = cmd_handle(&vec!["MoNiToR".to_string()], &mut t);
    assert!(!r.success);
    assert_eq!(r.data, CValue::Str("not support this command".to_string()));

    let r = cmd_handle(&vec!["SUBSCRIBE".to_string(), "chan".to_string()], &mut t);
    assert!(!r.success);
}

#[test]
fn terminal_runs_ordinary_commands() {
    let mut t = ScriptedTransport::new(vec![Ok(data("pong"))]);
    let r = cmd_handle(&vec!["ping".to_string(), "x".to_string()], &mut t);
    assert!(r.success);
    assert_eq!(r.data, CValue::Str("pong".to_string()));
    assert_eq!(t.seen[0], "ping x");

    let mut t = ScriptedTransport::new(vec![Err("ERR unknown".to_string())]);
    let r = cmd_handle(&vec!["nope".to_string()], &mut t);
    assert!(!r.success);
    assert_eq!(r.data, CValue::Str("ERR unknown".to_string()));
}

#[test]
fn open_args_carry_fresh_event_names() {
    let a = OpenArgs::new();
    assert_eq!(a.send.len(), 32);
    assert_eq!(a.receive.len(), 32);
    let b = open();
    assert_eq!(b.send.len(), 32);
    assert_eq!(b.receive.len(), 32);
}

#[test]
fn list_edits_pass_acknowledgement_through() {
    let mut t = ScriptedTransport::new(vec![Ok(WireValue::Okay)]);
    let r = lset(
        LSetArgs { name: "l".to_string(), index: 2, value: "v".to_string(), db: 0 },
        &mut t,
    )
    .unwrap();
    assert_eq!(r, "OK");
    assert_eq!(t.seen[0], "lset l 2 v");

    let mut t = ScriptedTransport::new(vec![Ok(WireValue::Okay)]);
    let r = ltrim(
        LTrimArgs { name: "l".to_string(), db: 0, start: 1, stop: -1 },
        &mut t,
    )
    .unwrap();
    assert_eq!(r, "OK");
    assert_eq!(t.seen[0], "ltrim l 1 -1");
}

#[test]
fn more_hash_commands_build_their_texts() {
    let mut log: Vec<Command> = Vec::new();
    let mut w = wrapper_with(ScriptedTransport::new(vec![Ok(WireValue::Int(1))]));
    assert_eq!(
        hexists(
            CommonValueArgs { name: "h".to_string(), value: "f".to_string(), db: 0 },
            &mut w,
            &mut log,
        )
        .unwrap(),
        1
    );
    assert_eq!(log[0].cmd, "HEXISTS h f");

    let mut w = wrapper_with(ScriptedTransport::new(vec![Ok(WireValue::Bulk(vec![
        data("v1"),
        data("v2"),
    ]))]));
    let v = hvals(NameArgs { name: "h".to_string(), db: 0 }, &mut w, &mut log).unwrap();
    assert_eq!(
        v,
        CValue::Bulk(vec![CValue::Str("v1".to_string()), CValue::Str("v2".to_string())])
    );
    assert_eq!(log[1].cmd, "HVALS h");
}
