use redis_core::cmd::{cmd, Cmd};
use redis_core::codec::{decode, encode};
use redis_core::conn::{
    ConnectedParam, Connection, ConnectionParams, SshParams, TunnelAddr, TunnelPlan,
};
use redis_core::duration_micros;
use redis_core::err::{new_normal, CusError};
use redis_core::strutil::{binary_to_redis_str, i64_to_string};
use redis_core::util::random_str;
use redis_core::value::{CValue, WireValue};
use redis_core::wrapper::{Command, ConnectionLike, ConnectionWrapper, DialResult};

fn params(host: &str, port: u16, cluster: bool) -> ConnectionParams {
    ConnectionParams {
        redis_params: ConnectedParam {
            tcp_host: host.to_string(),
            tcp_port: port,
            username: None,
            password: None,
        },
        ssh_params: None,
        is_cluster: cluster,
    }
}

fn tunneled_params() -> ConnectionParams {
    ConnectionParams {
        ssh_params: Some(SshParams {
            host: "jump.example".to_string(),
            port: 22,
            username: "user".to_string(),
            password: Some("SECRET-REDACTED".to_string()),
        }),
        ..params("10.0.0.9", 6379, false)
    }
}

/// A transport that always answers with one fixed reply.
struct FixedTransport {
    reply: fn() -> WireValue,
}

impl ConnectionLike for FixedTransport {
    fn req_packed_command(&mut self, _cmd: &Cmd) -> Result<WireValue, String> {
        Ok((self.reply)())
    }
    fn req_packed_commands(
        &mut self,
        _cmds: &Vec<Cmd>,
        _offset: usize,
        _count: usize,
    ) -> Result<Vec<WireValue>, String> {
        Ok(vec![])
    }
    fn get_db(&self) -> i64 {
        0
    }
}

/// A transport whose wire always fails.
struct FailingTransport;

impl ConnectionLike for FailingTransport {
    fn req_packed_command(&mut self, _cmd: &Cmd) -> Result<WireValue, String> {
        Err("connection reset".to_string())
    }
    fn req_packed_commands(
        &mut self,
        _cmds: &Vec<Cmd>,
        _offset: usize,
        _count: usize,
    ) -> Result<Vec<WireValue>, String> {
        Err("connection reset".to_string())
    }
    fn get_db(&self) -> i64 {
        0
    }
}

fn nil_transport() -> FixedTransport {
    FixedTransport { reply: || WireValue::Nil }
}

#[test]
fn round_trip_every_variant() {
    let deep = CValue::Bulk(vec![
        CValue::Nil,
        CValue::Bulk(vec![
            CValue::Int(-42),
            CValue::Bulk(vec![
                CValue::Binary(vec![0xff, 0x00, 0x41, 0x00]),
                CValue::Status("PONG".to_string()),
            ]),
        ]),
        CValue::Okay,
        CValue::Str("héllo".to_string()),
    ]);
    let values = vec![
        CValue::Nil,
        CValue::Int(0),
        CValue::Int(i64::MIN),
        CValue::Int(i64::MAX),
        CValue::Status("OK then".to_string()),
        CValue::Okay,
        CValue::Str("plain".to_string()),
        CValue::Str("".to_string()),
        CValue::Binary(vec![]),
        CValue::Binary(vec![0x00, 0xff, 0x00]),
        CValue::Bulk(vec![]),
        deep,
    ];
    for v in values {
        let bytes = encode(&v);
        let back = decode(&bytes);
        assert_eq!(back, Some(v));
    }
}

#[test]
fn decode_rejects_garbage() {
    assert_eq!(decode(&vec![]), None);
    assert_eq!(decode(&vec![9u8]), None);
    assert_eq!(decode(&vec![1u8, 2u8]), None);
    let mut ok = encode(&CValue::Nil);
    ok.push(0u8);
    assert_eq!(decode(&ok), None);
}

#[test]
fn effective_address_tracks_tunnel() {
    let mut conn = Connection::new(tunneled_params());
    let before = conn.get_connected_params();
    assert_eq!(before.tcp_host, "10.0.0.9");
    assert_eq!(before.tcp_port, 6379);

    match conn.ensure_tunnel_plan() {
        TunnelPlan::Establish(p) => assert_eq!(p.host, "jump.example"),
        _ => panic!("a tunnel should be asked for"),
    }

    conn.store_addr(TunnelAddr { host: "127.0.0.1".to_string(), port: 39999 });
    let after = conn.get_connected_params();
    assert_eq!(after.tcp_host, "127.0.0.1");
    assert_eq!(after.tcp_port, 39999);
    assert_eq!(after.username, None);

    match conn.ensure_tunnel_plan() {
        TunnelPlan::AlreadyUp => {}
        _ => panic!("a second tunnel must not be opened"),
    }

    let plain = Connection::new(params("db.example", 7000, false));
    match plain.ensure_tunnel_plan() {
        TunnelPlan::NotNeeded => {}
        _ => panic!("no tunnel is configured"),
    }
    assert_eq!(plain.get_proxy(), None);
    assert_eq!(conn.get_proxy(), Some("127.0.0.1:39999".to_string()));
}

#[test]
fn audit_once_on_success_and_failure() {
    let conn = Connection::new(params("127.0.0.1", 6379, false));
    let mut w = ConnectionWrapper::build(conn, Ok(nil_transport())).unwrap();
    let mut c = cmd("GET");
    c.arg_str("foo");
    let (v, audit): (CValue, Command) = w.execute(&c).unwrap();
    assert_eq!(v, CValue::Nil);
    assert_eq!(audit.cmd, "GET foo");
    assert!(audit.duration >= 0);
    assert_eq!(audit.host, "redis://127.0.0.1:6379");
    assert_eq!(audit.id.len(), 32);

    let conn = Connection::new(params("127.0.0.1", 6379, false));
    let mut w = ConnectionWrapper::build(conn, Ok(FailingTransport)).unwrap();
    let mut c = cmd("GET");
    c.arg_str("foo");
    let r: Result<(CValue, Command), (CusError, Command)> = w.execute(&c);
    let (e, audit) = r.err().unwrap();
    assert_eq!(e.message(), "connection reset");
    assert!(matches!(e, CusError::Transport(_)));
    assert!(audit.duration >= 0);
    assert_eq!(audit.cmd, "GET foo");
    assert_eq!(audit.response, CValue::Str("connection reset".to_string()));
}

#[test]
fn decode_error_still_carries_audit() {
    let conn = Connection::new(params("127.0.0.1", 6379, false));
    let mut w = ConnectionWrapper::build(
        conn,
        Ok(FixedTransport { reply: || WireValue::Status("PONG".to_string()) }),
    )
    .unwrap();
    let c = cmd("PING");
    let r: Result<(i64, Command), (CusError, Command)> = w.execute(&c);
    let (e, audit) = r.err().unwrap();
    assert!(matches!(e, CusError::Decode(_)));
    assert_eq!(audit.response, CValue::Status("PONG".to_string()));
    assert_eq!(audit.response_text(), "PONG");
}

#[test]
fn tunnel_teardown_exactly_once() {
    let (tx, mut rx) = tokio::sync::oneshot::channel::<()>();
    let mut conn = Connection::new(tunneled_params());
    conn.store_addr(TunnelAddr { host: "127.0.0.1".to_string(), port: 40001 });

    let mut cancellations = 0;
    for _ in 0..3 {
        if conn.close_tunnel() {
            rx.close();
            cancellations += 1;
        }
    }
    assert_eq!(cancellations, 1);
    assert!(tx.is_closed());
}

#[test]
fn teardown_signal_only_with_live_handle() {
    let mut conn = Connection::new(tunneled_params());
    assert!(!conn.close_tunnel());
    conn.store_addr(TunnelAddr { host: "127.0.0.1".to_string(), port: 40002 });
    assert!(conn.close_tunnel());
    assert!(!conn.close_tunnel());
}

#[test]
fn timeout_dial_yields_connect_timeout_and_no_wrapper() {
    let conn = Connection::new(params("127.0.0.1", 6379, false));
    let dial: Result<FixedTransport, CusError> =
        conn.get_normal(DialResult::<FixedTransport>::TimedOut);
    let e = dial.err().unwrap();
    assert!(matches!(&e, CusError::Timeout(m) if m == "Connection Timeout"));

    let built = ConnectionWrapper::<FixedTransport>::build(conn, Err(e));
    assert!(built.is_err());
}

#[test]
fn failed_dial_is_surfaced_verbatim() {
    let conn = Connection::new(params("127.0.0.1", 6379, true));
    let dial: Result<FixedTransport, CusError> =
        conn.get_cluster(DialResult::Failed("NOAUTH Authentication required.".to_string()));
    match dial.err().unwrap() {
        CusError::Transport(m) => assert_eq!(m, "NOAUTH Authentication required."),
        _ => panic!("a dial failure must stay a transport error"),
    }
}

#[test]
fn direct_build_and_execute_scenario() {
    let conn = Connection::new(params("127.0.0.1", 6379, false));
    assert!(!conn.is_cluster());
    let mut w = ConnectionWrapper::build(conn, Ok(nil_transport())).unwrap();
    assert_eq!(w.get_host(), "redis://127.0.0.1:6379");
    assert!(!w.is_cluster());
    assert_eq!(w.db, 0);
    assert!(w.version.is_none());

    let mut c = cmd("GET");
    c.arg_str("foo");
    let (v, audit): (CValue, Command) = w.execute(&c).unwrap();
    assert_eq!(v, CValue::Nil);
    assert_eq!(audit.cmd, "GET foo");
    assert_eq!(audit.response_text(), "nil");
}

#[test]
fn binary_argument_audit_scenario() {
    let mut c = cmd("SET");
    c.arg_str("k");
    c.arg_bytes(vec![0xff, 0x00, 0x41]);
    assert_eq!(c.render(), "SET k \\xff\\x00A");
}

#[test]
fn binary_rendering_is_deterministic() {
    assert_eq!(binary_to_redis_str(&vec![0xff, 0x00, 0x41]), "\\xff\\x00A");
    assert_eq!(binary_to_redis_str(&vec![]), "");
    assert_eq!(binary_to_redis_str(&vec![0x5c]), "\\x5c");
    assert_eq!(binary_to_redis_str(&vec![b' ', b'~', 0x1f, 0x7f]), " ~\\x1f\\x7f");
}

#[test]
fn command_text_renders_utf8_and_numbers() {
    let mut c = cmd("EXPIRE");
    c.arg_str("clé");
    c.arg_i64(-15);
    assert_eq!(c.render(), "EXPIRE clé -15");
}

#[test]
fn error_constructors_and_messages() {
    assert_eq!(new_normal().message(), "something go wrong");
    assert_eq!(CusError::build("x").message(), "x");
    assert_eq!(CusError::reopen().message(), "Please reopen the connection");
    assert_eq!(CusError::connection_not_found().message(), "Connection not found");
    assert_eq!(CusError::key_not_exists().message(), "Key not exists");
    assert_eq!(CusError::Config("bad".to_string()).message(), "bad");
}

#[test]
fn config_validation() {
    assert!(params("h", 1, false).validate().is_ok());
    assert!(matches!(params("", 1, false).validate(), Err(CusError::Config(_))));
    assert!(matches!(params("h", 0, false).validate(), Err(CusError::Config(_))));
}

#[test]
fn value_text_rendering() {
    assert_eq!(CValue::Nil.text(), "nil");
    assert_eq!(CValue::Okay.text(), "OK");
    assert_eq!(CValue::Int(-7).text(), "-7");
    assert_eq!(i64_to_string(i64::MIN), i64::MIN.to_string());
    let bulk = CValue::Bulk(vec![
        CValue::Int(1),
        CValue::Str("a".to_string()),
        CValue::Binary(vec![0xff]),
    ]);
    assert_eq!(bulk.text(), "1 a \\xff");
}

#[test]
fn normalization_is_total_and_lossless() {
    let v = WireValue::Bulk(vec![
        WireValue::Nil,
        WireValue::Int(3),
        WireValue::Okay,
        WireValue::Status("ok?".to_string()),
        WireValue::Data("text".as_bytes().to_vec()),
        WireValue::Data(vec![0xfe, 0xff]),
    ]);
    let c = CValue::build(v);
    assert_eq!(
        c,
        CValue::Bulk(vec![
            CValue::Nil,
            CValue::Int(3),
            CValue::Okay,
            CValue::Status("ok?".to_string()),
            CValue::Str("text".to_string()),
            CValue::Binary(vec![0xfe, 0xff]),
        ])
    );
}

#[test]
fn fresh_identifiers_have_fixed_width() {
    assert_eq!(random_str().len(), 32);
}

#[test]
fn duration_never_negative() {
    assert_eq!(duration_micros(10, 25), 15);
    assert_eq!(duration_micros(25, 10), 0);
    assert!(duration_micros(i64::MIN, i64::MAX) >= 0);
}

#[test]
fn tunnel_failure_leaves_state_unchanged() {
    let mut conn = Connection::new(tunneled_params());
    let r = conn.accept_tunnel(Err("handshake refused".to_string()));
    match r.err().unwrap() {
        CusError::Tunnel(m) => assert_eq!(m, "handshake refused"),
        _ => panic!("a forwarder failure is a tunnel error"),
    }
    assert_eq!(conn.get_connected_params().tcp_host, "10.0.0.9");
    assert!(!conn.close_tunnel());

    let r = conn.accept_tunnel(Ok(TunnelAddr { host: "127.0.0.1".to_string(), port: 40100 }));
    assert!(r.is_ok());
    assert_eq!(conn.get_connected_params().tcp_port, 40100);
    assert!(conn.close_tunnel());
}

#[test]
fn every_transport_variant_classifies_alike() {
    let conn = Connection::new(params("h", 1, false));
    assert!(conn.get_monitor(DialResult::<FixedTransport>::TimedOut).is_err());
    assert!(conn.get_sync_one(DialResult::<FixedTransport>::TimedOut).is_err());
    assert!(conn
        .get_sync_cluster_one(DialResult::Connected(nil_transport()))
        .is_ok());
    assert!(conn.get_ssh_config().is_none());
    assert!(Connection::new(tunneled_params()).get_ssh_config().is_some());
}
