use vstd::prelude::*;
use vstd::string::StringExecFns;
use crate::cmd::{Cmd, args_view, render_chars};
use crate::conn::Connection;
use crate::decode::FromWireValue;
use crate::duration_micros;
use crate::err::CusError;
use crate::util::{now_micros, now_text, random_str};
use crate::value::{CValue, WireValue, WireView, wire_view, cvalue_view, build_view};

verus! {

/// The uniform request capability every transport variant offers: issue one
/// command, issue a pipelined batch, report the selected database index.
/// A transport's answer comes from the outside world, so the methods promise
/// nothing; callers state what holds of every outcome.
pub trait ConnectionLike {
    fn req_packed_command(&mut self, cmd: &Cmd) -> Result<WireValue, String>;

    fn req_packed_commands(&mut self, cmds: &Vec<Cmd>, offset: usize, count: usize) -> Result<
        Vec<WireValue>,
        String,
    >;

    fn get_db(&self) -> i64;
}

/// How a bounded dial attempt ended: with a live transport, by exceeding
/// its deadline, or with a failure reported by the store or the network.
pub enum DialResult<C> {
    Connected(C),
    TimedOut,
    Failed(String),
}

impl Connection {
    /// Classifies a dial outcome: a transport is passed through, a deadline
    /// overrun becomes a distinct timeout error, and any other dial failure
    /// is surfaced verbatim as a transport error, never masked.
    pub fn accept_dial<C>(&self, outcome: DialResult<C>) -> (r: Result<C, CusError>)
        ensures
            outcome matches DialResult::Connected(c) ==> r matches Ok(c2) && c2 == c,
            outcome matches DialResult::TimedOut ==> r matches Err(e) && e matches CusError::Timeout(m) && (m@
                == "Connection Timeout"@),
            outcome matches DialResult::Failed(msg) ==> r matches Err(e) && e matches
                CusError::Transport(m) && m@ == msg@,
    {
        match outcome {
            DialResult::Connected(c) => Ok(c),
            DialResult::TimedOut => Err(
                CusError::Timeout(String::from_str("Connection Timeout")),
            ),
            DialResult::Failed(msg) => Err(CusError::Transport(msg)),
        }
    }

    /// Accepts the outcome of dialing the direct multiplexed transport.
    pub fn get_normal<C>(&self, outcome: DialResult<C>) -> (r: Result<C, CusError>)
        ensures
            outcome matches DialResult::Connected(c) ==> r matches Ok(c2) && c2 == c,
            outcome matches DialResult::TimedOut ==> r matches Err(e) && e matches CusError::Timeout(m) && (m@
                == "Connection Timeout"@),
            outcome matches DialResult::Failed(msg) ==> r matches Err(e) && e matches
                CusError::Transport(m) && m@ == msg@,
    {
        self.accept_dial(outcome)
    }

    /// Accepts the outcome of dialing the cluster-routed transport.
    pub fn get_cluster<C>(&self, outcome: DialResult<C>) -> (r: Result<C, CusError>)
        ensures
            outcome matches DialResult::Connected(c) ==> r matches Ok(c2) && c2 == c,
            outcome matches DialResult::TimedOut ==> r matches Err(e) && e matches CusError::Timeout(m) && (m@
                == "Connection Timeout"@),
            outcome matches DialResult::Failed(msg) ==> r matches Err(e) && e matches
                CusError::Transport(m) && m@ == msg@,
    {
        self.accept_dial(outcome)
    }

    /// Accepts the outcome of dialing the monitor-stream transport.
    pub fn get_monitor<C>(&self, outcome: DialResult<C>) -> (r: Result<C, CusError>)
        ensures
            outcome matches DialResult::Connected(c) ==> r matches Ok(c2) && c2 == c,
            outcome matches DialResult::TimedOut ==> r matches Err(e) && e matches CusError::Timeout(m) && (m@
                == "Connection Timeout"@),
            outcome matches DialResult::Failed(msg) ==> r matches Err(e) && e matches
                CusError::Transport(m) && m@ == msg@,
    {
        self.accept_dial(outcome)
    }

    /// Accepts the outcome of dialing the synchronous single-node transport.
    pub fn get_sync_one<C>(&self, outcome: DialResult<C>) -> (r: Result<C, CusError>)
        ensures
            outcome matches DialResult::Connected(c) ==> r matches Ok(c2) && c2 == c,
            outcome matches DialResult::TimedOut ==> r matches Err(e) && e matches CusError::Timeout(m) && (m@
                == "Connection Timeout"@),
            outcome matches DialResult::Failed(msg) ==> r matches Err(e) && e matches
                CusError::Transport(m) && m@ == msg@,
    {
        self.accept_dial(outcome)
    }

    /// Accepts the outcome of dialing the synchronous cluster transport.
    pub fn get_sync_cluster_one<C>(&self, outcome: DialResult<C>) -> (r: Result<C, CusError>)
        ensures
            outcome matches DialResult::Connected(c) ==> r matches Ok(c2) && c2 == c,
            outcome matches DialResult::TimedOut ==> r matches Err(e) && e matches CusError::Timeout(m) && (m@
                == "Connection Timeout"@),
            outcome matches DialResult::Failed(msg) ==> r matches Err(e) && e matches
                CusError::Transport(m) && m@ == msg@,
    {
        self.accept_dial(outcome)
    }
}

/// The audit record of one executed command: its identifier, the rendered
/// command text, the normalized response, the creation timestamp, the target
/// host, and the call's duration in microseconds.
#[derive(Debug)]
pub struct Command {
    pub id: String,
    pub cmd: String,
    pub response: CValue,
    pub created_at: String,
    pub host: String,
    pub duration: i64,
}

impl Command {
    /// The flattened text of the normalized response.
    pub fn response_text(&self) -> (r: String)
        ensures
            r@ == crate::value::text_view(cvalue_view(self.response)),
    {
        self.response.text()
    }
}

/// The audit record carried by an execution result, whichever way the call
/// went: every call yields exactly one.
pub open spec fn audit_of<T>(r: Result<(T, Command), (CusError, Command)>) -> Command {
    match r {
        Ok((_, c)) => c,
        Err((_, c)) => c,
    }
}

/// Settles one execution once the wire has answered: builds the one audit
/// record of the call, decodes the reply into the requested type on wire
/// success, and classifies the failure otherwise. Stated for every value the
/// wire can have handed back.
pub fn settle_execute<T: FromWireValue>(
    id: String,
    cmd_text: String,
    created_at: String,
    host: String,
    start: i64,
    end: i64,
    outcome: Result<WireValue, String>,
) -> (r: Result<(T, Command), (CusError, Command)>)
    ensures
        audit_of(r).id == id,
        audit_of(r).cmd == cmd_text,
        audit_of(r).created_at == created_at,
        audit_of(r).host == host,
        audit_of(r).duration >= 0,
        end >= start && end - start <= i64::MAX ==> audit_of(r).duration == end - start,
        match outcome {
            Ok(v) => {
                &&& cvalue_view(audit_of(r).response) == build_view(wire_view(v))
                &&& if T::wire_decodable(wire_view(v)) {
                    r matches Ok((t, _)) && T::wire_decoded(wire_view(v), t)
                } else {
                    r matches Err((e, _)) && e matches CusError::Decode(_)
                }
            },
            Err(msg) => {
                &&& r matches Err((e, _)) && e matches CusError::Transport(m) && m@ == msg@
                &&& audit_of(r).response matches CValue::Str(s) && s@ == msg@
            },
        },
{
    let duration = duration_micros(start, end);
    match outcome {
        Ok(v) => {
            let normalized = CValue::build_of(&v);
            match T::from_wire_value(&v) {
                Ok(t) => Ok(
                    (
                        t,
                        Command {
                            id,
                            cmd: cmd_text,
                            response: normalized,
                            created_at,
                            host,
                            duration,
                        },
                    ),
                ),
                Err(e) => Err(
                    (
                        e,
                        Command {
                            id,
                            cmd: cmd_text,
                            response: normalized,
                            created_at,
                            host,
                            duration,
                        },
                    ),
                ),
            }
        },
        Err(msg) => {
            let text = msg.clone();
            Err(
                (
                    CusError::Transport(msg),
                    Command {
                        id,
                        cmd: cmd_text,
                        response: CValue::Str(text),
                        created_at,
                        host,
                        duration,
                    },
                ),
            )
        },
    }
}

/// One live, type-erased transport together with the connection context it
/// was dialed from. Holds exactly this one transport for its whole lifetime;
/// dropping the wrapper drops the connection, which triggers tunnel teardown.
pub struct ConnectionWrapper<C: ConnectionLike> {
    pub conn: C,
    pub id: String,
    pub db: u8,
    pub created_at: String,
    pub model: Connection,
    pub version: Option<String>,
}

impl<C: ConnectionLike> ConnectionWrapper<C> {
    /// Wraps a successfully dialed transport with a fresh identifier and
    /// timestamp; a dial failure is propagated unchanged and no wrapper is
    /// observable — construction is all or nothing.
    pub fn build(connection: Connection, dial: Result<C, CusError>) -> (r: Result<
        ConnectionWrapper<C>,
        CusError,
    >)
        ensures
            dial matches Ok(c) ==> r matches Ok(w) && w.conn == c && w.db == 0 && w.model
                == connection && w.version is None && w.id@.len() == 32,
            dial matches Err(e) ==> r matches Err(e2) && e2 == e,
    {
        match dial {
            Ok(c) => Ok(
                ConnectionWrapper {
                    conn: c,
                    id: random_str(),
                    db: 0,
                    created_at: now_text(),
                    model: connection,
                    version: None,
                },
            ),
            Err(e) => Err(e),
        }
    }

    /// The configured endpoint as "redis://host:port".
    pub fn get_host(&self) -> (r: String)
        ensures
            r@ == "redis://"@ + self.model.params.redis_params.tcp_host@ + seq![':']
                + crate::strutil::dec_chars(self.model.params.redis_params.tcp_port as nat),
    {
        self.model.get_host()
    }

    /// Whether the wrapped transport speaks to a cluster.
    pub fn is_cluster(&self) -> (r: bool)
        ensures
            r == self.model.params.is_cluster,
    {
        self.model.is_cluster()
    }

    /// Executes one command against the held transport. Whatever the wire
    /// answers — success, a reply of the wrong shape, or a failure — exactly
    /// one audit record is produced, carrying the rendered command text, this
    /// connection's host, and a non-negative duration; on success the reply
    /// is decoded into the requested type and the record carries its
    /// normalized image.
    pub fn execute<T: FromWireValue>(&mut self, cmd: &Cmd) -> (r: Result<
        (T, Command),
        (CusError, Command),
    >)
        ensures
            audit_of(r).cmd@ == render_chars(args_view(*cmd)),
            audit_of(r).host@ == "redis://"@ + old(self).model.params.redis_params.tcp_host@
                + seq![':'] + crate::strutil::dec_chars(
                old(self).model.params.redis_params.tcp_port as nat,
            ),
            audit_of(r).id@.len() == 32,
            audit_of(r).duration >= 0,
            final(self).model == old(self).model,
            final(self).id == old(self).id,
            final(self).db == old(self).db,
            r matches Ok((t, c)) ==> exists|wv: WireView|
                {
                    &&& #[trigger] T::wire_decodable(wv)
                    &&& T::wire_decoded(wv, t)
                    &&& cvalue_view(c.response) == build_view(wv)
                },
            r matches Err((e, _)) ==> (e matches CusError::Decode(_) || e matches
                CusError::Transport(_)),
    {
        let cmd_text = cmd.render();
        let host = self.model.get_host();
        let id = random_str();
        let created_at = now_text();
        let start = now_micros();
        let outcome = self.conn.req_packed_command(cmd);
        let end = now_micros();
        let r = settle_execute::<T>(id, cmd_text, created_at, host, start, end, outcome);
        proof {
            match &r {
                Ok((t, c)) => {
                    let wv = wire_view(outcome->Ok_0);
                    assert(T::wire_decodable(wv) && T::wire_decoded(wv, *t) && cvalue_view(
                        c.response,
                    ) == build_view(wv));
                },
                Err(_) => {},
            }
        }
        r
    }
}

/// Executes one command and hands the one audit record of the call to the
/// given log — the seam where the out-of-scope pool keeps its history. The
/// log grows by exactly one record, win or lose.
pub fn manager_execute<T: FromWireValue, C: ConnectionLike>(
    wrapper: &mut ConnectionWrapper<C>,
    cmd: &Cmd,
    log: &mut Vec<Command>,
) -> (r: Result<T, CusError>)
    ensures
        final(log)@.len() == old(log)@.len() + 1,
        final(log)@.take(old(log)@.len() as int) == old(log)@,
        final(log)@.last().cmd@ == render_chars(args_view(*cmd)),
        final(log)@.last().duration >= 0,
        final(wrapper).model == old(wrapper).model,
        r matches Ok(t) ==> exists|wv: WireView|
            {
                &&& #[trigger] T::wire_decodable(wv)
                &&& T::wire_decoded(wv, t)
            },
        r matches Err(e) ==> (e matches CusError::Decode(_) || e matches CusError::Transport(_)),
{
    match wrapper.execute::<T>(cmd) {
        Ok((t, c)) => {
            log.push(c);
            Ok(t)
        },
        Err((e, c)) => {
            log.push(c);
            Err(e)
        },
    }
}

impl<C: ConnectionLike> ConnectionLike for ConnectionWrapper<C> {
    /// Forwards a single command to the held transport, so a wrapper is
    /// itself usable wherever a bare transport is expected.
    fn req_packed_command(&mut self, cmd: &Cmd) -> Result<WireValue, String> {
        self.conn.req_packed_command(cmd)
    }

    /// Forwards a pipelined batch to the held transport.
    fn req_packed_commands(&mut self, cmds: &Vec<Cmd>, offset: usize, count: usize) -> Result<
        Vec<WireValue>,
        String,
    > {
        self.conn.req_packed_commands(cmds, offset, count)
    }

    /// Reports the selected database index of the held transport.
    fn get_db(&self) -> i64 {
        self.conn.get_db()
    }
}

}
