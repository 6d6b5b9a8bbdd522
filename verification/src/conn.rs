use vstd::prelude::*;
use vstd::string::StringExecFns;
use crate::err::CusError;
use crate::strutil::{dec_chars, push_dec_u64, push_char};

verus! {

/// The address and credentials actually dialed: host, port and optional
/// user name and password.
pub struct ConnectedParam {
    pub tcp_host: String,
    pub tcp_port: u16,
    pub username: Option<String>,
    pub password: Option<String>,
}

/// How to reach the secure intermediary that forwards traffic to the store.
pub struct SshParams {
    pub host: String,
    pub port: u16,
    pub username: String,
    pub password: Option<String>,
}

/// The locally bound endpoint of an active tunnel.
pub struct TunnelAddr {
    pub host: String,
    pub port: u16,
}

/// Everything needed to open a connection: the store endpoint, the optional
/// tunnel configuration, and whether the store is a cluster.
pub struct ConnectionParams {
    pub redis_params: ConnectedParam,
    pub ssh_params: Option<SshParams>,
    pub is_cluster: bool,
}

/// Supplies connection parameters; implemented by whatever owns a saved
/// connection profile.
pub trait Connectable {
    fn get_params(&self) -> ConnectionParams;
}

/// The view of an optional text field.
pub open spec fn opt_text(o: Option<String>) -> Option<Seq<char>> {
    match o {
        Some(s) => Some(s@),
        None => None,
    }
}

/// Field-by-field sameness of two endpoint descriptions.
pub open spec fn same_connected_param(a: ConnectedParam, b: ConnectedParam) -> bool {
    a.tcp_host@ == b.tcp_host@ && a.tcp_port == b.tcp_port && opt_text(a.username) == opt_text(
        b.username,
    ) && opt_text(a.password) == opt_text(b.password)
}

pub fn clone_opt_string(o: &Option<String>) -> (r: Option<String>)
    ensures
        opt_text(r) == opt_text(*o),
{
    match o {
        Some(s) => Some(s.clone()),
        None => None,
    }
}

impl ConnectedParam {
    /// A copy with the same fields.
    pub fn duplicate(&self) -> (r: ConnectedParam)
        ensures
            same_connected_param(r, *self),
    {
        ConnectedParam {
            tcp_host: self.tcp_host.clone(),
            tcp_port: self.tcp_port,
            username: clone_opt_string(&self.username),
            password: clone_opt_string(&self.password),
        }
    }
}

impl SshParams {
    /// A copy with the same fields.
    pub fn duplicate(&self) -> (r: SshParams)
        ensures
            r.host@ == self.host@,
            r.port == self.port,
            r.username@ == self.username@,
            opt_text(r.password) == opt_text(self.password),
    {
        SshParams {
            host: self.host.clone(),
            port: self.port,
            username: self.username.clone(),
            password: clone_opt_string(&self.password),
        }
    }
}

impl ConnectionParams {
    /// Rejects a plainly unusable endpoint description: an empty host or
    /// the port zero.
    pub fn validate(&self) -> (r: Result<(), CusError>)
        ensures
            r is Ok <==> self.redis_params.tcp_host@.len() > 0 && self.redis_params.tcp_port != 0,
            r matches Err(e) ==> e matches CusError::Config(_),
    {
        if self.redis_params.tcp_host.as_str().unicode_len() == 0 {
            Err(CusError::Config(String::from_str("host must not be empty")))
        } else if self.redis_params.tcp_port == 0 {
            Err(CusError::Config(String::from_str("port must not be zero")))
        } else {
            Ok(())
        }
    }
}

/// What the tunnel step must do next: nothing (no tunnel is configured),
/// nothing (a binding already exists — the step is idempotent), or
/// establish a forwarder with the given parameters.
pub enum TunnelPlan {
    NotNeeded,
    AlreadyUp,
    Establish(SshParams),
}

/// A live connection context: its parameters, the local address of the
/// active tunnel if one was established, and whether a tunnel cancellation
/// handle is still held (not yet signalled).
pub struct Connection {
    pub params: ConnectionParams,
    pub tunnel_addr: Option<TunnelAddr>,
    pub tunnel_live: bool,
}

/// The host text a connection's effective endpoint carries: the tunnel's
/// local host when a tunnel is bound, else the configured host.
pub open spec fn effective_host(c: Connection) -> Seq<char> {
    match c.tunnel_addr {
        Some(a) => a.host@,
        None => c.params.redis_params.tcp_host@,
    }
}

/// The port of a connection's effective endpoint.
pub open spec fn effective_port(c: Connection) -> u16 {
    match c.tunnel_addr {
        Some(a) => a.port,
        None => c.params.redis_params.tcp_port,
    }
}

impl Connection {
    pub fn new(params: ConnectionParams) -> (r: Self)
        ensures
            r.params == params,
            r.tunnel_addr is None,
            !r.tunnel_live,
    {
        Connection { params, tunnel_addr: None, tunnel_live: false }
    }

    /// The locally forwarded address, as "host:port", when a tunnel is bound.
    pub fn get_proxy(&self) -> (r: Option<String>)
        ensures
            self.tunnel_addr matches Some(a) ==> r matches Some(s) && s@ == a.host@ + seq![':']
                + dec_chars(a.port as nat),
            self.tunnel_addr is None ==> r is None,
    {
        match &self.tunnel_addr {
            Some(a) => {
                let mut s = a.host.clone();
                push_char(&mut s, ':');
                push_dec_u64(&mut s, a.port as u64);
                Some(s)
            },
            None => None,
        }
    }

    /// Whether the configured store is a cluster.
    pub fn is_cluster(&self) -> (r: bool)
        ensures
            r == self.params.is_cluster,
    {
        self.params.is_cluster
    }

    /// The configured endpoint as "redis://host:port" — always the address
    /// the caller configured, never the tunnel's local one.
    pub fn get_host(&self) -> (r: String)
        ensures
            r@ == "redis://"@ + self.params.redis_params.tcp_host@ + seq![':'] + dec_chars(
                self.params.redis_params.tcp_port as nat,
            ),
    {
        let mut s = String::from_str("redis://");
        s.append(self.params.redis_params.tcp_host.as_str());
        push_char(&mut s, ':');
        push_dec_u64(&mut s, self.params.redis_params.tcp_port as u64);
        s
    }

    /// The effective endpoint: the configured parameters, with host and port
    /// replaced by the tunnel's local address exactly when a tunnel is bound.
    /// Reads the current state and changes nothing.
    pub fn get_connected_params(&self) -> (r: ConnectedParam)
        ensures
            r.tcp_host@ == effective_host(*self),
            r.tcp_port == effective_port(*self),
            opt_text(r.username) == opt_text(self.params.redis_params.username),
            opt_text(r.password) == opt_text(self.params.redis_params.password),
    {
        let mut params = self.params.redis_params.duplicate();
        match &self.tunnel_addr {
            Some(addr) => {
                params.tcp_host = addr.host.clone();
                params.tcp_port = addr.port;
                params
            },
            None => params,
        }
    }

    /// The tunnel configuration, if any.
    pub fn get_ssh_config(&self) -> (r: Option<SshParams>)
        ensures
            r is Some <==> self.params.ssh_params is Some,
    {
        match &self.params.ssh_params {
            Some(p) => Some(p.duplicate()),
            None => None,
        }
    }

    /// What the tunnel step must do for this connection, read off the current
    /// state: nothing when no tunnel is configured, nothing when a binding
    /// already exists (calling again is a no-op, never a second tunnel), and
    /// an establishment order otherwise.
    pub fn ensure_tunnel_plan(&self) -> (r: TunnelPlan)
        ensures
            match self.params.ssh_params {
                None => r is NotNeeded,
                Some(p) => if self.tunnel_addr is Some {
                    r is AlreadyUp
                } else {
                    r matches TunnelPlan::Establish(q) && q.host@ == p.host@ && q.port == p.port
                        && q.username@ == p.username@ && opt_text(q.password) == opt_text(
                        p.password,
                    )
                },
            },
    {
        match &self.params.ssh_params {
            None => TunnelPlan::NotNeeded,
            Some(p) => {
                match &self.tunnel_addr {
                    Some(_) => TunnelPlan::AlreadyUp,
                    None => TunnelPlan::Establish(p.duplicate()),
                }
            },
        }
    }

    /// Takes in what came of carrying out an establishment order: a local
    /// address is stored as the binding, while a failure becomes a tunnel
    /// error and leaves the connection exactly as it was — safe to retry.
    pub fn accept_tunnel(&mut self, outcome: Result<TunnelAddr, String>) -> (r: Result<
        (),
        CusError,
    >)
        ensures
            outcome matches Ok(addr) ==> {
                &&& r is Ok
                &&& final(self).params == old(self).params
                &&& final(self).tunnel_addr == Some(addr)
                &&& final(self).tunnel_live
            },
            outcome matches Err(msg) ==> {
                &&& r matches Err(e) && e matches CusError::Tunnel(m) && m@ == msg@
                &&& *final(self) == *old(self)
            },
    {
        match outcome {
            Ok(addr) => {
                self.store_addr(addr);
                Ok(())
            },
            Err(msg) => Err(CusError::Tunnel(msg)),
        }
    }

    /// Records a successfully established tunnel: its local address, and that
    /// a cancellation handle is now held. Everything else is unchanged.
    pub fn store_addr(&mut self, addr: TunnelAddr)
        ensures
            final(self).params == old(self).params,
            final(self).tunnel_addr == Some(addr),
            final(self).tunnel_live,
    {
        self.tunnel_addr = Some(addr);
        self.tunnel_live = true;
    }

    /// Releases the tunnel. Returns true exactly when a cancellation handle
    /// was still held: the caller must then signal that handle, once. After
    /// the call no handle is held, so a second close never signals again.
    pub fn close_tunnel(&mut self) -> (signal: bool)
        ensures
            signal == old(self).tunnel_live,
            !final(self).tunnel_live,
            final(self).params == old(self).params,
            final(self).tunnel_addr == old(self).tunnel_addr,
    {
        let live = self.tunnel_live;
        self.tunnel_live = false;
        live
    }
}

/// The state a connection is left in by `close_tunnel`.
pub open spec fn closed_tunnel(c: Connection) -> Connection {
    Connection { tunnel_live: false, ..c }
}

/// Whether one call of `close_tunnel` on this state signals the handle.
pub open spec fn close_signals(c: Connection) -> bool {
    c.tunnel_live
}

/// Tunnel teardown happens exactly once: on a connection holding a live
/// handle the first close signals it, and a second close — or any later
/// one — finds no handle and never signals again, however the first close
/// was reached.
pub proof fn lemma_teardown_exactly_once(c: Connection)
    ensures
        close_signals(c) == c.tunnel_live,
        !close_signals(closed_tunnel(c)),
        closed_tunnel(closed_tunnel(c)) == closed_tunnel(c),
{
}

/// The effective endpoint tracks tunnel state: a fresh connection reports
/// the configured host and port, and once a tunnel binding is stored the
/// effective endpoint is exactly the tunnel's local address, never the
/// configured remote one.
pub proof fn lemma_effective_endpoint(c: Connection, addr: TunnelAddr)
    ensures
        c.tunnel_addr is None ==> effective_host(c) == c.params.redis_params.tcp_host@
            && effective_port(c) == c.params.redis_params.tcp_port,
        effective_host(Connection { tunnel_addr: Some(addr), ..c }) == addr.host@,
        effective_port(Connection { tunnel_addr: Some(addr), ..c }) == addr.port,
{
}

}
