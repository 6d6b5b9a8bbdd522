use vstd::prelude::*;
use vstd::string::StringExecFns;

verus! {

/// The error taxonomy of the connection core. Every failure carries a
/// human-readable message and is recoverable by the caller.
#[derive(Debug, Clone)]
pub enum CusError {
    /// A general application-level failure.
    App(String),
    /// Malformed or incomplete endpoint or tunnel configuration.
    Config(String),
    /// The secure-tunnel forwarder could not be set up or torn down.
    Tunnel(String),
    /// A dial did not complete within its deadline.
    Timeout(String),
    /// A protocol-level failure reported by the store, surfaced verbatim.
    Transport(String),
    /// A reply's shape did not match the type the caller asked for.
    Decode(String),
}

/// The human-readable message carried by an error.
pub open spec fn spec_message(e: CusError) -> Seq<char> {
    match e {
        CusError::App(s) => s@,
        CusError::Config(s) => s@,
        CusError::Tunnel(s) => s@,
        CusError::Timeout(s) => s@,
        CusError::Transport(s) => s@,
        CusError::Decode(s) => s@,
    }
}

pub fn new_normal() -> (r: CusError)
    ensures
        r matches CusError::App(s) && s@ == "something go wrong"@,
{
    CusError::App(String::from_str("something go wrong"))
}

impl CusError {
    pub fn build(s: &str) -> (r: Self)
        ensures
            r matches CusError::App(t) && t@ == s@,
    {
        CusError::App(String::from_str(s))
    }

    pub fn reopen() -> (r: Self)
        ensures
            r matches CusError::App(s) && s@ == "Please reopen the connection"@,
    {
        CusError::App(String::from_str("Please reopen the connection"))
    }

    pub fn connection_not_found() -> (r: Self)
        ensures
            r matches CusError::App(s) && s@ == "Connection not found"@,
    {
        CusError::App(String::from_str("Connection not found"))
    }

    pub fn key_not_exists() -> (r: Self)
        ensures
            r matches CusError::App(s) && s@ == "Key not exists"@,
    {
        CusError::App(String::from_str("Key not exists"))
    }

    /// The message shown to the user for this error.
    pub fn message(&self) -> (r: String)
        ensures
            r@ == spec_message(*self),
    {
        match self {
            CusError::App(s) => s.clone(),
            CusError::Config(s) => s.clone(),
            CusError::Tunnel(s) => s.clone(),
            CusError::Timeout(s) => s.clone(),
            CusError::Transport(s) => s.clone(),
            CusError::Decode(s) => s.clone(),
        }
    }
}

}
