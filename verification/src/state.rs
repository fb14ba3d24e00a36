//! Mode selections and the two pieces of shared mutable state: the recorded
//! agent PID and the "agent is active" flag.

use vstd::prelude::*;

verus! {

/// Records the OS PID of the most recently spawned agent process. A PID of 0
/// means that no process has been recorded.
#[derive(Debug)]
pub struct SidecarState(pub u32);

impl SidecarState {
    pub fn default() -> (r: Self)
        ensures
            r.0 == 0,
    {
        Self(0)
    }

    pub fn set(&mut self, pid: u32)
        ensures
            final(self).0 == pid,
    {
        self.0 = pid;
    }

    pub fn get(&self) -> (r: u32)
        ensures
            r == self.0,
    {
        self.0
    }
}

/// The active flag: true iff an agent instance has been successfully launched
/// and not yet confirmed stopped.
pub struct AgentState(pub bool);

impl Default for AgentState {
    fn default() -> (r: Self)
        ensures
            r.0 == false,
    {
        AgentState(false)
    }
}

impl AgentState {
    pub fn set(&mut self, state: bool)
        ensures
            final(self).0 == state,
    {
        self.0 = state;
    }

    pub fn get(&self) -> (r: bool)
        ensures
            r == self.0,
    {
        self.0
    }
}

/// Routing policy of the agent: automatic rule-based split routing, or full
/// proxying of all traffic. A fully direct host (no proxy, no agent) is not a
/// value of this enum but the coordinator's stopped state.
#[derive(Clone, Copy, Debug, PartialEq, Eq, Structural)]
pub enum AccessMode {
    Auto,
    Proxy,
}

/// Which local listener kind the OS proxy settings point at.
#[derive(Clone, Copy, Debug, PartialEq, Eq, Structural)]
pub enum BindMode {
    Socks,
    Http,
}

/// Which transport the agent uses toward the upstream server.
#[derive(Clone, Copy, Debug, PartialEq, Eq, Structural)]
pub enum ProtocolMode {
    Quic,
    Tcp,
}

impl AccessMode {
    pub open spec fn spec_str(self) -> Seq<char> {
        match self {
            AccessMode::Auto => "auto"@,
            AccessMode::Proxy => "proxy"@,
        }
    }

    /// The stored (and launch-argument) spelling of the mode.
    pub fn as_str(&self) -> (r: &'static str)
        ensures
            r@ == self.spec_str(),
    {
        match self {
            AccessMode::Auto => "auto",
            AccessMode::Proxy => "proxy",
        }
    }
}

impl BindMode {
    pub open spec fn spec_str(self) -> Seq<char> {
        match self {
            BindMode::Socks => "socks"@,
            BindMode::Http => "http"@,
        }
    }

    /// The stored spelling of the mode.
    pub fn as_str(&self) -> (r: &'static str)
        ensures
            r@ == self.spec_str(),
    {
        match self {
            BindMode::Socks => "socks",
            BindMode::Http => "http",
        }
    }
}

impl ProtocolMode {
    pub open spec fn spec_str(self) -> Seq<char> {
        match self {
            ProtocolMode::Quic => "quic"@,
            ProtocolMode::Tcp => "tcp"@,
        }
    }

    /// The stored (and launch-argument) spelling of the mode.
    pub fn as_str(&self) -> (r: &'static str)
        ensures
            r@ == self.spec_str(),
    {
        match self {
            ProtocolMode::Quic => "quic",
            ProtocolMode::Tcp => "tcp",
        }
    }
}

pub open spec fn spec_parse_access_mode(s: Seq<char>) -> Option<AccessMode> {
    if s == "auto"@ {
        Some(AccessMode::Auto)
    } else if s == "proxy"@ {
        Some(AccessMode::Proxy)
    } else {
        None
    }
}

pub open spec fn spec_parse_bind_mode(s: Seq<char>) -> Option<BindMode> {
    if s == "socks"@ {
        Some(BindMode::Socks)
    } else if s == "http"@ {
        Some(BindMode::Http)
    } else {
        None
    }
}

pub open spec fn spec_parse_protocol_mode(s: Seq<char>) -> Option<ProtocolMode> {
    if s == "quic"@ {
        Some(ProtocolMode::Quic)
    } else if s == "tcp"@ {
        Some(ProtocolMode::Tcp)
    } else {
        None
    }
}

pub(crate) fn str_eq(a: &str, b: &str) -> (r: bool)
    ensures
        r == (a@ == b@),
{
    let a_string: String = a.to_owned();
    let b_string: String = b.to_owned();
    a_string == b_string
}

/// Parses the stored spelling of an access mode.
pub fn parse_access_mode(s: &str) -> (r: Option<AccessMode>)
    ensures
        r == spec_parse_access_mode(s@),
{
    if str_eq(s, "auto") {
        Some(AccessMode::Auto)
    } else if str_eq(s, "proxy") {
        Some(AccessMode::Proxy)
    } else {
        None
    }
}

/// Parses the stored spelling of a bind mode.
pub fn parse_bind_mode(s: &str) -> (r: Option<BindMode>)
    ensures
        r == spec_parse_bind_mode(s@),
{
    if str_eq(s, "socks") {
        Some(BindMode::Socks)
    } else if str_eq(s, "http") {
        Some(BindMode::Http)
    } else {
        None
    }
}

/// Parses the stored spelling of a protocol mode.
pub fn parse_protocol_mode(s: &str) -> (r: Option<ProtocolMode>)
    ensures
        r == spec_parse_protocol_mode(s@),
{
    if str_eq(s, "quic") {
        Some(ProtocolMode::Quic)
    } else if str_eq(s, "tcp") {
        Some(ProtocolMode::Tcp)
    } else {
        None
    }
}

/// The access mode recorded in the store, or the default when the store holds
/// no readable value.
pub fn get_access_mode(stored: Option<&str>) -> (r: AccessMode)
    ensures
        r == match stored {
            Some(s) => match spec_parse_access_mode(s@) {
                Some(m) => m,
                None => AccessMode::Auto,
            },
            None => AccessMode::Auto,
        },
{
    match stored {
        Some(s) => match parse_access_mode(s) {
            Some(m) => m,
            None => AccessMode::Auto,
        },
        None => AccessMode::Auto,
    }
}

/// The bind mode recorded in the store, or the default when the store holds
/// no readable value.
pub fn get_bind_mode(stored: Option<&str>) -> (r: BindMode)
    ensures
        r == match stored {
            Some(s) => match spec_parse_bind_mode(s@) {
                Some(m) => m,
                None => BindMode::Socks,
            },
            None => BindMode::Socks,
        },
{
    match stored {
        Some(s) => match parse_bind_mode(s) {
            Some(m) => m,
            None => BindMode::Socks,
        },
        None => BindMode::Socks,
    }
}

/// The protocol mode recorded in the store, or the default when the store
/// holds no readable value.
pub fn get_protocol_mode(stored: Option<&str>) -> (r: ProtocolMode)
    ensures
        r == match stored {
            Some(s) => match spec_parse_protocol_mode(s@) {
                Some(m) => m,
                None => ProtocolMode::Quic,
            },
            None => ProtocolMode::Quic,
        },
{
    match stored {
        Some(s) => match parse_protocol_mode(s) {
            Some(m) => m,
            None => ProtocolMode::Quic,
        },
        None => ProtocolMode::Quic,
    }
}

/// Every mode parses back from its own spelling.
pub proof fn lemma_mode_spelling_round_trip(a: AccessMode, b: BindMode, p: ProtocolMode)
    ensures
        spec_parse_access_mode(a.spec_str()) == Some(a),
        spec_parse_bind_mode(b.spec_str()) == Some(b),
        spec_parse_protocol_mode(p.spec_str()) == Some(p),
{
    reveal_strlit("auto");
    reveal_strlit("proxy");
    reveal_strlit("socks");
    reveal_strlit("http");
    reveal_strlit("quic");
    reveal_strlit("tcp");
    assert("auto"@.len() == 4);
    assert("proxy"@.len() == 5);
    assert("socks"@.len() == 5);
    assert("http"@.len() == 4);
    assert("quic"@.len() == 4);
    assert("tcp"@.len() == 3);
    assert("socks"@[0] == 's' && "proxy"@[0] == 'p');
}

} // verus!
