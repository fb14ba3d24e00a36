//! Resolution of a mode selection and the active server profile into the
//! argument set the agent binary is launched with.

use vstd::prelude::*;

use crate::server::ServerInfo;
use crate::state::{AccessMode, ProtocolMode};

verus! {

/// The decimal digit character for a value below ten.
pub open spec fn digit_char(d: nat) -> char {
    if d == 0 {
        '0'
    } else if d == 1 {
        '1'
    } else if d == 2 {
        '2'
    } else if d == 3 {
        '3'
    } else if d == 4 {
        '4'
    } else if d == 5 {
        '5'
    } else if d == 6 {
        '6'
    } else if d == 7 {
        '7'
    } else if d == 8 {
        '8'
    } else {
        '9'
    }
}

/// The decimal spelling of `n`, most significant digit first.
pub open spec fn dec_str(n: nat) -> Seq<char>
    decreases n,
{
    if n < 10 {
        seq![digit_char(n)]
    } else {
        dec_str(n / 10).push(digit_char(n % 10))
    }
}

/// The numeric value a decimal digit character stands for.
pub open spec fn digit_val(c: char) -> nat {
    if c == '0' {
        0
    } else if c == '1' {
        1
    } else if c == '2' {
        2
    } else if c == '3' {
        3
    } else if c == '4' {
        4
    } else if c == '5' {
        5
    } else if c == '6' {
        6
    } else if c == '7' {
        7
    } else if c == '8' {
        8
    } else {
        9
    }
}

/// The number a digit sequence spells, most significant digit first.
pub open spec fn dec_val(s: Seq<char>) -> nat
    decreases s.len(),
{
    if s.len() == 0 {
        0
    } else {
        dec_val(s.drop_last()) * 10 + digit_val(s.last())
    }
}

/// The decimal spelling of `n` spells `n` back: it is non-empty, consists of
/// digit characters, has no leading zero unless it is "0" itself, and
/// evaluates to `n`.
pub proof fn lemma_dec_str_spells_value(n: nat)
    ensures
        dec_val(dec_str(n)) == n,
        dec_str(n).len() > 0,
        forall|i: int| 0 <= i < dec_str(n).len() ==> digit_char(digit_val(#[trigger] dec_str(n)[i]))
            == dec_str(n)[i],
        n > 0 ==> dec_str(n)[0] != '0',
    decreases n,
{
    if n < 10 {
        assert(dec_str(n) =~= seq![digit_char(n)]);
        assert(dec_str(n).drop_last() =~= Seq::<char>::empty());
        assert(dec_val(Seq::<char>::empty()) == 0);
        assert(digit_val(digit_char(n)) == n);
    } else {
        lemma_dec_str_spells_value(n / 10);
        let prefix = dec_str(n / 10);
        let d = digit_char(n % 10);
        assert(dec_str(n) =~= prefix.push(d));
        assert(dec_str(n).drop_last() =~= prefix);
        assert(dec_val(dec_str(n)) == dec_val(prefix) * 10 + digit_val(d));
        assert((n / 10) * 10 + n % 10 == n) by (nonlinear_arith);
        assert forall|i: int| 0 <= i < dec_str(n).len() implies digit_char(
            digit_val(#[trigger] dec_str(n)[i]),
        ) == dec_str(n)[i] by {
            if i < prefix.len() {
                assert(dec_str(n)[i] == prefix[i]);
            } else {
                assert(dec_str(n)[i] == d);
            }
        }
    }
}

fn digit_str(d: u16) -> (r: &'static str)
    requires
        d < 10,
    ensures
        r@ == seq![digit_char(d as nat)],
{
    proof {
        reveal_strlit("0");
        reveal_strlit("1");
        reveal_strlit("2");
        reveal_strlit("3");
        reveal_strlit("4");
        reveal_strlit("5");
        reveal_strlit("6");
        reveal_strlit("7");
        reveal_strlit("8");
        reveal_strlit("9");
    }
    let r = match d {
        0 => "0",
        1 => "1",
        2 => "2",
        3 => "3",
        4 => "4",
        5 => "5",
        6 => "6",
        7 => "7",
        8 => "8",
        _ => "9",
    };
    proof {
        assert(r@ =~= seq![digit_char(d as nat)]);
    }
    r
}

/// The decimal spelling of a port number.
pub fn port_string(n: u16) -> (s: String)
    ensures
        s@ == dec_str(n as nat),
    decreases n,
{
    if n < 10 {
        digit_str(n).to_owned()
    } else {
        let mut s = port_string(n / 10);
        s.append(digit_str(n % 10));
        proof {
            assert(s@ =~= dec_str((n / 10) as nat).push(digit_char((n % 10) as nat)));
        }
        s
    }
}

/// The upstream address for a profile under a protocol mode: the QUIC port
/// under QUIC, the TCP port under TCP, and nothing under TCP when the profile
/// has no TCP port.
pub open spec fn spec_server_addr(server: crate::server::ServerInfoV, p: ProtocolMode) -> Option<
    Seq<char>,
> {
    match p {
        ProtocolMode::Quic => Some(server.host + seq![':'] + dec_str(server.quic_port as nat)),
        ProtocolMode::Tcp => match server.tcp_port {
            Some(port) => Some(server.host + seq![':'] + dec_str(port as nat)),
            None => None,
        },
    }
}

/// Resolves the `host:port` the agent is pointed at.
pub fn server_addr(server: &ServerInfo, p: ProtocolMode) -> (r: Option<String>)
    ensures
        match spec_server_addr(server@, p) {
            Some(addr) => r is Some && r.unwrap()@ == addr,
            None => r is None,
        },
{
    let port = match p {
        ProtocolMode::Quic => server.quic_port,
        ProtocolMode::Tcp => match server.tcp_port {
            Some(port) => port,
            None => {
                return None;
            },
        },
    };
    proof {
        reveal_strlit(":");
        assert(":"@ =~= seq![':']);
    }
    let addr = server.host.clone().concat(":").concat(port_string(port).as_str());
    Some(addr)
}

/// The fully resolved launch arguments of the agent process.
#[derive(Debug)]
pub struct LaunchArgs {
    pub proxy_rules_path: String,
    pub direct_rules_path: String,
    pub cert_path: String,
    pub server_addr: String,
    pub access_mode: AccessMode,
    pub protocol_mode: ProtocolMode,
}

/// Mathematical view of the launch arguments.
pub struct LaunchArgsV {
    pub proxy_rules_path: Seq<char>,
    pub direct_rules_path: Seq<char>,
    pub cert_path: Seq<char>,
    pub server_addr: Seq<char>,
    pub access_mode: AccessMode,
    pub protocol_mode: ProtocolMode,
}

impl View for LaunchArgs {
    type V = LaunchArgsV;

    open spec fn view(&self) -> LaunchArgsV {
        LaunchArgsV {
            proxy_rules_path: self.proxy_rules_path@,
            direct_rules_path: self.direct_rules_path@,
            cert_path: self.cert_path@,
            server_addr: self.server_addr@,
            access_mode: self.access_mode,
            protocol_mode: self.protocol_mode,
        }
    }
}

/// The command line the agent binary is invoked with: flag and value pairs
/// for the combined proxy rule list, the direct rule list, the TLS
/// certificate, the upstream address, the access mode, and the protocol mode.
pub fn arg_vector(args: &LaunchArgs) -> (v: Vec<String>)
    ensures
        v@.len() == 12,
        v@[0]@ == "-p"@,
        v@[1]@ == args@.proxy_rules_path,
        v@[2]@ == "-d"@,
        v@[3]@ == args@.direct_rules_path,
        v@[4]@ == "-c"@,
        v@[5]@ == args@.cert_path,
        v@[6]@ == "-r"@,
        v@[7]@ == args@.server_addr,
        v@[8]@ == "-a"@,
        v@[9]@ == args.access_mode.spec_str(),
        v@[10]@ == "-O"@,
        v@[11]@ == args.protocol_mode.spec_str(),
{
    let mut v: Vec<String> = Vec::new();
    v.push("-p".to_owned());
    v.push(args.proxy_rules_path.clone());
    v.push("-d".to_owned());
    v.push(args.direct_rules_path.clone());
    v.push("-c".to_owned());
    v.push(args.cert_path.clone());
    v.push("-r".to_owned());
    v.push(args.server_addr.clone());
    v.push("-a".to_owned());
    v.push(args.access_mode.as_str().to_owned());
    v.push("-O".to_owned());
    v.push(args.protocol_mode.as_str().to_owned());
    v
}

} // verus!
