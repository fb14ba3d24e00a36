//! Server profiles, listen endpoints, and the operations that maintain the
//! user's server list. Profiles are unique by host; all operations here keep
//! that uniqueness.

use vstd::prelude::*;

verus! {

/// Mathematical view of a server profile.
pub struct ServerInfoV {
    pub host: Seq<char>,
    pub quic_port: u16,
    pub tcp_port: Option<u16>,
    pub cert: Seq<char>,
    pub cert_key: Seq<char>,
    pub alias: Option<Seq<char>>,
}

/// An upstream server profile maintained by the user.
#[derive(Debug)]
pub struct ServerInfo {
    pub host: String,
    pub quic_port: u16,
    pub tcp_port: Option<u16>,
    pub cert: String,
    pub cert_key: String,
    pub alias: Option<String>,
}

impl View for ServerInfo {
    type V = ServerInfoV;

    open spec fn view(&self) -> ServerInfoV {
        ServerInfoV {
            host: self.host@,
            quic_port: self.quic_port,
            tcp_port: self.tcp_port,
            cert: self.cert@,
            cert_key: self.cert_key@,
            alias: match self.alias {
                Some(a) => Some(a@),
                None => None,
            },
        }
    }
}

impl Clone for ServerInfo {
    fn clone(&self) -> (r: Self)
        ensures
            r@ == self@,
    {
        ServerInfo {
            host: self.host.clone(),
            quic_port: self.quic_port,
            tcp_port: self.tcp_port,
            cert: self.cert.clone(),
            cert_key: self.cert_key.clone(),
            alias: match &self.alias {
                Some(a) => Some(a.clone()),
                None => None,
            },
        }
    }
}

/// Mathematical view of a listen endpoint.
pub struct AddrInfoV {
    pub host: Seq<char>,
    pub port: u16,
}

/// A local listen endpoint: the address one of the agent's listeners binds to.
#[derive(Debug)]
pub struct AddrInfo {
    pub host: String,
    pub port: u16,
}

impl View for AddrInfo {
    type V = AddrInfoV;

    open spec fn view(&self) -> AddrInfoV {
        AddrInfoV { host: self.host@, port: self.port }
    }
}

impl Clone for AddrInfo {
    fn clone(&self) -> (r: Self)
        ensures
            r@ == self@,
    {
        AddrInfo { host: self.host.clone(), port: self.port }
    }
}

impl AddrInfo {
    pub fn new(host: String, port: u16) -> (r: Self)
        ensures
            r@.host == host@,
            r@.port == port,
    {
        Self { host, port }
    }
}

/// Both listen endpoints, as a settings window submits them.
#[derive(Debug)]
pub struct ListenConfig {
    pub socks_ip: String,
    pub socks_port: u16,
    pub http_ip: String,
    pub http_port: u16,
}

/// The stored listen endpoints; either may be absent from the store.
#[derive(Debug)]
pub struct ListenConfigOption {
    pub socks_config: Option<AddrInfo>,
    pub http_config: Option<AddrInfo>,
}

impl ListenConfigOption {
    pub fn new(socks_config: Option<AddrInfo>, http_config: Option<AddrInfo>) -> (r: Self)
        ensures
            r.socks_config == socks_config,
            r.http_config == http_config,
    {
        Self { socks_config, http_config }
    }
}

/// Splits a submitted listen configuration into the two endpoints under which
/// it is stored.
pub fn listen_endpoints(config: &ListenConfig) -> (r: (AddrInfo, AddrInfo))
    ensures
        r.0@.host == config.socks_ip@,
        r.0@.port == config.socks_port,
        r.1@.host == config.http_ip@,
        r.1@.port == config.http_port,
{
    let socks_config = AddrInfo::new(config.socks_ip.clone(), config.socks_port);
    let http_config = AddrInfo::new(config.http_ip.clone(), config.http_port);
    (socks_config, http_config)
}

/// The listen endpoint the SOCKS listener binds to until one is configured.
pub fn default_socks_endpoint() -> (r: AddrInfo)
    ensures
        r@.host == "127.0.0.1"@,
        r@.port == 1080,
{
    AddrInfo::new("127.0.0.1".to_owned(), 1080)
}

/// The listen endpoint the HTTP listener binds to until one is configured.
pub fn default_http_endpoint() -> (r: AddrInfo)
    ensures
        r@.host == "127.0.0.1"@,
        r@.port == 1081,
{
    AddrInfo::new("127.0.0.1".to_owned(), 1081)
}

/// The index of the first profile with the given host, if any.
pub open spec fn spec_find_server(servers: Seq<ServerInfoV>, host: Seq<char>) -> Option<int>
    decreases servers.len(),
{
    if servers.len() == 0 {
        None
    } else if servers[0].host == host {
        Some(0)
    } else {
        match spec_find_server(servers.drop_first(), host) {
            Some(i) => Some(i + 1),
            None => None,
        }
    }
}

/// No two profiles share a host.
pub open spec fn hosts_unique(servers: Seq<ServerInfoV>) -> bool {
    forall|i: int, j: int|
        0 <= i < j < servers.len() ==> servers[i].host != servers[j].host
}

pub open spec fn servers_view(servers: Seq<ServerInfo>) -> Seq<ServerInfoV> {
    servers.map_values(|s: ServerInfo| s@)
}

proof fn lemma_find_server_properties(servers: Seq<ServerInfoV>, host: Seq<char>)
    ensures
        match spec_find_server(servers, host) {
            Some(i) => 0 <= i < servers.len() && servers[i].host == host && forall|j: int|
                0 <= j < i ==> servers[j].host != host,
            None => forall|j: int| 0 <= j < servers.len() ==> servers[j].host != host,
        },
    decreases servers.len(),
{
    if servers.len() > 0 && servers[0].host != host {
        lemma_find_server_properties(servers.drop_first(), host);
        assert forall|j: int| 1 <= j < servers.len() implies servers.drop_first()[j - 1]
            == servers[j] by {}
    }
}

proof fn lemma_find_server_first_match(servers: Seq<ServerInfoV>, host: Seq<char>, i: int)
    requires
        0 <= i < servers.len(),
        servers[i].host == host,
        forall|j: int| 0 <= j < i ==> servers[j].host != host,
    ensures
        spec_find_server(servers, host) == Some(i),
    decreases servers.len(),
{
    if i > 0 {
        lemma_find_server_first_match(servers.drop_first(), host, i - 1);
    }
}

fn find_server(servers: &Vec<ServerInfo>, host: &str) -> (r: Option<usize>)
    ensures
        match r {
            Some(i) => i < servers.len() && servers@[i as int]@.host == host@
                && spec_find_server(servers_view(servers@), host@) == Some(i as int),
            None => spec_find_server(servers_view(servers@), host@) is None,
        },
{
    let ghost view = servers_view(servers@);
    let mut i: usize = 0;
    while i < servers.len()
        invariant
            0 <= i <= servers.len(),
            view == servers_view(servers@),
            view.len() == servers@.len(),
            forall|j: int| 0 <= j < i ==> view[j].host != host@,
        decreases servers.len() - i,
    {
        let a: String = servers[i].host.clone();
        let b: String = host.to_owned();
        if a == b {
            proof {
                assert(view[i as int] == servers@[i as int]@);
                lemma_find_server_first_match(view, host@, i as int);
            }
            return Some(i);
        }
        proof {
            assert(view[i as int] == servers@[i as int]@);
        }
        i += 1;
    }
    proof {
        lemma_find_server_properties(view, host@);
    }
    None
}

/// The first profile with the given host, if any; the list is unchanged.
pub fn get_server(servers: &Vec<ServerInfo>, host: &str) -> (r: Option<ServerInfo>)
    ensures
        match spec_find_server(servers_view(servers@), host@) {
            Some(i) => r is Some && r.unwrap()@ == servers@[i]@,
            None => r is None,
        },
{
    match find_server(servers, host) {
        Some(i) => Some(servers[i].clone()),
        None => None,
    }
}

/// Appends a new profile. Rejects a host that is already present, so a unique
/// list stays unique; returns whether the profile was added.
pub fn add_server(servers: &mut Vec<ServerInfo>, server: ServerInfo) -> (added: bool)
    ensures
        added == (spec_find_server(servers_view(old(servers)@), server@.host) is None),
        added ==> final(servers)@ == old(servers)@.push(server),
        !added ==> final(servers)@ == old(servers)@,
        hosts_unique(servers_view(old(servers)@)) ==> hosts_unique(
            servers_view(final(servers)@),
        ),
{
    let found = find_server(servers, server.host.as_str());
    proof {
        lemma_find_server_properties(servers_view(servers@), server@.host);
    }
    match found {
        Some(_) => false,
        None => {
            servers.push(server);
            proof {
                assert(servers_view(servers@) =~= servers_view(old(servers)@).push(server@));
            }
            true
        },
    }
}

/// Replaces the first profile whose host matches the given profile's host;
/// returns whether one was found.
pub fn update_server(servers: &mut Vec<ServerInfo>, server: ServerInfo) -> (updated: bool)
    ensures
        updated == (spec_find_server(servers_view(old(servers)@), server@.host) is Some),
        updated ==> final(servers)@ == old(servers)@.update(
            spec_find_server(servers_view(old(servers)@), server@.host).unwrap(),
            server,
        ),
        !updated ==> final(servers)@ == old(servers)@,
        hosts_unique(servers_view(old(servers)@)) ==> hosts_unique(
            servers_view(final(servers)@),
        ),
{
    let found = find_server(servers, server.host.as_str());
    proof {
        lemma_find_server_properties(servers_view(servers@), server@.host);
    }
    match found {
        Some(i) => {
            let ghost pre = servers_view(servers@);
            servers.set(i, server);
            proof {
                assert(servers_view(servers@) =~= pre.update(i as int, server@));
            }
            true
        },
        None => false,
    }
}

/// Removes the first profile with the given host; returns whether one was
/// found.
pub fn delete_server(servers: &mut Vec<ServerInfo>, host: &str) -> (deleted: bool)
    ensures
        deleted == (spec_find_server(servers_view(old(servers)@), host@) is Some),
        deleted ==> final(servers)@ == old(servers)@.remove(
            spec_find_server(servers_view(old(servers)@), host@).unwrap(),
        ),
        !deleted ==> final(servers)@ == old(servers)@,
        hosts_unique(servers_view(old(servers)@)) ==> hosts_unique(
            servers_view(final(servers)@),
        ),
{
    let found = find_server(servers, host);
    proof {
        lemma_find_server_properties(servers_view(servers@), host@);
    }
    match found {
        Some(i) => {
            let ghost pre = servers_view(servers@);
            servers.remove(i);
            proof {
                assert(servers_view(servers@) =~= pre.remove(i as int));
            }
            true
        },
        None => false,
    }
}

} // verus!
