//! The network mode switcher's command plan. Each target is a fixed, ordered
//! list of idempotent per-interface directives; conflicting proxy kinds are
//! disabled before the target kind is enabled, so no transient window has two
//! proxy kinds active at once. The caller issues the directives in order and
//! reports the first failing one; directives already applied are left alone,
//! since OS proxy settings are user-inspectable state, not a transaction.

use vstd::prelude::*;

use crate::server::{AddrInfo, AddrInfoV};

verus! {

/// One of the OS proxy configuration kinds a directive addresses.
#[derive(Clone, Copy, Debug, PartialEq, Eq, Structural)]
pub enum ProxyKind {
    AutoConfig,
    SecureWeb,
    Web,
    SocksFirewall,
}

/// Mathematical view of a directive's operation.
pub enum DirectiveOpV {
    Disable,
    Enable,
    SetEndpoint(AddrInfoV),
}

/// What a directive does to its proxy kind.
#[derive(Debug)]
pub enum DirectiveOp {
    Disable,
    Enable,
    SetEndpoint(AddrInfo),
}

impl View for DirectiveOp {
    type V = DirectiveOpV;

    open spec fn view(&self) -> DirectiveOpV {
        match self {
            DirectiveOp::Disable => DirectiveOpV::Disable,
            DirectiveOp::Enable => DirectiveOpV::Enable,
            DirectiveOp::SetEndpoint(ep) => DirectiveOpV::SetEndpoint(ep@),
        }
    }
}

/// Mathematical view of one OS configuration directive.
pub struct DirectiveV {
    pub interface: Seq<char>,
    pub kind: ProxyKind,
    pub op: DirectiveOpV,
}

/// One OS configuration directive: apply `op` to proxy kind `kind` on network
/// interface `interface`.
#[derive(Debug)]
pub struct Directive {
    pub interface: String,
    pub kind: ProxyKind,
    pub op: DirectiveOp,
}

impl View for Directive {
    type V = DirectiveV;

    open spec fn view(&self) -> DirectiveV {
        DirectiveV { interface: self.interface@, kind: self.kind, op: self.op@ }
    }
}

/// Mathematical view of a switch target.
pub enum NetTargetV {
    Direct,
    Socks(AddrInfoV),
    Http(AddrInfoV),
}

/// The effective proxy configuration the OS is asked to take: no proxy at
/// all, or one listener endpoint of the given kind.
#[derive(Debug)]
pub enum NetTarget {
    Direct,
    Socks(AddrInfo),
    Http(AddrInfo),
}

impl View for NetTarget {
    type V = NetTargetV;

    open spec fn view(&self) -> NetTargetV {
        match self {
            NetTarget::Direct => NetTargetV::Direct,
            NetTarget::Socks(ep) => NetTargetV::Socks(ep@),
            NetTarget::Http(ep) => NetTargetV::Http(ep@),
        }
    }
}

/// The ordered operations one interface receives for a target.
pub open spec fn ops_for(t: NetTargetV) -> Seq<(ProxyKind, DirectiveOpV)> {
    match t {
        NetTargetV::Direct => seq![
            (ProxyKind::AutoConfig, DirectiveOpV::Disable),
            (ProxyKind::SecureWeb, DirectiveOpV::Disable),
            (ProxyKind::Web, DirectiveOpV::Disable),
            (ProxyKind::SocksFirewall, DirectiveOpV::Disable),
        ],
        NetTargetV::Socks(ep) => seq![
            (ProxyKind::AutoConfig, DirectiveOpV::Disable),
            (ProxyKind::SecureWeb, DirectiveOpV::Disable),
            (ProxyKind::Web, DirectiveOpV::Disable),
            (ProxyKind::SocksFirewall, DirectiveOpV::Enable),
            (ProxyKind::SocksFirewall, DirectiveOpV::SetEndpoint(ep)),
        ],
        NetTargetV::Http(ep) => seq![
            (ProxyKind::AutoConfig, DirectiveOpV::Disable),
            (ProxyKind::SocksFirewall, DirectiveOpV::Disable),
            (ProxyKind::SecureWeb, DirectiveOpV::Enable),
            (ProxyKind::SecureWeb, DirectiveOpV::SetEndpoint(ep)),
            (ProxyKind::Web, DirectiveOpV::Enable),
            (ProxyKind::Web, DirectiveOpV::SetEndpoint(ep)),
        ],
    }
}

/// The directives one interface receives for a target.
pub open spec fn directives_for_iface(t: NetTargetV, iface: Seq<char>) -> Seq<DirectiveV> {
    ops_for(t).map_values(
        |p: (ProxyKind, DirectiveOpV)| DirectiveV { interface: iface, kind: p.0, op: p.1 },
    )
}

/// The full command plan for a target, one interface group after another.
pub open spec fn directives_spec(t: NetTargetV, ifaces: Seq<Seq<char>>) -> Seq<DirectiveV>
    decreases ifaces.len(),
{
    if ifaces.len() == 0 {
        Seq::empty()
    } else {
        directives_for_iface(t, ifaces[0]) + directives_spec(t, ifaces.drop_first())
    }
}

proof fn lemma_directives_spec_push(t: NetTargetV, ifaces: Seq<Seq<char>>, iface: Seq<char>)
    ensures
        directives_spec(t, ifaces.push(iface)) == directives_spec(t, ifaces)
            + directives_for_iface(t, iface),
    decreases ifaces.len(),
{
    if ifaces.len() == 0 {
        assert(ifaces.push(iface).drop_first() =~= Seq::<Seq<char>>::empty());
        assert(ifaces.push(iface)[0] == iface);
        assert(directives_spec(t, ifaces.push(iface).drop_first()) =~= Seq::<DirectiveV>::empty());
        assert(directives_spec(t, ifaces.push(iface)) =~~= directives_spec(t, ifaces)
            + directives_for_iface(t, iface));
    } else {
        assert(ifaces.push(iface).drop_first() =~= ifaces.drop_first().push(iface));
        assert(ifaces.push(iface)[0] == ifaces[0]);
        lemma_directives_spec_push(t, ifaces.drop_first(), iface);
        assert(directives_spec(t, ifaces.push(iface)) =~~= directives_spec(t, ifaces)
            + directives_for_iface(t, iface));
    }
}

fn push_directive(v: &mut Vec<Directive>, iface: &String, kind: ProxyKind, op: DirectiveOp)
    ensures
        final(v)@.map_values(|d: Directive| d@) == old(v)@.map_values(|d: Directive| d@).push(
            (DirectiveV { interface: iface@, kind, op: op@ }),
        ),
{
    v.push(Directive { interface: iface.clone(), kind, op });
    proof {
        assert(v@.map_values(|d: Directive| d@) =~= old(v)@.map_values(|d: Directive| d@).push(
            DirectiveV { interface: iface@, kind, op: op@ },
        ));
    }
}

/// Builds the ordered command plan that places every given interface into the
/// target configuration.
pub fn directives_for(target: &NetTarget, interfaces: &Vec<String>) -> (v: Vec<Directive>)
    ensures
        v@.map_values(|d: Directive| d@) == directives_spec(target@, interfaces.deep_view()),
{
    let ghost ifaces = interfaces.deep_view();
    let mut v: Vec<Directive> = Vec::new();
    proof {
        assert(v@.map_values(|d: Directive| d@) =~= directives_spec(target@, ifaces.take(0)));
    }
    let mut i: usize = 0;
    while i < interfaces.len()
        invariant
            0 <= i <= interfaces.len(),
            ifaces == interfaces.deep_view(),
            ifaces.len() == interfaces@.len(),
            v@.map_values(|d: Directive| d@) == directives_spec(target@, ifaces.take(i as int)),
        decreases interfaces.len() - i,
    {
        let iface = &interfaces[i];
        proof {
            assert(ifaces[i as int] == interfaces@[i as int]@);
        }
        match target {
            NetTarget::Direct => {
                push_directive(&mut v, iface, ProxyKind::AutoConfig, DirectiveOp::Disable);
                push_directive(&mut v, iface, ProxyKind::SecureWeb, DirectiveOp::Disable);
                push_directive(&mut v, iface, ProxyKind::Web, DirectiveOp::Disable);
                push_directive(&mut v, iface, ProxyKind::SocksFirewall, DirectiveOp::Disable);
            },
            NetTarget::Socks(ep) => {
                push_directive(&mut v, iface, ProxyKind::AutoConfig, DirectiveOp::Disable);
                push_directive(&mut v, iface, ProxyKind::SecureWeb, DirectiveOp::Disable);
                push_directive(&mut v, iface, ProxyKind::Web, DirectiveOp::Disable);
                push_directive(&mut v, iface, ProxyKind::SocksFirewall, DirectiveOp::Enable);
                push_directive(
                    &mut v,
                    iface,
                    ProxyKind::SocksFirewall,
                    DirectiveOp::SetEndpoint(ep.clone()),
                );
            },
            NetTarget::Http(ep) => {
                push_directive(&mut v, iface, ProxyKind::AutoConfig, DirectiveOp::Disable);
                push_directive(&mut v, iface, ProxyKind::SocksFirewall, DirectiveOp::Disable);
                push_directive(&mut v, iface, ProxyKind::SecureWeb, DirectiveOp::Enable);
                push_directive(
                    &mut v,
                    iface,
                    ProxyKind::SecureWeb,
                    DirectiveOp::SetEndpoint(ep.clone()),
                );
                push_directive(&mut v, iface, ProxyKind::Web, DirectiveOp::Enable);
                push_directive(
                    &mut v,
                    iface,
                    ProxyKind::Web,
                    DirectiveOp::SetEndpoint(ep.clone()),
                );
            },
        }
        proof {
            lemma_directives_spec_push(target@, ifaces.take(i as int), ifaces[i as int]);
            assert(ifaces.take(i as int).push(ifaces[i as int]) =~= ifaces.take(i as int + 1));
            assert(v@.map_values(|d: Directive| d@) =~= directives_spec(
                target@,
                ifaces.take(i as int + 1),
            ));
        }
        i += 1;
    }
    proof {
        assert(ifaces.take(interfaces@.len() as int) =~= ifaces);
    }
    v
}

/// The interfaces the host is assumed to expose at minimum.
pub fn default_interfaces() -> (v: Vec<String>)
    ensures
        v@.len() == 2,
        v@[0]@ == "Wi-Fi"@,
        v@[1]@ == "Ethernet"@,
{
    let mut v: Vec<String> = Vec::new();
    v.push("Wi-Fi".to_owned());
    v.push("Ethernet".to_owned());
    v
}

/// A command plan is one fixed-size group per interface.
pub proof fn lemma_directives_len(t: NetTargetV, ifaces: Seq<Seq<char>>)
    ensures
        directives_spec(t, ifaces).len() == ifaces.len() * ops_for(t).len(),
    decreases ifaces.len(),
{
    if ifaces.len() > 0 {
        lemma_directives_len(t, ifaces.drop_first());
        assert(ifaces.len() * ops_for(t).len() == ops_for(t).len() + (ifaces.len() - 1)
            * ops_for(t).len()) by (nonlinear_arith);
    }
}

/// Within one interface group, every disabling directive precedes every
/// enabling or endpoint-setting directive: a conflicting proxy kind is never
/// still enabled when the target kind comes on.
pub proof fn lemma_disables_precede_enables(t: NetTargetV, i: int, j: int)
    requires
        0 <= i < j < ops_for(t).len(),
        ops_for(t)[j].1 is Disable,
    ensures
        ops_for(t)[i].1 is Disable,
{
}

/// A target's plan enables no proxy kind other than the kinds the target
/// itself uses, and the direct plan enables nothing.
pub proof fn lemma_only_target_kind_enabled(t: NetTargetV, i: int)
    requires
        0 <= i < ops_for(t).len(),
        !(ops_for(t)[i].1 is Disable),
    ensures
        t is Socks ==> ops_for(t)[i].0 == ProxyKind::SocksFirewall,
        t is Http ==> ops_for(t)[i].0 == ProxyKind::SecureWeb || ops_for(t)[i].0 == ProxyKind::Web,
        !(t is Direct),
{
}

} // verus!
