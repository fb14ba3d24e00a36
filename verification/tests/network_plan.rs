use secc::network::{
    default_interfaces, directives_for, Directive, DirectiveOp, NetTarget, ProxyKind,
};
use secc::server::AddrInfo;

fn endpoint() -> AddrInfo {
    AddrInfo::new("127.0.0.1".to_string(), 1080)
}

fn is_disable(d: &Directive) -> bool {
    matches!(d.op, DirectiveOp::Disable)
}

#[test]
fn default_interfaces_are_wifi_and_ethernet() {
    let v = default_interfaces();
    assert_eq!(v, vec!["Wi-Fi".to_string(), "Ethernet".to_string()]);
}

#[test]
fn direct_plan_disables_every_kind_on_every_interface() {
    let plan = directives_for(&NetTarget::Direct, &default_interfaces());
    assert_eq!(plan.len(), 8);
    assert!(plan.iter().all(is_disable));
    assert!(plan[..4].iter().all(|d| d.interface == "Wi-Fi"));
    assert!(plan[4..].iter().all(|d| d.interface == "Ethernet"));
}

#[test]
fn socks_plan_disables_conflicts_then_enables_socks() {
    let plan = directives_for(&NetTarget::Socks(endpoint()), &default_interfaces());
    assert_eq!(plan.len(), 10);
    let group = &plan[..5];
    assert!(matches!(group[0].kind, ProxyKind::AutoConfig));
    assert!(is_disable(&group[0]));
    assert!(matches!(group[1].kind, ProxyKind::SecureWeb));
    assert!(is_disable(&group[1]));
    assert!(matches!(group[2].kind, ProxyKind::Web));
    assert!(is_disable(&group[2]));
    assert!(matches!(group[3].kind, ProxyKind::SocksFirewall));
    assert!(matches!(group[3].op, DirectiveOp::Enable));
    assert!(matches!(group[4].kind, ProxyKind::SocksFirewall));
    match &group[4].op {
        DirectiveOp::SetEndpoint(ep) => {
            assert_eq!(ep.host, "127.0.0.1");
            assert_eq!(ep.port, 1080);
        }
        _ => panic!("fifth socks directive must set the endpoint"),
    }
}

#[test]
fn http_plan_disables_socks_before_enabling_http_kinds() {
    let plan = directives_for(&NetTarget::Http(endpoint()), &default_interfaces());
    assert_eq!(plan.len(), 12);
    for group in [&plan[..6], &plan[6..]] {
        let first_enable = group.iter().position(|d| !is_disable(d)).unwrap();
        let last_disable = group
            .iter()
            .rposition(is_disable)
            .unwrap();
        assert!(last_disable < first_enable);
        assert!(group[..first_enable]
            .iter()
            .any(|d| matches!(d.kind, ProxyKind::SocksFirewall)));
        assert!(group[first_enable..]
            .iter()
            .all(|d| matches!(d.kind, ProxyKind::SecureWeb | ProxyKind::Web)));
    }
}

#[test]
fn plans_cover_each_interface_in_order() {
    let interfaces = vec!["en0".to_string()];
    let plan = directives_for(&NetTarget::Direct, &interfaces);
    assert_eq!(plan.len(), 4);
    assert!(plan.iter().all(|d| d.interface == "en0"));
}
