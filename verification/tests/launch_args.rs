use secc::launch::{arg_vector, port_string, server_addr, LaunchArgs};
use secc::server::ServerInfo;
use secc::state::{AccessMode, ProtocolMode};

fn profile(tcp_port: Option<u16>) -> ServerInfo {
    ServerInfo {
        host: "up.example".to_string(),
        quic_port: 443,
        tcp_port,
        cert: "cert-pem".to_string(),
        cert_key: "key-pem".to_string(),
        alias: Some("main".to_string()),
    }
}

#[test]
fn port_strings_are_decimal() {
    assert_eq!(port_string(0), "0");
    assert_eq!(port_string(7), "7");
    assert_eq!(port_string(443), "443");
    assert_eq!(port_string(1080), "1080");
    assert_eq!(port_string(65535), "65535");
}

#[test]
fn quic_address_uses_quic_port() {
    let addr = server_addr(&profile(Some(9443)), ProtocolMode::Quic).unwrap();
    assert_eq!(addr, "up.example:443");
}

#[test]
fn tcp_address_uses_tcp_port() {
    let addr = server_addr(&profile(Some(9443)), ProtocolMode::Tcp).unwrap();
    assert_eq!(addr, "up.example:9443");
}

#[test]
fn tcp_address_needs_a_tcp_port() {
    assert!(server_addr(&profile(None), ProtocolMode::Tcp).is_none());
}

#[test]
fn arg_vector_lists_every_launch_argument() {
    let args = LaunchArgs {
        proxy_rules_path: "/data/proxy_list.txt".to_string(),
        direct_rules_path: "/data/direct_list.txt".to_string(),
        cert_path: "/data/cert.pem".to_string(),
        server_addr: "up.example:443".to_string(),
        access_mode: AccessMode::Auto,
        protocol_mode: ProtocolMode::Quic,
    };
    let v = arg_vector(&args);
    let expected = vec![
        "-p",
        "/data/proxy_list.txt",
        "-d",
        "/data/direct_list.txt",
        "-c",
        "/data/cert.pem",
        "-r",
        "up.example:443",
        "-a",
        "auto",
        "-O",
        "quic",
    ];
    assert_eq!(v, expected);
}

#[test]
fn arg_vector_spells_proxy_and_tcp() {
    let args = LaunchArgs {
        proxy_rules_path: "p".to_string(),
        direct_rules_path: "d".to_string(),
        cert_path: "c".to_string(),
        server_addr: "up.example:9443".to_string(),
        access_mode: AccessMode::Proxy,
        protocol_mode: ProtocolMode::Tcp,
    };
    let v = arg_vector(&args);
    assert_eq!(v[9], "proxy");
    assert_eq!(v[11], "tcp");
}
