use panel_backend::config::{generate_config, log_config, route_config};
use panel_backend::connection::{database_url, trim_password};
use panel_backend::models::{OutboundConfig, SingBoxConfig, VpsCredential};
use panel_backend::outbound::{build_outbounds, make_leaf_tag, vps_to_outbound};
use panel_backend::platform::{
    platform_to_dns, platform_to_inbound, resolve_platform, ConfigError,
};
use panel_backend::text::{push_decimal, str_equals};

fn cred(id: i32, ip: &str, uuid: &str, pbk: &str, sid: &str) -> VpsCredential {
    VpsCredential {
        id,
        ip: ip.to_string(),
        uuid: uuid.to_string(),
        pbk: pbk.to_string(),
        sid: sid.to_string(),
        is_active: true,
    }
}

fn two_creds() -> Vec<VpsCredential> {
    vec![cred(1, "1.2.3.4", "u1", "pk1", "s1"), cred(2, "5.6.7.8", "u2", "pk2", "s2")]
}

fn tags(nodes: &[OutboundConfig]) -> Vec<String> {
    nodes.iter().map(|o| o.tag.clone()).collect()
}

fn members(node: &OutboundConfig) -> Vec<String> {
    node.outbounds.clone().expect("node has members")
}

fn unsupported(tag: &str) -> ConfigError {
    ConfigError::UnsupportedPlatform(tag.to_string())
}

#[test]
fn android_dns_uses_tls_transport() {
    let dns = platform_to_dns("android").unwrap();
    assert_eq!(dns.servers.len(), 1);
    let s = &dns.servers[0];
    assert_eq!(s.type_.as_deref(), Some("tls"));
    assert_eq!(s.tag, "default");
    assert_eq!(s.server.as_deref(), Some("1.1.1.1"));
    assert_eq!(s.address, None);
    assert_eq!(s.detour, "auto-select");
}

#[test]
fn container_dns_matches_android() {
    assert_eq!(platform_to_dns("container").unwrap(), platform_to_dns("android").unwrap());
}

#[test]
fn ios_dns_uses_uri() {
    let dns = platform_to_dns("ios").unwrap();
    assert_eq!(dns.servers.len(), 1);
    let s = &dns.servers[0];
    assert_eq!(s.type_, None);
    assert_eq!(s.tag, "default");
    assert_eq!(s.server, None);
    assert_eq!(s.address.as_deref(), Some("tls://1.1.1.1"));
    assert_eq!(s.detour, "auto-select");
}

#[test]
fn mobile_inbound_is_tunnel() {
    for p in ["android", "ios"] {
        let i = platform_to_inbound(p).unwrap();
        assert_eq!(i.type_, "tun");
        assert_eq!(i.tag, "tun-in");
        assert_eq!(i.mtu, Some(1358));
        assert_eq!(i.address.as_deref(), Some("172.19.0.1/30"));
        assert_eq!(i.auto_route, Some(true));
        assert_eq!(i.strict_route, Some(true));
        assert_eq!(i.stack.as_deref(), Some("gvisor"));
        assert_eq!(i.endpoint_independent_nat, Some(true));
        assert_eq!(i.listen, None);
        assert_eq!(i.listen_port, None);
    }
}

#[test]
fn container_inbound_is_http_proxy() {
    let i = platform_to_inbound("container").unwrap();
    assert_eq!(i.type_, "http");
    assert_eq!(i.tag, "http-in");
    assert_eq!(i.listen.as_deref(), Some("0.0.0.0"));
    assert_eq!(i.listen_port, Some(2026));
    assert_eq!(i.mtu, None);
    assert_eq!(i.address, None);
    assert_eq!(i.auto_route, None);
    assert_eq!(i.strict_route, None);
    assert_eq!(i.stack, None);
    assert_eq!(i.endpoint_independent_nat, None);
}

#[test]
fn unknown_platforms_are_rejected() {
    for p in ["", "windows", "Android", "IOS", "container ", "androi"] {
        assert_eq!(platform_to_dns(p), Err(unsupported(p)));
        assert_eq!(platform_to_inbound(p), Err(unsupported(p)));
        assert_eq!(resolve_platform(p), Err(unsupported(p)));
    }
}

#[test]
fn resolve_pairs_dns_and_inbound() {
    for p in ["android", "ios", "container"] {
        let (d, i) = resolve_platform(p).unwrap();
        assert_eq!(d, platform_to_dns(p).unwrap());
        assert_eq!(i, platform_to_inbound(p).unwrap());
    }
}

#[test]
fn error_message_names_the_platform() {
    assert_eq!(unsupported("windows").message(), "unsupported platform type: windows");
}

#[test]
fn leaf_tags_are_decimal() {
    assert_eq!(make_leaf_tag(0), "vps-0");
    assert_eq!(make_leaf_tag(7), "vps-7");
    assert_eq!(make_leaf_tag(10), "vps-10");
    assert_eq!(make_leaf_tag(1203), "vps-1203");
    let mut s = String::from("x");
    push_decimal(&mut s, 90);
    assert_eq!(s, "x90");
}

#[test]
fn str_equals_compares_characters() {
    assert!(str_equals("ios", "ios"));
    assert!(!str_equals("ios", "iOS"));
    assert!(!str_equals("ios", "io"));
    assert!(str_equals("", ""));
}

#[test]
fn leaf_carries_credential_and_policy() {
    let o = vps_to_outbound(&cred(9, "9.9.9.9", "uid", "key", "sh"), 3);
    assert_eq!(o.type_, "vless");
    assert_eq!(o.tag, "vps-3");
    assert_eq!(o.server.as_deref(), Some("9.9.9.9"));
    assert_eq!(o.server_port, Some(443));
    assert_eq!(o.uuid.as_deref(), Some("uid"));
    assert_eq!(o.flow.as_deref(), Some("xtls-rprx-vision"));
    assert_eq!(o.packet_encoding.as_deref(), Some("xudp"));
    let tls = o.tls.expect("leaf has tls");
    assert!(tls.enabled);
    assert_eq!(tls.server_name, "www.google.com");
    assert!(tls.utls.enabled);
    assert_eq!(tls.utls.fingerprint, "chrome");
    assert!(tls.reality.enabled);
    assert_eq!(tls.reality.public_key, "key");
    assert_eq!(tls.reality.short_id, "sh");
    assert_eq!(o.outbounds, None);
    assert_eq!(o.url, None);
    assert_eq!(o.interval, None);
    assert_eq!(o.tolerance, None);
    assert_eq!(o.default, None);
}

#[test]
fn graph_has_leaves_then_synthesized_nodes() {
    let creds: Vec<VpsCredential> =
        (0..12).map(|i| cred(i, &format!("10.0.0.{i}"), "u", "p", "s")).collect();
    let nodes = build_outbounds(&creds);
    assert_eq!(nodes.len(), 15);
    let t = tags(&nodes);
    for i in 0..12 {
        assert_eq!(t[i], format!("vps-{i}"));
        assert_eq!(nodes[i].server.as_deref(), Some(format!("10.0.0.{i}").as_str()));
    }
    assert_eq!(&t[12..], ["auto-select", "direct", "proxy-selector"]);
}

#[test]
fn aggregator_and_selector_members() {
    let nodes = build_outbounds(&two_creds());
    let auto = &nodes[2];
    assert_eq!(auto.type_, "urltest");
    assert_eq!(members(auto), ["vps-0", "vps-1"]);
    assert_eq!(auto.url.as_deref(), Some("https://www.youtube.com/"));
    assert_eq!(auto.interval.as_deref(), Some("5m"));
    assert_eq!(auto.tolerance, Some(100));
    assert_eq!(auto.default, None);
    let direct = &nodes[3];
    assert_eq!(direct.type_, "direct");
    assert_eq!(direct.outbounds, None);
    let sel = &nodes[4];
    assert_eq!(sel.type_, "selector");
    assert_eq!(members(sel), ["vps-0", "vps-1", "auto-select"]);
    assert_eq!(sel.default.as_deref(), Some("auto-select"));
}

#[test]
fn references_name_existing_nodes() {
    for p in ["android", "ios", "container"] {
        let cfg = generate_config(&two_creds(), p).unwrap();
        let t = tags(&cfg.outbounds);
        for o in &cfg.outbounds {
            for m in o.outbounds.iter().flatten() {
                assert!(t.contains(m));
            }
            if let Some(d) = &o.default {
                assert!(t.contains(d));
            }
        }
        assert!(t.contains(&cfg.route.final_));
        for s in &cfg.dns.servers {
            assert!(t.contains(&s.detour));
        }
    }
}

#[test]
fn repeated_calls_give_equal_output() {
    let a = generate_config(&two_creds(), "android").unwrap();
    let b = generate_config(&two_creds(), "android").unwrap();
    assert_eq!(a, b);
    assert_eq!(build_outbounds(&two_creds()), build_outbounds(&two_creds()));
    assert_eq!(resolve_platform("ios"), resolve_platform("ios"));
}

#[test]
fn output_ignores_record_id_and_flag() {
    let mut other = two_creds();
    other[0].id = 40;
    other[1].is_active = false;
    assert_eq!(
        generate_config(&two_creds(), "container").unwrap(),
        generate_config(&other, "container").unwrap()
    );
}

#[test]
fn two_credentials_on_android() {
    let cfg: SingBoxConfig = generate_config(&two_creds(), "android").unwrap();
    assert_eq!(tags(&cfg.outbounds), ["vps-0", "vps-1", "auto-select", "direct", "proxy-selector"]);
    assert_eq!(cfg.outbounds[0].server.as_deref(), Some("1.2.3.4"));
    assert_eq!(cfg.route.final_, "proxy-selector");
    assert_eq!(cfg.dns.servers[0].tag, "default");
    assert_eq!(cfg.dns.servers[0].detour, "auto-select");
    assert_eq!(cfg.inbounds.len(), 1);
    assert_eq!(cfg.inbounds[0].tag, "tun-in");
}

#[test]
fn no_credentials_on_ios() {
    let cfg = generate_config(&Vec::new(), "ios").unwrap();
    assert_eq!(tags(&cfg.outbounds), ["auto-select", "direct", "proxy-selector"]);
    assert!(members(&cfg.outbounds[0]).is_empty());
    assert_eq!(members(&cfg.outbounds[2]), ["auto-select"]);
}

#[test]
fn windows_is_rejected_whole() {
    assert_eq!(generate_config(&two_creds(), "windows"), Err(unsupported("windows")));
}

#[test]
fn fixed_subtrees() {
    let log = log_config();
    assert_eq!(log.level, "error");
    assert!(log.timestamp);
    let route = route_config();
    assert_eq!(route.rules.len(), 3);
    assert_eq!(route.rules[0].protocol, None);
    assert_eq!(route.rules[0].action, "sniff");
    assert_eq!(route.rules[1].protocol.as_deref(), Some("dns"));
    assert_eq!(route.rules[1].action, "hijack-dns");
    assert_eq!(route.rules[2].protocol, None);
    assert_eq!(route.rules[2].action, "resolve");
    assert!(route.auto_detect_interface);
    assert_eq!(route.final_, "proxy-selector");
}

#[test]
fn password_loses_trailing_space() {
    assert_eq!(trim_password("secret\r\n").as_deref(), Some("secret"));
    assert_eq!(trim_password(" pa ss \t ").as_deref(), Some(" pa ss"));
    assert_eq!(trim_password("plain").as_deref(), Some("plain"));
    assert_eq!(trim_password(" \n\t\r"), None);
    assert_eq!(trim_password(""), None);
}

#[test]
fn database_url_joins_parts() {
    assert_eq!(
        database_url("user", "pw", "localhost", "5432", "postgres"),
        "postgres://user:pw@localhost:5432/postgres"
    );
}

#[test]
fn graph_tags_are_unique() {
    let creds: Vec<VpsCredential> = (0..25).map(|i| cred(i, "h", "u", "p", "s")).collect();
    let t = tags(&build_outbounds(&creds));
    for i in 0..t.len() {
        for j in 0..t.len() {
            if i != j {
                assert_ne!(t[i], t[j]);
            }
        }
    }
}
