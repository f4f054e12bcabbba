//! Fixed policy values of the produced documents, kept in one place so that
//! they can be changed without touching the graph construction.
use vstd::prelude::*;

verus! {

/// Tag of the latency-probing aggregator node.
pub const AUTO_SELECT_TAG: &'static str = "auto-select";
/// Tag of the unencrypted pass-through node.
pub const DIRECT_TAG: &'static str = "direct";
/// Tag of the top-level selector node; the routing terminal points at it.
pub const SELECTOR_TAG: &'static str = "proxy-selector";
/// Prefix of the tag of each proxy leaf, followed by its position.
pub const LEAF_TAG_PREFIX: &'static str = "vps-";

/// Protocol kind of a proxy leaf.
pub const LEAF_KIND: &'static str = "vless";
/// Remote port of every proxy leaf.
pub const LEAF_SERVER_PORT: u16 = 443;
/// Flow-control mode of every proxy leaf.
pub const LEAF_FLOW: &'static str = "xtls-rprx-vision";
/// Packet encoding of every proxy leaf.
pub const LEAF_PACKET_ENCODING: &'static str = "xudp";
/// Server name presented in the handshake of every proxy leaf.
pub const TLS_SERVER_NAME: &'static str = "www.google.com";
/// uTLS fingerprint of every proxy leaf.
pub const UTLS_FINGERPRINT: &'static str = "chrome";

/// Kind of the aggregator node.
pub const AGGREGATOR_KIND: &'static str = "urltest";
/// Probe target of the aggregator.
pub const PROBE_URL: &'static str = "https://www.youtube.com/";
/// Probe interval of the aggregator.
pub const PROBE_INTERVAL: &'static str = "5m";
/// Latency tolerance of the aggregator, in milliseconds.
pub const PROBE_TOLERANCE_MS: usize = 100;
/// Kind of the pass-through node.
pub const DIRECT_KIND: &'static str = "direct";
/// Kind of the selector node.
pub const SELECTOR_KIND: &'static str = "selector";

/// Tag of the DNS resolver entry.
pub const DNS_TAG: &'static str = "default";
/// Transport kind of the DNS resolver on platforms that name it.
pub const DNS_TLS_KIND: &'static str = "tls";
/// Resolver address on platforms with an explicit transport kind.
pub const DNS_SERVER: &'static str = "1.1.1.1";
/// Resolver given as a URI on platforms without a transport kind.
pub const DNS_SERVER_URI: &'static str = "tls://1.1.1.1";

/// Kind of the tunnel inbound.
pub const TUN_KIND: &'static str = "tun";
/// Tag of the tunnel inbound.
pub const TUN_TAG: &'static str = "tun-in";
/// Interface MTU of the tunnel inbound.
pub const TUN_MTU: u16 = 1358;
/// Local interface address of the tunnel inbound.
pub const TUN_ADDRESS: &'static str = "172.19.0.1/30";
/// User-space network stack of the tunnel inbound.
pub const TUN_STACK: &'static str = "gvisor";
/// Kind of the local HTTP proxy inbound.
pub const HTTP_KIND: &'static str = "http";
/// Tag of the local HTTP proxy inbound.
pub const HTTP_TAG: &'static str = "http-in";
/// Listen address of the local HTTP proxy inbound.
pub const HTTP_LISTEN: &'static str = "0.0.0.0";
/// Listen port of the local HTTP proxy inbound.
pub const HTTP_LISTEN_PORT: u16 = 2026;

/// Level of the logging subtree.
pub const LOG_LEVEL: &'static str = "error";

/// Action of the first routing rule.
pub const SNIFF_ACTION: &'static str = "sniff";
/// Protocol matched by the second routing rule.
pub const DNS_PROTOCOL: &'static str = "dns";
/// Action of the second routing rule.
pub const HIJACK_DNS_ACTION: &'static str = "hijack-dns";
/// Action of the third routing rule.
pub const RESOLVE_ACTION: &'static str = "resolve";

/// Platform tag of Android clients.
pub const ANDROID: &'static str = "android";
/// Platform tag of iOS clients.
pub const IOS: &'static str = "ios";
/// Platform tag of containerised clients.
pub const CONTAINER: &'static str = "container";

} // verus!
