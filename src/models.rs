//! The data that flows through the engine: stored credential records and the
//! tree of the produced configuration document, each with its mathematical view.
use vstd::prelude::*;

verus! {

/// The view of an optional string.
pub open spec fn opt_chars(o: Option<String>) -> Option<Seq<char>> {
    match o {
        Some(s) => Some(s@),
        None => None,
    }
}

/// The views of a sequence of strings.
pub open spec fn chars_seq(v: Seq<String>) -> Seq<Seq<char>> {
    v.map_values(|s: String| s@)
}

/// The view of an optional list of strings.
pub open spec fn opt_chars_seq(o: Option<Vec<String>>) -> Option<Seq<Seq<char>>> {
    match o {
        Some(v) => Some(chars_seq(v@)),
        None => None,
    }
}

/// A stored upstream server record.
#[derive(Debug, Clone, PartialEq, Eq)]
pub struct VpsCredential {
    pub id: i32,
    pub ip: String,
    pub uuid: String,
    pub pbk: String,
    pub sid: String,
    pub is_active: bool,
}

/// An upstream server as written in a credentials file.
#[derive(Debug, Clone, PartialEq, Eq)]
pub struct Vps {
    pub ip: String,
    pub uuid: String,
    pub pbk: String,
    pub sid: String,
}

/// A credentials file: the list of its upstream servers.
#[derive(Debug, Clone, PartialEq, Eq)]
pub struct SourceConfig {
    pub vpses: Vec<Vps>,
}

/// Logging subtree of the document.
#[derive(Debug, Clone, PartialEq, Eq)]
pub struct LogConfig {
    pub level: String,
    pub timestamp: bool,
}

pub struct LogModel {
    pub level: Seq<char>,
    pub timestamp: bool,
}

impl View for LogConfig {
    type V = LogModel;

    open spec fn view(&self) -> LogModel {
        LogModel { level: self.level@, timestamp: self.timestamp }
    }
}

/// One resolver entry of the DNS subtree.
#[derive(Debug, Clone, PartialEq, Eq)]
pub struct DnsServersConfig {
    pub type_: Option<String>,
    pub tag: String,
    pub server: Option<String>,
    pub address: Option<String>,
    pub detour: String,
}

pub struct DnsServerModel {
    pub type_: Option<Seq<char>>,
    pub tag: Seq<char>,
    pub server: Option<Seq<char>>,
    pub address: Option<Seq<char>>,
    pub detour: Seq<char>,
}

impl View for DnsServersConfig {
    type V = DnsServerModel;

    open spec fn view(&self) -> DnsServerModel {
        DnsServerModel {
            type_: opt_chars(self.type_),
            tag: self.tag@,
            server: opt_chars(self.server),
            address: opt_chars(self.address),
            detour: self.detour@,
        }
    }
}

/// DNS subtree of the document.
#[derive(Debug, Clone, PartialEq, Eq)]
pub struct DnsConfig {
    pub servers: Vec<DnsServersConfig>,
}

pub struct DnsModel {
    pub servers: Seq<DnsServerModel>,
}

impl View for DnsConfig {
    type V = DnsModel;

    open spec fn view(&self) -> DnsModel {
        DnsModel { servers: self.servers@.map_values(|s: DnsServersConfig| s@) }
    }
}

/// A local listener or virtual interface through which traffic enters.
#[derive(Debug, Clone, PartialEq, Eq)]
pub struct InboundConfig {
    pub type_: String,
    pub tag: String,
    pub listen_port: Option<u16>,
    pub listen: Option<String>,
    pub mtu: Option<u16>,
    pub address: Option<String>,
    pub auto_route: Option<bool>,
    pub strict_route: Option<bool>,
    pub stack: Option<String>,
    pub endpoint_independent_nat: Option<bool>,
}

pub struct InboundModel {
    pub type_: Seq<char>,
    pub tag: Seq<char>,
    pub listen_port: Option<u16>,
    pub listen: Option<Seq<char>>,
    pub mtu: Option<u16>,
    pub address: Option<Seq<char>>,
    pub auto_route: Option<bool>,
    pub strict_route: Option<bool>,
    pub stack: Option<Seq<char>>,
    pub endpoint_independent_nat: Option<bool>,
}

impl View for InboundConfig {
    type V = InboundModel;

    open spec fn view(&self) -> InboundModel {
        InboundModel {
            type_: self.type_@,
            tag: self.tag@,
            listen_port: self.listen_port,
            listen: opt_chars(self.listen),
            mtu: self.mtu,
            address: opt_chars(self.address),
            auto_route: self.auto_route,
            strict_route: self.strict_route,
            stack: opt_chars(self.stack),
            endpoint_independent_nat: self.endpoint_independent_nat,
        }
    }
}

/// uTLS fingerprinting parameters of a proxy leaf.
#[derive(Debug, Clone, PartialEq, Eq)]
pub struct UtlsConfig {
    pub enabled: bool,
    pub fingerprint: String,
}

/// Reality authentication parameters of a proxy leaf.
#[derive(Debug, Clone, PartialEq, Eq)]
pub struct RealityConfig {
    pub enabled: bool,
    pub public_key: String,
    pub short_id: String,
}

/// Transport security block of a proxy leaf.
#[derive(Debug, Clone, PartialEq, Eq)]
pub struct TlsConfig {
    pub enabled: bool,
    pub server_name: String,
    pub utls: UtlsConfig,
    pub reality: RealityConfig,
}

pub struct TlsModel {
    pub enabled: bool,
    pub server_name: Seq<char>,
    pub utls_enabled: bool,
    pub fingerprint: Seq<char>,
    pub reality_enabled: bool,
    pub public_key: Seq<char>,
    pub short_id: Seq<char>,
}

impl View for TlsConfig {
    type V = TlsModel;

    open spec fn view(&self) -> TlsModel {
        TlsModel {
            enabled: self.enabled,
            server_name: self.server_name@,
            utls_enabled: self.utls.enabled,
            fingerprint: self.utls.fingerprint@,
            reality_enabled: self.reality.enabled,
            public_key: self.reality.public_key@,
            short_id: self.reality.short_id@,
        }
    }
}

/// The view of an optional security block.
pub open spec fn opt_tls(o: Option<TlsConfig>) -> Option<TlsModel> {
    match o {
        Some(t) => Some(t@),
        None => None,
    }
}

/// A named egress node of the routing graph. Which optional fields are
/// present depends on the node's kind (`type_`).
#[derive(Debug, Clone, PartialEq, Eq)]
pub struct OutboundConfig {
    pub type_: String,
    pub tag: String,
    pub outbounds: Option<Vec<String>>,
    pub url: Option<String>,
    pub interval: Option<String>,
    pub tolerance: Option<usize>,
    pub server: Option<String>,
    pub server_port: Option<u16>,
    pub uuid: Option<String>,
    pub flow: Option<String>,
    pub packet_encoding: Option<String>,
    pub tls: Option<TlsConfig>,
    pub default: Option<String>,
}

pub struct OutboundModel {
    pub type_: Seq<char>,
    pub tag: Seq<char>,
    pub outbounds: Option<Seq<Seq<char>>>,
    pub url: Option<Seq<char>>,
    pub interval: Option<Seq<char>>,
    pub tolerance: Option<usize>,
    pub server: Option<Seq<char>>,
    pub server_port: Option<u16>,
    pub uuid: Option<Seq<char>>,
    pub flow: Option<Seq<char>>,
    pub packet_encoding: Option<Seq<char>>,
    pub tls: Option<TlsModel>,
    pub default: Option<Seq<char>>,
}

impl View for OutboundConfig {
    type V = OutboundModel;

    open spec fn view(&self) -> OutboundModel {
        OutboundModel {
            type_: self.type_@,
            tag: self.tag@,
            outbounds: opt_chars_seq(self.outbounds),
            url: opt_chars(self.url),
            interval: opt_chars(self.interval),
            tolerance: self.tolerance,
            server: opt_chars(self.server),
            server_port: self.server_port,
            uuid: opt_chars(self.uuid),
            flow: opt_chars(self.flow),
            packet_encoding: opt_chars(self.packet_encoding),
            tls: opt_tls(self.tls),
            default: opt_chars(self.default),
        }
    }
}

/// The views of a sequence of outbound nodes.
pub open spec fn outbound_models(v: Seq<OutboundConfig>) -> Seq<OutboundModel> {
    v.map_values(|o: OutboundConfig| o@)
}

/// One routing rule.
#[derive(Debug, Clone, PartialEq, Eq)]
pub struct RuleConfig {
    pub protocol: Option<String>,
    pub action: String,
}

pub struct RuleModel {
    pub protocol: Option<Seq<char>>,
    pub action: Seq<char>,
}

impl View for RuleConfig {
    type V = RuleModel;

    open spec fn view(&self) -> RuleModel {
        RuleModel { protocol: opt_chars(self.protocol), action: self.action@ }
    }
}

/// Routing subtree: ordered rules and the terminal target.
#[derive(Debug, Clone, PartialEq, Eq)]
pub struct RouteConfig {
    pub rules: Vec<RuleConfig>,
    pub auto_detect_interface: bool,
    pub final_: String,
}

pub struct RouteModel {
    pub rules: Seq<RuleModel>,
    pub auto_detect_interface: bool,
    pub final_: Seq<char>,
}

impl View for RouteConfig {
    type V = RouteModel;

    open spec fn view(&self) -> RouteModel {
        RouteModel {
            rules: self.rules@.map_values(|r: RuleConfig| r@),
            auto_detect_interface: self.auto_detect_interface,
            final_: self.final_@,
        }
    }
}

/// The complete configuration document.
#[derive(Debug, Clone, PartialEq, Eq)]
pub struct SingBoxConfig {
    pub log: LogConfig,
    pub dns: DnsConfig,
    pub inbounds: Vec<InboundConfig>,
    pub outbounds: Vec<OutboundConfig>,
    pub route: RouteConfig,
}

pub struct ConfigModel {
    pub log: LogModel,
    pub dns: DnsModel,
    pub inbounds: Seq<InboundModel>,
    pub outbounds: Seq<OutboundModel>,
    pub route: RouteModel,
}

impl View for SingBoxConfig {
    type V = ConfigModel;

    open spec fn view(&self) -> ConfigModel {
        ConfigModel {
            log: self.log@,
            dns: self.dns@,
            inbounds: self.inbounds@.map_values(|i: InboundConfig| i@),
            outbounds: outbound_models(self.outbounds@),
            route: self.route@,
        }
    }
}

} // verus!
