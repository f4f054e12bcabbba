//! The platform profile resolver: the DNS and inbound subtrees for a
//! platform tag.
use vstd::prelude::*;
use crate::models::{
    DnsConfig, DnsModel, DnsServerModel, DnsServersConfig, InboundConfig, InboundModel,
};
use crate::policy::{
    ANDROID, AUTO_SELECT_TAG, CONTAINER, DNS_SERVER, DNS_SERVER_URI, DNS_TAG, DNS_TLS_KIND,
    HTTP_KIND, HTTP_LISTEN, HTTP_LISTEN_PORT, HTTP_TAG, IOS, TUN_ADDRESS, TUN_KIND, TUN_MTU,
    TUN_STACK, TUN_TAG,
};
use crate::text::{owned, str_equals};

verus! {

/// The only error the engine raises.
#[derive(Debug, Clone, PartialEq, Eq)]
pub enum ConfigError {
    /// The platform tag is outside the supported set; it carries the tag.
    UnsupportedPlatform(String),
}

impl ConfigError {
    /// A human-readable description of the error.
    pub fn message(&self) -> (r: String)
        ensures
            self is UnsupportedPlatform ==> r@ == "unsupported platform type: "@ + self->UnsupportedPlatform_0@,
    {
        match self {
            ConfigError::UnsupportedPlatform(tag) => {
                let mut r = owned("unsupported platform type: ");
                r.append(tag.as_str());
                r
            },
        }
    }
}

/// Whether `e` is the rejection of platform tag `p`.
pub open spec fn rejects(e: ConfigError, p: Seq<char>) -> bool {
    match e {
        ConfigError::UnsupportedPlatform(t) => t@ == p,
    }
}

/// The closed set of platform tags the engine serves.
pub open spec fn is_supported_platform(p: Seq<char>) -> bool {
    p == ANDROID@ || p == IOS@ || p == CONTAINER@
}

/// The DNS subtree of a supported platform.
pub open spec fn dns_model(p: Seq<char>) -> DnsModel {
    if p == IOS@ {
        DnsModel {
            servers: seq![DnsServerModel {
                type_: None,
                tag: DNS_TAG@,
                server: None,
                address: Some(DNS_SERVER_URI@),
                detour: AUTO_SELECT_TAG@,
            }],
        }
    } else {
        DnsModel {
            servers: seq![DnsServerModel {
                type_: Some(DNS_TLS_KIND@),
                tag: DNS_TAG@,
                server: Some(DNS_SERVER@),
                address: None,
                detour: AUTO_SELECT_TAG@,
            }],
        }
    }
}

/// The inbound of a supported platform: a local HTTP proxy in a container,
/// a virtual tunnel interface on mobile platforms.
pub open spec fn inbound_model(p: Seq<char>) -> InboundModel {
    if p == CONTAINER@ {
        InboundModel {
            type_: HTTP_KIND@,
            tag: HTTP_TAG@,
            listen_port: Some(HTTP_LISTEN_PORT),
            listen: Some(HTTP_LISTEN@),
            mtu: None,
            address: None,
            auto_route: None,
            strict_route: None,
            stack: None,
            endpoint_independent_nat: None,
        }
    } else {
        InboundModel {
            type_: TUN_KIND@,
            tag: TUN_TAG@,
            listen_port: None,
            listen: None,
            mtu: Some(TUN_MTU),
            address: Some(TUN_ADDRESS@),
            auto_route: Some(true),
            strict_route: Some(true),
            stack: Some(TUN_STACK@),
            endpoint_independent_nat: Some(true),
        }
    }
}

proof fn lemma_platform_tags_distinct()
    ensures
        ANDROID@ != IOS@,
        ANDROID@ != CONTAINER@,
        IOS@ != CONTAINER@,
{
    reveal_strlit("android");
    reveal_strlit("ios");
    reveal_strlit("container");
    assert(ANDROID@[0] != IOS@[0]);
    assert(ANDROID@[0] != CONTAINER@[0]);
    assert(IOS@[0] != CONTAINER@[0]);
}

/// The DNS subtree for `platform`, or the rejection of an unknown tag.
pub fn platform_to_dns(platform: &str) -> (r: Result<DnsConfig, ConfigError>)
    ensures
        match r {
            Ok(d) => is_supported_platform(platform@) && d@ == dns_model(platform@),
            Err(e) => !is_supported_platform(platform@) && rejects(e, platform@),
        },
{
    proof {
        lemma_platform_tags_distinct();
    }
    if str_equals(platform, ANDROID) || str_equals(platform, CONTAINER) {
        let entry = DnsServersConfig {
            type_: Some(owned(DNS_TLS_KIND)),
            tag: owned(DNS_TAG),
            server: Some(owned(DNS_SERVER)),
            address: None,
            detour: owned(AUTO_SELECT_TAG),
        };
        let d = DnsConfig { servers: vec![entry] };
        assert(d@.servers =~= dns_model(platform@).servers);
        Ok(d)
    } else if str_equals(platform, IOS) {
        let entry = DnsServersConfig {
            type_: None,
            tag: owned(DNS_TAG),
            server: None,
            address: Some(owned(DNS_SERVER_URI)),
            detour: owned(AUTO_SELECT_TAG),
        };
        let d = DnsConfig { servers: vec![entry] };
        assert(d@.servers =~= dns_model(platform@).servers);
        Ok(d)
    } else {
        Err(ConfigError::UnsupportedPlatform(owned(platform)))
    }
}

/// The inbound for `platform`, or the rejection of an unknown tag.
pub fn platform_to_inbound(platform: &str) -> (r: Result<InboundConfig, ConfigError>)
    ensures
        match r {
            Ok(i) => is_supported_platform(platform@) && i@ == inbound_model(platform@),
            Err(e) => !is_supported_platform(platform@) && rejects(e, platform@),
        },
{
    proof {
        lemma_platform_tags_distinct();
    }
    if str_equals(platform, ANDROID) || str_equals(platform, IOS) {
        Ok(InboundConfig {
            type_: owned(TUN_KIND),
            tag: owned(TUN_TAG),
            listen_port: None,
            listen: None,
            mtu: Some(TUN_MTU),
            address: Some(owned(TUN_ADDRESS)),
            auto_route: Some(true),
            strict_route: Some(true),
            stack: Some(owned(TUN_STACK)),
            endpoint_independent_nat: Some(true),
        })
    } else if str_equals(platform, CONTAINER) {
        Ok(InboundConfig {
            type_: owned(HTTP_KIND),
            tag: owned(HTTP_TAG),
            listen_port: Some(HTTP_LISTEN_PORT),
            listen: Some(owned(HTTP_LISTEN)),
            mtu: None,
            address: None,
            auto_route: None,
            strict_route: None,
            stack: None,
            endpoint_independent_nat: None,
        })
    } else {
        Err(ConfigError::UnsupportedPlatform(owned(platform)))
    }
}

/// Both platform subtrees at once, so that a tag is accepted or rejected for
/// the two alike.
pub fn resolve_platform(platform: &str) -> (r: Result<(DnsConfig, InboundConfig), ConfigError>)
    ensures
        match r {
            Ok((d, i)) => is_supported_platform(platform@) && d@ == dns_model(platform@)
                && i@ == inbound_model(platform@),
            Err(e) => !is_supported_platform(platform@) && rejects(e, platform@),
        },
{
    let dns = match platform_to_dns(platform) {
        Ok(d) => d,
        Err(e) => return Err(e),
    };
    match platform_to_inbound(platform) {
        Ok(i) => Ok((dns, i)),
        Err(e) => Err(e),
    }
}

} // verus!
