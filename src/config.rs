//! The configuration assembler: the platform subtrees, the outbound graph
//! and the fixed logging and routing subtrees composed into one document.
use vstd::prelude::*;
use crate::models::{
    ConfigModel, LogConfig, OutboundModel, LogModel, RouteConfig, RouteModel, RuleConfig, RuleModel,
    SingBoxConfig, VpsCredential,
};
use crate::outbound::{build_outbounds, graph_model, leaf_model, leaf_tags, node_tags};
use crate::platform::{
    dns_model, inbound_model, is_supported_platform, rejects, resolve_platform, ConfigError,
};
use crate::policy::{
    AUTO_SELECT_TAG, DNS_PROTOCOL, HIJACK_DNS_ACTION, LOG_LEVEL, RESOLVE_ACTION, SELECTOR_TAG,
    SNIFF_ACTION,
};
use crate::text::owned;

verus! {

/// The fixed logging subtree.
pub open spec fn log_model() -> LogModel {
    LogModel { level: LOG_LEVEL@, timestamp: true }
}

/// The fixed routing subtree: sniff, hijack DNS, resolve, then the selector.
pub open spec fn route_model() -> RouteModel {
    RouteModel {
        rules: seq![
            RuleModel { protocol: None, action: SNIFF_ACTION@ },
            RuleModel { protocol: Some(DNS_PROTOCOL@), action: HIJACK_DNS_ACTION@ },
            RuleModel { protocol: None, action: RESOLVE_ACTION@ },
        ],
        auto_detect_interface: true,
        final_: SELECTOR_TAG@,
    }
}

/// The document for credentials `creds` on supported platform `p`.
pub open spec fn config_model(creds: Seq<VpsCredential>, p: Seq<char>) -> ConfigModel {
    ConfigModel {
        log: log_model(),
        dns: dns_model(p),
        inbounds: seq![inbound_model(p)],
        outbounds: graph_model(creds),
        route: route_model(),
    }
}

/// The fixed logging subtree.
pub fn log_config() -> (r: LogConfig)
    ensures
        r@ == log_model(),
{
    LogConfig { level: owned(LOG_LEVEL), timestamp: true }
}

/// The fixed routing subtree.
pub fn route_config() -> (r: RouteConfig)
    ensures
        r@ == route_model(),
{
    let rules = vec![
        RuleConfig { protocol: None, action: owned(SNIFF_ACTION) },
        RuleConfig { protocol: Some(owned(DNS_PROTOCOL)), action: owned(HIJACK_DNS_ACTION) },
        RuleConfig { protocol: None, action: owned(RESOLVE_ACTION) },
    ];
    let r = RouteConfig { rules, auto_detect_interface: true, final_: owned(SELECTOR_TAG) };
    assert(r@.rules =~= route_model().rules);
    r
}

/// Assembles the document for the active credentials `vpses` on `platform`.
/// An unknown platform fails as a whole: no partial document is produced.
pub fn generate_config(vpses: &Vec<VpsCredential>, platform: &str) -> (r: Result<
    SingBoxConfig,
    ConfigError,
>)
    ensures
        match r {
            Ok(c) => is_supported_platform(platform@) && c@ == config_model(vpses@, platform@),
            Err(e) => !is_supported_platform(platform@) && rejects(e, platform@),
        },
{
    let (dns, inbound) = match resolve_platform(platform) {
        Ok(profile) => profile,
        Err(e) => return Err(e),
    };
    let outbounds = build_outbounds(vpses);
    let inbounds = vec![inbound];
    let c = SingBoxConfig { log: log_config(), dns, inbounds, outbounds, route: route_config() };
    assert(c@.inbounds =~= seq![inbound_model(platform@)]);
    Ok(c)
}

/// Whether the tag `t` names one of the document's outbounds.
pub open spec fn defines_tag(m: ConfigModel, t: Seq<char>) -> bool {
    node_tags(m.outbounds).contains(t)
}

/// Whether tag `t` names one of the first `k` nodes.
pub open spec fn names_earlier(nodes: Seq<OutboundModel>, k: int, t: Seq<char>) -> bool {
    exists|i: int| 0 <= i < k && nodes[i].tag == t
}

/// Whether every member and every default of each node names a node that
/// comes before it.
pub open spec fn refers_back(nodes: Seq<OutboundModel>) -> bool {
    &&& forall|k: int, j: int|
        0 <= k < nodes.len() && nodes[k].outbounds is Some && 0 <= j
            < nodes[k].outbounds->0.len() ==> names_earlier(
            nodes,
            k,
            #[trigger] nodes[k].outbounds->0[j],
        )
    &&& forall|k: int|
        0 <= k < nodes.len() && (#[trigger] nodes[k]).default is Some ==> names_earlier(
            nodes,
            k,
            nodes[k].default->0,
        )
}

/// Whether every tag that the document refers to names one of its outbounds:
/// members and defaults name earlier nodes, and the routing terminal and
/// each DNS detour name some node.
pub open spec fn references_closed(m: ConfigModel) -> bool {
    &&& refers_back(m.outbounds)
    &&& defines_tag(m, m.route.final_)
    &&& forall|k: int|
        0 <= k < m.dns.servers.len() ==> defines_tag(m, (#[trigger] m.dns.servers[k]).detour)
}

/// Every tag that an assembled document refers to names one of its outbounds.
pub proof fn lemma_references_closed(creds: Seq<VpsCredential>, p: Seq<char>)
    requires
        is_supported_platform(p),
    ensures
        references_closed(config_model(creds, p)),
{
    let m = config_model(creds, p);
    let nodes = m.outbounds;
    let n = creds.len() as int;
    let tags = node_tags(nodes);
    assert(tags[n] == AUTO_SELECT_TAG@);
    assert(tags[n + 2] == SELECTOR_TAG@);
    assert forall|k: int, j: int|
        0 <= k < nodes.len() && nodes[k].outbounds is Some && 0 <= j
            < nodes[k].outbounds->0.len() implies names_earlier(
        nodes,
        k,
        #[trigger] nodes[k].outbounds->0[j],
    ) by {
        if j < n {
            assert(nodes[j].tag == leaf_tags(n as nat)[j]);
        } else {
            assert(nodes[n].tag == nodes[k].outbounds->0[j]);
        }
    }
    assert forall|k: int|
        0 <= k < nodes.len() && (#[trigger] nodes[k]).default is Some implies names_earlier(
        nodes,
        k,
        nodes[k].default->0,
    ) by {
        assert(nodes[n].tag == nodes[k].default->0);
    }
    assert(defines_tag(m, m.route.final_));
    assert forall|k: int|
        0 <= k < m.dns.servers.len() implies defines_tag(m, (#[trigger] m.dns.servers[k]).detour) by {
        assert(m.dns.servers[k].detour == tags[n]);
    }
}

/// Whether two credential lists agree on everything the engine reads.
pub open spec fn same_credentials(a: Seq<VpsCredential>, b: Seq<VpsCredential>) -> bool {
    &&& a.len() == b.len()
    &&& forall|i: int|
        0 <= i < a.len() ==> #[trigger] a[i].ip@ == b[i].ip@ && a[i].uuid@ == b[i].uuid@
            && a[i].pbk@ == b[i].pbk@ && a[i].sid@ == b[i].sid@
}

/// The document depends on nothing but its inputs: equal credentials and an
/// equal platform tag give equal documents, whatever else differs.
pub proof fn lemma_config_deterministic(
    a: Seq<VpsCredential>,
    b: Seq<VpsCredential>,
    p: Seq<char>,
    q: Seq<char>,
)
    requires
        same_credentials(a, b),
        p == q,
    ensures
        graph_model(a) == graph_model(b),
        config_model(a, p) == config_model(b, q),
{
    assert forall|i: int| 0 <= i < a.len() implies #[trigger] leaf_model(a[i], i as nat)
        == leaf_model(b[i], i as nat) by {
        assert(a[i].ip@ == b[i].ip@);
    }
    assert(graph_model(a) =~= graph_model(b));
}

} // verus!
