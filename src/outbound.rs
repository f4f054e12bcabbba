//! The outbound graph builder: proxy leaves for the stored credentials,
//! followed by the latency aggregator, the pass-through node and the
//! top-level selector.
use vstd::prelude::*;
use crate::models::{
    chars_seq, outbound_models, OutboundConfig, OutboundModel, RealityConfig, TlsConfig, TlsModel,
    UtlsConfig, VpsCredential,
};
use crate::policy::{
    AGGREGATOR_KIND, AUTO_SELECT_TAG, DIRECT_KIND, DIRECT_TAG, LEAF_FLOW, LEAF_KIND,
    LEAF_PACKET_ENCODING, LEAF_SERVER_PORT, LEAF_TAG_PREFIX, PROBE_INTERVAL, PROBE_TOLERANCE_MS,
    PROBE_URL, SELECTOR_KIND, SELECTOR_TAG, TLS_SERVER_NAME, UTLS_FINGERPRINT,
};
use crate::text::{decimal, lemma_decimal_injective, owned, push_decimal};

verus! {

/// Tag of the proxy leaf at position `i`.
pub open spec fn leaf_tag(i: nat) -> Seq<char> {
    LEAF_TAG_PREFIX@ + decimal(i)
}

/// Tags of the first `n` proxy leaves, in order.
pub open spec fn leaf_tags(n: nat) -> Seq<Seq<char>> {
    Seq::new(n, |i: int| leaf_tag(i as nat))
}

/// The proxy leaf for credential `c` at position `i`.
pub open spec fn leaf_model(c: VpsCredential, i: nat) -> OutboundModel {
    OutboundModel {
        type_: LEAF_KIND@,
        tag: leaf_tag(i),
        outbounds: None,
        url: None,
        interval: None,
        tolerance: None,
        server: Some(c.ip@),
        server_port: Some(LEAF_SERVER_PORT),
        uuid: Some(c.uuid@),
        flow: Some(LEAF_FLOW@),
        packet_encoding: Some(LEAF_PACKET_ENCODING@),
        tls: Some(TlsModel {
            enabled: true,
            server_name: TLS_SERVER_NAME@,
            utls_enabled: true,
            fingerprint: UTLS_FINGERPRINT@,
            reality_enabled: true,
            public_key: c.pbk@,
            short_id: c.sid@,
        }),
        default: None,
    }
}

/// The latency-probing aggregator over `members`.
pub open spec fn aggregator_model(members: Seq<Seq<char>>) -> OutboundModel {
    OutboundModel {
        type_: AGGREGATOR_KIND@,
        tag: AUTO_SELECT_TAG@,
        outbounds: Some(members),
        url: Some(PROBE_URL@),
        interval: Some(PROBE_INTERVAL@),
        tolerance: Some(PROBE_TOLERANCE_MS),
        server: None,
        server_port: None,
        uuid: None,
        flow: None,
        packet_encoding: None,
        tls: None,
        default: None,
    }
}

/// The pass-through node.
pub open spec fn direct_model() -> OutboundModel {
    OutboundModel {
        type_: DIRECT_KIND@,
        tag: DIRECT_TAG@,
        outbounds: None,
        url: None,
        interval: None,
        tolerance: None,
        server: None,
        server_port: None,
        uuid: None,
        flow: None,
        packet_encoding: None,
        tls: None,
        default: None,
    }
}

/// The top-level selector over `members`, defaulting to the aggregator.
pub open spec fn selector_model(members: Seq<Seq<char>>) -> OutboundModel {
    OutboundModel {
        type_: SELECTOR_KIND@,
        tag: SELECTOR_TAG@,
        outbounds: Some(members),
        url: None,
        interval: None,
        tolerance: None,
        server: None,
        server_port: None,
        uuid: None,
        flow: None,
        packet_encoding: None,
        tls: None,
        default: Some(AUTO_SELECT_TAG@),
    }
}

/// The whole outbound graph for `creds`, in emission order.
pub open spec fn graph_model(creds: Seq<VpsCredential>) -> Seq<OutboundModel> {
    let n = creds.len();
    Seq::new(n, |i: int| leaf_model(creds[i], i as nat)) + seq![
        aggregator_model(leaf_tags(n)),
        direct_model(),
        selector_model(leaf_tags(n).push(AUTO_SELECT_TAG@)),
    ]
}

/// The tags of `nodes`, in order.
pub open spec fn node_tags(nodes: Seq<OutboundModel>) -> Seq<Seq<char>> {
    nodes.map_values(|o: OutboundModel| o.tag)
}

/// Tag order of the graph built from `n` credentials.
pub open spec fn graph_tags(n: nat) -> Seq<Seq<char>> {
    leaf_tags(n) + seq![AUTO_SELECT_TAG@, DIRECT_TAG@, SELECTOR_TAG@]
}

/// Whether no two of `nodes` share a tag.
pub open spec fn tags_unique(nodes: Seq<OutboundModel>) -> bool {
    forall|i: int, j: int|
        0 <= i < nodes.len() && 0 <= j < nodes.len() && i != j ==> #[trigger] nodes[i].tag
            != #[trigger] nodes[j].tag
}

/// Leaves at distinct positions have distinct tags, and no leaf tag is one
/// of the synthesized nodes' tags.
pub proof fn lemma_leaf_tag_distinct(a: nat, b: nat)
    ensures
        leaf_tag(a) == leaf_tag(b) ==> a == b,
        leaf_tag(a) != AUTO_SELECT_TAG@,
        leaf_tag(a) != DIRECT_TAG@,
        leaf_tag(a) != SELECTOR_TAG@,
{
    reveal_strlit("vps-");
    reveal_strlit("auto-select");
    reveal_strlit("direct");
    reveal_strlit("proxy-selector");
    assert(leaf_tag(a)[0] == 'v');
    assert(AUTO_SELECT_TAG@[0] == 'a');
    assert(DIRECT_TAG@[0] == 'd');
    assert(SELECTOR_TAG@[0] == 'p');
    if leaf_tag(a) == leaf_tag(b) {
        assert(decimal(a) =~= leaf_tag(a).subrange(4, leaf_tag(a).len() as int));
        assert(decimal(b) =~= leaf_tag(b).subrange(4, leaf_tag(b).len() as int));
        lemma_decimal_injective(a, b);
    }
}

/// Tags are unique across the whole graph.
pub proof fn lemma_graph_tags_unique(creds: Seq<VpsCredential>)
    ensures
        tags_unique(graph_model(creds)),
{
    let g = graph_model(creds);
    let n = creds.len() as int;
    reveal_strlit("auto-select");
    reveal_strlit("direct");
    reveal_strlit("proxy-selector");
    assert(AUTO_SELECT_TAG@[0] != DIRECT_TAG@[0]);
    assert(AUTO_SELECT_TAG@[0] != SELECTOR_TAG@[0]);
    assert(DIRECT_TAG@[0] != SELECTOR_TAG@[0]);
    assert forall|i: int, j: int|
        0 <= i < g.len() && 0 <= j < g.len() && i != j implies #[trigger] g[i].tag
        != #[trigger] g[j].tag by {
        if i < n && j < n {
            lemma_leaf_tag_distinct(i as nat, j as nat);
        } else if i < n {
            lemma_leaf_tag_distinct(i as nat, i as nat);
        } else if j < n {
            lemma_leaf_tag_distinct(j as nat, j as nat);
        }
    }
}

/// The tag of the proxy leaf at position `index`.
pub fn make_leaf_tag(index: usize) -> (r: String)
    ensures
        r@ == leaf_tag(index as nat),
{
    let mut tag = owned(LEAF_TAG_PREFIX);
    push_decimal(&mut tag, index);
    tag
}

/// The proxy leaf for credential `vps` at position `index`.
pub fn vps_to_outbound(vps: &VpsCredential, index: usize) -> (r: OutboundConfig)
    ensures
        r@ == leaf_model(*vps, index as nat),
{
    OutboundConfig {
        type_: owned(LEAF_KIND),
        tag: make_leaf_tag(index),
        server: Some(vps.ip.clone()),
        server_port: Some(LEAF_SERVER_PORT),
        uuid: Some(vps.uuid.clone()),
        flow: Some(owned(LEAF_FLOW)),
        packet_encoding: Some(owned(LEAF_PACKET_ENCODING)),
        tls: Some(TlsConfig {
            enabled: true,
            server_name: owned(TLS_SERVER_NAME),
            utls: UtlsConfig { enabled: true, fingerprint: owned(UTLS_FINGERPRINT) },
            reality: RealityConfig {
                enabled: true,
                public_key: vps.pbk.clone(),
                short_id: vps.sid.clone(),
            },
        }),
        outbounds: None,
        interval: None,
        tolerance: None,
        url: None,
        default: None,
    }
}

/// Builds the outbound graph: one proxy leaf per credential in input order,
/// then the aggregator over all leaves, the pass-through node, and the
/// selector over all leaves and the aggregator.
pub fn build_outbounds(vpses: &Vec<VpsCredential>) -> (r: Vec<OutboundConfig>)
    ensures
        outbound_models(r@) == graph_model(vpses@),
        r@.len() == vpses@.len() + 3,
        node_tags(outbound_models(r@)) == graph_tags(vpses@.len()),
        tags_unique(outbound_models(r@)),
        r@[vpses@.len() as int].outbounds is Some,
        chars_seq(r@[vpses@.len() as int].outbounds->0@) == leaf_tags(vpses@.len()),
        r@[vpses@.len() + 2int].outbounds is Some,
        chars_seq(r@[vpses@.len() + 2int].outbounds->0@) == leaf_tags(vpses@.len()).push(
            AUTO_SELECT_TAG@,
        ),
        r@[vpses@.len() + 2int].default is Some,
        r@[vpses@.len() + 2int].default->0@ == AUTO_SELECT_TAG@,
{
    let n = vpses.len();
    let mut outbounds: Vec<OutboundConfig> = Vec::new();
    let mut auto_members: Vec<String> = Vec::new();
    let mut selector_members: Vec<String> = Vec::new();
    let mut i: usize = 0;
    while i < n
        invariant
            n == vpses@.len(),
            i <= n,
            outbound_models(outbounds@) =~= Seq::new(
                i as nat,
                |j: int| leaf_model(vpses@[j], j as nat),
            ),
            chars_seq(auto_members@) =~= leaf_tags(i as nat),
            chars_seq(selector_members@) =~= leaf_tags(i as nat),
        decreases n - i,
    {
        let ghost prev_nodes = outbounds@;
        let ghost prev_auto = auto_members@;
        let ghost prev_selector = selector_members@;
        let leaf = vps_to_outbound(&vpses[i], i);
        outbounds.push(leaf);
        auto_members.push(make_leaf_tag(i));
        selector_members.push(make_leaf_tag(i));
        assert(outbound_models(outbounds@) =~= outbound_models(prev_nodes).push(leaf@));
        assert(chars_seq(auto_members@) =~= chars_seq(prev_auto).push(leaf_tag(i as nat)));
        assert(chars_seq(selector_members@) =~= chars_seq(prev_selector).push(leaf_tag(i as nat)));
        assert(outbound_models(outbounds@) =~= Seq::new(
            (i + 1) as nat,
            |j: int| leaf_model(vpses@[j], j as nat),
        ));
        assert(chars_seq(auto_members@) =~= leaf_tags((i + 1) as nat));
        assert(chars_seq(selector_members@) =~= leaf_tags((i + 1) as nat));
        i = i + 1;
    }
    outbounds.push(OutboundConfig {
        type_: owned(AGGREGATOR_KIND),
        tag: owned(AUTO_SELECT_TAG),
        outbounds: Some(auto_members),
        interval: Some(owned(PROBE_INTERVAL)),
        tolerance: Some(PROBE_TOLERANCE_MS),
        url: Some(owned(PROBE_URL)),
        server: None,
        server_port: None,
        flow: None,
        uuid: None,
        packet_encoding: None,
        tls: None,
        default: None,
    });
    outbounds.push(OutboundConfig {
        type_: owned(DIRECT_KIND),
        tag: owned(DIRECT_TAG),
        outbounds: None,
        interval: None,
        tolerance: None,
        url: None,
        server: None,
        server_port: None,
        flow: None,
        uuid: None,
        packet_encoding: None,
        tls: None,
        default: None,
    });
    selector_members.push(owned(AUTO_SELECT_TAG));
    assert(chars_seq(selector_members@) =~= leaf_tags(n as nat).push(AUTO_SELECT_TAG@));
    outbounds.push(OutboundConfig {
        type_: owned(SELECTOR_KIND),
        tag: owned(SELECTOR_TAG),
        outbounds: Some(selector_members),
        default: Some(owned(AUTO_SELECT_TAG)),
        url: None,
        flow: None,
        interval: None,
        packet_encoding: None,
        server: None,
        tolerance: None,
        server_port: None,
        tls: None,
        uuid: None,
    });
    assert(outbound_models(outbounds@) =~= graph_model(vpses@));
    assert(node_tags(outbound_models(outbounds@)) =~= graph_tags(n as nat));
    proof {
        lemma_graph_tags_unique(vpses@);
    }
    outbounds
}

} // verus!
