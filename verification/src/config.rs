//! The Config Materializer: renders a spec and an advertised address into the
//! proxy's configuration document. The rendering is a pure function of its
//! inputs, so repeated builds are byte-identical — which the fingerprint and
//! rolling-restart machinery depend on.

use vstd::prelude::*;

use crate::crd::{KafkaPartitionRemapperSpec, TopicMappingOverride};
use crate::error::Error;
use crate::text::{
    bool_to_string, bool_view, dec_view, i32_to_string, int_view, u32_to_string, u64_to_string,
};

verus! {

use vstd::string::StringExecFns;

/// The `listen` section: bind address, advertised address, connection cap.
pub open spec fn listen_section_view(s: KafkaPartitionRemapperSpec, addr: Seq<char>) -> Seq<char> {
    "listen:\n  address: 0.0.0.0:"@ + int_view(s.listen.port as int)
        + "\n  advertised_address: "@ + addr + "\n  max_connections: "@ + dec_view(
        s.listen.max_connections as nat,
    ) + "\n"@
}

/// One `- server` line per bootstrap server, in declared order.
pub open spec fn server_lines_view(items: Seq<String>) -> Seq<char>
    decreases items.len(),
{
    if items.len() == 0 {
        Seq::<char>::empty()
    } else {
        server_lines_view(items.drop_last()) + "  - "@ + items.last()@ + "\n"@
    }
}

/// The `kafka` section: bootstrap servers, timeouts, refresh interval,
/// security protocol.
pub open spec fn kafka_section_view(s: KafkaPartitionRemapperSpec) -> Seq<char> {
    "kafka:\n  bootstrap_servers:\n"@ + server_lines_view(s.kafka.bootstrap_servers@)
        + "  connection_timeout_ms: "@ + dec_view(s.kafka.connection_timeout_ms as nat)
        + "\n  request_timeout_ms: "@ + dec_view(s.kafka.request_timeout_ms as nat)
        + "\n  metadata_refresh_interval_secs: "@ + dec_view(
        s.kafka.metadata_refresh_interval_secs as nat,
    ) + "\n  security_protocol: "@ + s.kafka.security_protocol@ + "\n"@
}

/// One topic override entry: only the fields the override sets are emitted.
pub open spec fn topic_entry_view(t: TopicMappingOverride) -> Seq<char> {
    "    "@ + t.topic@ + ":\n"@ + (match t.virtual_partitions {
        Some(vp) => "      virtual_partitions: "@ + dec_view(vp as nat) + "\n"@,
        None => Seq::<char>::empty(),
    }) + (match t.physical_partitions {
        Some(pp) => "      physical_partitions: "@ + dec_view(pp as nat) + "\n"@,
        None => Seq::<char>::empty(),
    }) + (match t.offset_range {
        Some(or) => "      offset_range: "@ + dec_view(or as nat) + "\n"@,
        None => Seq::<char>::empty(),
    })
}

/// The topic override entries, in declared order.
pub open spec fn topics_view(ts: Seq<TopicMappingOverride>) -> Seq<char>
    decreases ts.len(),
{
    if ts.len() == 0 {
        Seq::<char>::empty()
    } else {
        topics_view(ts.drop_last()) + topic_entry_view(ts.last())
    }
}

/// The `mapping` section: partition counts, offset range, topic overrides.
pub open spec fn mapping_section_view(s: KafkaPartitionRemapperSpec) -> Seq<char> {
    "mapping:\n  virtual_partitions: "@ + dec_view(s.mapping.virtual_partitions as nat)
        + "\n  physical_partitions: "@ + dec_view(s.mapping.physical_partitions as nat)
        + "\n  offset_range: "@ + dec_view(s.mapping.offset_range as nat) + "\n"@ + (
    if s.mapping.topics@.len() > 0 {
        "  topics:\n"@ + topics_view(s.mapping.topics@)
    } else {
        Seq::<char>::empty()
    })
}

/// The `metrics` section: enabled flag and bind address.
pub open spec fn metrics_section_view(s: KafkaPartitionRemapperSpec) -> Seq<char> {
    "metrics:\n  enabled: "@ + bool_view(s.metrics.enabled) + "\n  address: 0.0.0.0:"@ + int_view(
        s.metrics.port as int,
    ) + "\n"@
}

/// The `logging` section: level and format flag.
pub open spec fn logging_section_view(s: KafkaPartitionRemapperSpec) -> Seq<char> {
    "logging:\n  level: "@ + s.logging.level@ + "\n  json: "@ + bool_view(s.logging.json) + "\n"@
}

/// The whole configuration document, section by section.
pub open spec fn config_text_view(s: KafkaPartitionRemapperSpec, addr: Seq<char>) -> Seq<char> {
    listen_section_view(s, addr) + kafka_section_view(s) + mapping_section_view(s)
        + metrics_section_view(s) + logging_section_view(s)
}

/// The address clients are told to reconnect to: the declared override when
/// set, else the Service's cluster-internal DNS name with the listener port.
pub open spec fn advertised_address_view(
    s: KafkaPartitionRemapperSpec,
    name: Seq<char>,
    namespace: Seq<char>,
) -> Seq<char> {
    match s.listen.advertised_address {
        Some(a) => a@,
        None => name + "."@ + namespace + ".svc.cluster.local:"@ + int_view(s.listen.port as int),
    }
}

/// Computes the advertised address for a resource name and namespace.
pub fn advertised_address(
    spec: &KafkaPartitionRemapperSpec,
    name: &String,
    namespace: &String,
) -> (a: String)
    ensures
        a@ == advertised_address_view(*spec, name@, namespace@),
{
    match &spec.listen.advertised_address {
        Some(a) => a.clone(),
        None => {
            let mut s = name.clone();
            s.append(".");
            s.append(namespace.as_str());
            s.append(".svc.cluster.local:");
            let port = i32_to_string(spec.listen.port);
            s.append(port.as_str());
            proof {
                assert(s@ =~= advertised_address_view(*spec, name@, namespace@));
            }
            s
        },
    }
}

fn append_listen_section(out: &mut String, s: &KafkaPartitionRemapperSpec, addr: &str)
    ensures
        final(out)@ == old(out)@ + listen_section_view(*s, addr@),
{
    out.append("listen:\n  address: 0.0.0.0:");
    let port = i32_to_string(s.listen.port);
    out.append(port.as_str());
    out.append("\n  advertised_address: ");
    out.append(addr);
    out.append("\n  max_connections: ");
    let mc = u32_to_string(s.listen.max_connections);
    out.append(mc.as_str());
    out.append("\n");
    proof {
        assert(out@ =~= old(out)@ + listen_section_view(*s, addr@));
    }
}

proof fn lemma_server_lines_snoc(items: Seq<String>, i: int)
    requires
        0 <= i < items.len(),
    ensures
        server_lines_view(items.take(i + 1)) == server_lines_view(items.take(i)) + "  - "@
            + items[i]@ + "\n"@,
{
    assert(items.take(i + 1).drop_last() =~= items.take(i));
    assert(items.take(i + 1).last() == items[i]);
}

fn append_server_lines(out: &mut String, servers: &Vec<String>)
    ensures
        final(out)@ == old(out)@ + server_lines_view(servers@),
{
    let ghost base = out@;
    let mut i: usize = 0;
    proof {
        assert(servers@.take(0) =~= Seq::<String>::empty());
        assert(out@ =~= base + server_lines_view(servers@.take(0)));
    }
    while i < servers.len()
        invariant
            i <= servers@.len(),
            out@ == base + server_lines_view(servers@.take(i as int)),
        decreases servers@.len() - i,
    {
        out.append("  - ");
        out.append(servers[i].as_str());
        out.append("\n");
        proof {
            lemma_server_lines_snoc(servers@, i as int);
            assert(out@ =~= base + server_lines_view(servers@.take(i as int + 1)));
        }
        i = i + 1;
    }
    proof {
        assert(servers@.take(servers@.len() as int) =~= servers@);
    }
}

fn append_kafka_section(out: &mut String, s: &KafkaPartitionRemapperSpec)
    ensures
        final(out)@ == old(out)@ + kafka_section_view(*s),
{
    out.append("kafka:\n  bootstrap_servers:\n");
    append_server_lines(out, &s.kafka.bootstrap_servers);
    out.append("  connection_timeout_ms: ");
    let ct = u64_to_string(s.kafka.connection_timeout_ms);
    out.append(ct.as_str());
    out.append("\n  request_timeout_ms: ");
    let rt = u64_to_string(s.kafka.request_timeout_ms);
    out.append(rt.as_str());
    out.append("\n  metadata_refresh_interval_secs: ");
    let mr = u64_to_string(s.kafka.metadata_refresh_interval_secs);
    out.append(mr.as_str());
    out.append("\n  security_protocol: ");
    out.append(s.kafka.security_protocol.as_str());
    out.append("\n");
    proof {
        assert(out@ =~= old(out)@ + kafka_section_view(*s));
    }
}

#[verifier::rlimit(60)]
fn append_topic_entry(out: &mut String, t: &TopicMappingOverride)
    ensures
        final(out)@ == old(out)@ + topic_entry_view(*t),
{
    out.append("    ");
    out.append(t.topic.as_str());
    out.append(":\n");
    match &t.virtual_partitions {
        Some(vp) => {
            out.append("      virtual_partitions: ");
            let v = u32_to_string(*vp);
            out.append(v.as_str());
            out.append("\n");
        },
        None => {},
    }
    match &t.physical_partitions {
        Some(pp) => {
            out.append("      physical_partitions: ");
            let v = u32_to_string(*pp);
            out.append(v.as_str());
            out.append("\n");
        },
        None => {},
    }
    match &t.offset_range {
        Some(or) => {
            out.append("      offset_range: ");
            let v = u64_to_string(*or);
            out.append(v.as_str());
            out.append("\n");
        },
        None => {},
    }
    proof {
        assert(out@ =~= old(out)@ + topic_entry_view(*t));
    }
}

proof fn lemma_topics_snoc(ts: Seq<TopicMappingOverride>, i: int)
    requires
        0 <= i < ts.len(),
    ensures
        topics_view(ts.take(i + 1)) == topics_view(ts.take(i)) + topic_entry_view(ts[i]),
{
    assert(ts.take(i + 1).drop_last() =~= ts.take(i));
    assert(ts.take(i + 1).last() == ts[i]);
}

fn append_topics(out: &mut String, ts: &Vec<TopicMappingOverride>)
    ensures
        final(out)@ == old(out)@ + topics_view(ts@),
{
    let ghost base = out@;
    let mut i: usize = 0;
    proof {
        assert(ts@.take(0) =~= Seq::<TopicMappingOverride>::empty());
        assert(out@ =~= base + topics_view(ts@.take(0)));
    }
    while i < ts.len()
        invariant
            i <= ts@.len(),
            out@ == base + topics_view(ts@.take(i as int)),
        decreases ts@.len() - i,
    {
        append_topic_entry(out, &ts[i]);
        proof {
            lemma_topics_snoc(ts@, i as int);
            assert(out@ =~= base + topics_view(ts@.take(i as int + 1)));
        }
        i = i + 1;
    }
    proof {
        assert(ts@.take(ts@.len() as int) =~= ts@);
    }
}

fn append_mapping_section(out: &mut String, s: &KafkaPartitionRemapperSpec)
    ensures
        final(out)@ == old(out)@ + mapping_section_view(*s),
{
    out.append("mapping:\n  virtual_partitions: ");
    let vp = u32_to_string(s.mapping.virtual_partitions);
    out.append(vp.as_str());
    out.append("\n  physical_partitions: ");
    let pp = u32_to_string(s.mapping.physical_partitions);
    out.append(pp.as_str());
    out.append("\n  offset_range: ");
    let or = u64_to_string(s.mapping.offset_range);
    out.append(or.as_str());
    out.append("\n");
    if s.mapping.topics.len() > 0 {
        out.append("  topics:\n");
        append_topics(out, &s.mapping.topics);
    }
    proof {
        assert(out@ =~= old(out)@ + mapping_section_view(*s));
    }
}

fn append_metrics_section(out: &mut String, s: &KafkaPartitionRemapperSpec)
    ensures
        final(out)@ == old(out)@ + metrics_section_view(*s),
{
    out.append("metrics:\n  enabled: ");
    let en = bool_to_string(s.metrics.enabled);
    out.append(en.as_str());
    out.append("\n  address: 0.0.0.0:");
    let port = i32_to_string(s.metrics.port);
    out.append(port.as_str());
    out.append("\n");
    proof {
        assert(out@ =~= old(out)@ + metrics_section_view(*s));
    }
}

fn append_logging_section(out: &mut String, s: &KafkaPartitionRemapperSpec)
    ensures
        final(out)@ == old(out)@ + logging_section_view(*s),
{
    out.append("logging:\n  level: ");
    out.append(s.logging.level.as_str());
    out.append("\n  json: ");
    let js = bool_to_string(s.logging.json);
    out.append(js.as_str());
    out.append("\n");
    proof {
        assert(out@ =~= old(out)@ + logging_section_view(*s));
    }
}

/// Build the proxy configuration document from a spec and the advertised
/// address. Rendering cannot fail; the result is exactly the document the
/// spec describes.
pub fn build_proxy_config(spec: &KafkaPartitionRemapperSpec, advertised_address: &str) -> (r:
    Result<String, Error>)
    ensures
        r matches Ok(t) && t@ == config_text_view(*spec, advertised_address@),
{
    let mut out = String::new();
    append_listen_section(&mut out, spec, advertised_address);
    append_kafka_section(&mut out, spec);
    append_mapping_section(&mut out, spec);
    append_metrics_section(&mut out, spec);
    append_logging_section(&mut out, spec);
    proof {
        assert(out@ =~= config_text_view(*spec, advertised_address@));
    }
    Ok(out)
}

/// Determinism law for the Config Materializer: equal specs and equal
/// advertised addresses yield byte-identical configuration text, however
/// often it is rebuilt.
pub proof fn lemma_config_text_deterministic(
    s1: KafkaPartitionRemapperSpec,
    s2: KafkaPartitionRemapperSpec,
    a1: Seq<char>,
    a2: Seq<char>,
)
    requires
        s1 == s2,
        a1 == a2,
    ensures
        config_text_view(s1, a1) == config_text_view(s2, a2),
{
}

} // verus!
