//! The Fingerprint Function: a short digest of the whole spec, placed on the
//! pod template as a checksum annotation so that a configuration change rolls
//! the pods. The spec is first rendered into a canonical text that covers
//! every field in a fixed order, then hashed and truncated to sixteen
//! hexadecimal digits.

use vstd::prelude::*;

use crate::crd::{
    ClientSaslSpec, ClientSecuritySpec, ClientTlsSpec, KafkaClusterSpec,
    KafkaPartitionRemapperSpec, ListenSpec, LoggingSpec, MappingSpec, MetricsSpec,
    PodTemplateSpec, ResourceRequirementsSpec, SaslSecretRef, SecretRef, ServiceSpec,
    TlsSecretRef, TolerationSpec, TopicMappingOverride,
};
use crate::text::{bytes_to_hex_prefix, dec_view, hex_view, i64_to_string, int_view,
    u32_to_string, u64_to_string};
use sha2::Digest;

verus! {

use vstd::string::StringExecFns;
use vstd::utf8::encode_utf8;

/// A text field: its contents followed by a line break.
pub open spec fn enc_str(s: Seq<char>) -> Seq<char> {
    s + "\n"@
}

/// An optional text field: a presence marker, then the contents when present.
pub open spec fn enc_opt_str(o: Option<String>) -> Seq<char> {
    match o {
        None => "-\n"@,
        Some(s) => "+"@ + s@ + "\n"@,
    }
}

/// An unsigned numeric field.
pub open spec fn enc_nat(n: nat) -> Seq<char> {
    dec_view(n) + "\n"@
}

/// A signed numeric field.
pub open spec fn enc_int(i: int) -> Seq<char> {
    int_view(i) + "\n"@
}

/// A boolean field.
pub open spec fn enc_bool(b: bool) -> Seq<char> {
    if b {
        "t\n"@
    } else {
        "f\n"@
    }
}

/// An optional 32-bit count.
pub open spec fn enc_opt_u32(o: Option<u32>) -> Seq<char> {
    match o {
        None => "-\n"@,
        Some(v) => "+"@ + dec_view(v as nat) + "\n"@,
    }
}

/// An optional 64-bit count.
pub open spec fn enc_opt_u64(o: Option<u64>) -> Seq<char> {
    match o {
        None => "-\n"@,
        Some(v) => "+"@ + dec_view(v as nat) + "\n"@,
    }
}

/// An optional signed 64-bit value.
pub open spec fn enc_opt_i64(o: Option<i64>) -> Seq<char> {
    match o {
        None => "-\n"@,
        Some(v) => "+"@ + int_view(v as int) + "\n"@,
    }
}

/// The entries of a text list, in order.
pub open spec fn enc_str_items(items: Seq<String>) -> Seq<char>
    decreases items.len(),
{
    if items.len() == 0 {
        Seq::<char>::empty()
    } else {
        enc_str_items(items.drop_last()) + enc_str(items.last()@)
    }
}

/// A text list: its length, then its entries.
pub open spec fn enc_str_list(items: Seq<String>) -> Seq<char> {
    enc_nat(items.len()) + enc_str_items(items)
}

/// The entries of a key/value list, in order.
pub open spec fn enc_kv_items(items: Seq<(String, String)>) -> Seq<char>
    decreases items.len(),
{
    if items.len() == 0 {
        Seq::<char>::empty()
    } else {
        enc_kv_items(items.drop_last()) + enc_str(items.last().0@) + enc_str(items.last().1@)
    }
}

/// A key/value list: its length, then its pairs.
pub open spec fn enc_kv_list(items: Seq<(String, String)>) -> Seq<char> {
    enc_nat(items.len()) + enc_kv_items(items)
}

/// A simple secret reference, when present.
pub open spec fn enc_secret_ref(o: Option<SecretRef>) -> Seq<char> {
    match o {
        None => "-\n"@,
        Some(r) => "+\n"@ + enc_str(r.name@) + enc_str(r.key@),
    }
}

/// The client-facing TLS settings, when present.
pub open spec fn enc_client_tls(o: Option<ClientTlsSpec>) -> Seq<char> {
    match o {
        None => "-\n"@,
        Some(t) => "+\n"@ + enc_str(t.certificate_secret.name@) + enc_str(
            t.certificate_secret.cert_key@,
        ) + enc_str(t.certificate_secret.key_key@) + enc_secret_ref(t.client_ca_secret)
            + enc_bool(t.require_client_cert),
    }
}

/// The client-facing SASL settings, when present.
pub open spec fn enc_client_sasl(o: Option<ClientSaslSpec>) -> Seq<char> {
    match o {
        None => "-\n"@,
        Some(cs) => "+\n"@ + enc_str_list(cs.enabled_mechanisms@) + enc_str(
            cs.credentials_secret.name@,
        ),
    }
}

/// The client-facing security settings, when present.
pub open spec fn enc_client_security(o: Option<ClientSecuritySpec>) -> Seq<char> {
    match o {
        None => "-\n"@,
        Some(c) => "+\n"@ + enc_str(c.protocol@) + enc_client_tls(c.tls) + enc_client_sasl(c.sasl),
    }
}

/// The broker TLS secret reference, when present.
pub open spec fn enc_tls_secret(o: Option<TlsSecretRef>) -> Seq<char> {
    match o {
        None => "-\n"@,
        Some(t) => "+\n"@ + enc_str(t.name@) + enc_str(t.ca_key@) + enc_opt_str(t.cert_key)
            + enc_opt_str(t.key_key) + enc_bool(t.insecure_skip_verify),
    }
}

/// The broker SASL secret reference, when present.
pub open spec fn enc_sasl_secret(o: Option<SaslSecretRef>) -> Seq<char> {
    match o {
        None => "-\n"@,
        Some(s) => "+\n"@ + enc_str(s.name@) + enc_str(s.mechanism@) + enc_str(s.username_key@)
            + enc_str(s.password_key@),
    }
}

/// One per-topic override.
pub open spec fn enc_topic(t: TopicMappingOverride) -> Seq<char> {
    enc_str(t.topic@) + enc_opt_u32(t.virtual_partitions) + enc_opt_u32(t.physical_partitions)
        + enc_opt_u64(t.offset_range)
}

/// The entries of a topic override list, in order.
pub open spec fn enc_topic_items(ts: Seq<TopicMappingOverride>) -> Seq<char>
    decreases ts.len(),
{
    if ts.len() == 0 {
        Seq::<char>::empty()
    } else {
        enc_topic_items(ts.drop_last()) + enc_topic(ts.last())
    }
}

/// A topic override list: its length, then its entries.
pub open spec fn enc_topic_list(ts: Seq<TopicMappingOverride>) -> Seq<char> {
    enc_nat(ts.len()) + enc_topic_items(ts)
}

/// One toleration.
pub open spec fn enc_toleration(t: TolerationSpec) -> Seq<char> {
    enc_opt_str(t.key) + enc_opt_str(t.operator) + enc_opt_str(t.value) + enc_opt_str(t.effect)
        + enc_opt_i64(t.toleration_seconds)
}

/// The entries of a toleration list, in order.
pub open spec fn enc_toleration_items(ts: Seq<TolerationSpec>) -> Seq<char>
    decreases ts.len(),
{
    if ts.len() == 0 {
        Seq::<char>::empty()
    } else {
        enc_toleration_items(ts.drop_last()) + enc_toleration(ts.last())
    }
}

/// A toleration list: its length, then its entries.
pub open spec fn enc_toleration_list(ts: Seq<TolerationSpec>) -> Seq<char> {
    enc_nat(ts.len()) + enc_toleration_items(ts)
}

/// The resource requirements, when present.
pub open spec fn enc_resources(o: Option<ResourceRequirementsSpec>) -> Seq<char> {
    match o {
        None => "-\n"@,
        Some(r) => "+\n"@ + enc_kv_list(r.limits@) + enc_kv_list(r.requests@),
    }
}

/// The pod template overrides, when present.
pub open spec fn enc_pod_template(o: Option<PodTemplateSpec>) -> Seq<char> {
    match o {
        None => "-\n"@,
        Some(pt) => "+\n"@ + enc_kv_list(pt.annotations@) + enc_kv_list(pt.labels@) + enc_kv_list(
            pt.node_selector@,
        ) + enc_toleration_list(pt.tolerations@) + enc_opt_str(pt.affinity) + enc_resources(
            pt.resources,
        ) + enc_opt_str(pt.image) + enc_opt_str(pt.image_tag) + enc_opt_str(pt.image_pull_policy)
            + enc_str_list(pt.image_pull_secrets@) + enc_opt_str(pt.service_account_name)
            + enc_opt_str(pt.security_context),
    }
}

/// The listener fields.
pub open spec fn canon_listen(l: ListenSpec) -> Seq<char> {
    enc_int(l.port as int) + enc_opt_str(l.advertised_address) + enc_nat(l.max_connections as nat)
        + enc_client_security(l.security)
}

/// The Kafka cluster fields.
pub open spec fn canon_kafka(k: KafkaClusterSpec) -> Seq<char> {
    enc_str_list(k.bootstrap_servers@) + enc_nat(k.connection_timeout_ms as nat) + enc_nat(
        k.request_timeout_ms as nat,
    ) + enc_nat(k.metadata_refresh_interval_secs as nat) + enc_str(k.security_protocol@)
        + enc_tls_secret(k.tls_secret) + enc_sasl_secret(k.sasl_secret)
}

/// The mapping fields.
pub open spec fn canon_mapping(m: MappingSpec) -> Seq<char> {
    enc_nat(m.virtual_partitions as nat) + enc_nat(m.physical_partitions as nat) + enc_nat(
        m.offset_range as nat,
    ) + enc_topic_list(m.topics@)
}

/// The metrics fields.
pub open spec fn canon_metrics(m: MetricsSpec) -> Seq<char> {
    enc_bool(m.enabled) + enc_int(m.port as int)
}

/// The logging fields.
pub open spec fn canon_logging(l: LoggingSpec) -> Seq<char> {
    enc_str(l.level@) + enc_bool(l.json)
}

/// The Service fields.
pub open spec fn canon_service(s: ServiceSpec) -> Seq<char> {
    enc_str(s.type_@) + enc_kv_list(s.annotations@) + enc_opt_str(s.load_balancer_ip)
        + enc_opt_str(s.external_traffic_policy)
}

/// The canonical text of a whole spec: every field, in a fixed order. Equal
/// specs render identically; the rendering never depends on process state.
pub open spec fn canonical_view(s: KafkaPartitionRemapperSpec) -> Seq<char> {
    enc_int(s.replicas as int) + canon_listen(s.listen) + canon_kafka(s.kafka) + canon_mapping(
        s.mapping,
    ) + canon_metrics(s.metrics) + canon_logging(s.logging) + canon_service(s.service)
        + enc_pod_template(s.pod_template) + enc_bool(s.suspend)
}

fn push_str_field(out: &mut String, v: &str)
    ensures
        final(out)@ == old(out)@ + enc_str(v@),
{
    out.append(v);
    out.append("\n");
    proof {
        assert(out@ =~= old(out)@ + enc_str(v@));
    }
}

fn push_opt_str(out: &mut String, o: &Option<String>)
    ensures
        final(out)@ == old(out)@ + enc_opt_str(*o),
{
    match o {
        None => out.append("-\n"),
        Some(s) => {
            out.append("+");
            out.append(s.as_str());
            out.append("\n");
            proof {
                assert(out@ =~= old(out)@ + enc_opt_str(*o));
            }
        },
    }
}

fn push_u64(out: &mut String, n: u64)
    ensures
        final(out)@ == old(out)@ + enc_nat(n as nat),
{
    let s = u64_to_string(n);
    out.append(s.as_str());
    out.append("\n");
    proof {
        assert(out@ =~= old(out)@ + enc_nat(n as nat));
    }
}

fn push_u32(out: &mut String, n: u32)
    ensures
        final(out)@ == old(out)@ + enc_nat(n as nat),
{
    let s = u32_to_string(n);
    out.append(s.as_str());
    out.append("\n");
    proof {
        assert(out@ =~= old(out)@ + enc_nat(n as nat));
    }
}

fn push_usize(out: &mut String, n: usize)
    ensures
        final(out)@ == old(out)@ + enc_nat(n as nat),
{
    push_u64(out, n as u64);
}

fn push_i64(out: &mut String, i: i64)
    ensures
        final(out)@ == old(out)@ + enc_int(i as int),
{
    let s = i64_to_string(i);
    out.append(s.as_str());
    out.append("\n");
    proof {
        assert(out@ =~= old(out)@ + enc_int(i as int));
    }
}

fn push_i32(out: &mut String, i: i32)
    ensures
        final(out)@ == old(out)@ + enc_int(i as int),
{
    push_i64(out, i as i64);
}

fn push_bool(out: &mut String, b: bool)
    ensures
        final(out)@ == old(out)@ + enc_bool(b),
{
    if b {
        out.append("t\n");
    } else {
        out.append("f\n");
    }
}

fn push_opt_u32(out: &mut String, o: &Option<u32>)
    ensures
        final(out)@ == old(out)@ + enc_opt_u32(*o),
{
    match o {
        None => out.append("-\n"),
        Some(v) => {
            out.append("+");
            let s = u32_to_string(*v);
            out.append(s.as_str());
            out.append("\n");
            proof {
                assert(out@ =~= old(out)@ + enc_opt_u32(*o));
            }
        },
    }
}

fn push_opt_u64(out: &mut String, o: &Option<u64>)
    ensures
        final(out)@ == old(out)@ + enc_opt_u64(*o),
{
    match o {
        None => out.append("-\n"),
        Some(v) => {
            out.append("+");
            let s = u64_to_string(*v);
            out.append(s.as_str());
            out.append("\n");
            proof {
                assert(out@ =~= old(out)@ + enc_opt_u64(*o));
            }
        },
    }
}

fn push_opt_i64(out: &mut String, o: &Option<i64>)
    ensures
        final(out)@ == old(out)@ + enc_opt_i64(*o),
{
    match o {
        None => out.append("-\n"),
        Some(v) => {
            out.append("+");
            let s = i64_to_string(*v);
            out.append(s.as_str());
            out.append("\n");
            proof {
                assert(out@ =~= old(out)@ + enc_opt_i64(*o));
            }
        },
    }
}

proof fn lemma_str_items_snoc(items: Seq<String>, i: int)
    requires
        0 <= i < items.len(),
    ensures
        enc_str_items(items.take(i + 1)) == enc_str_items(items.take(i)) + enc_str(items[i]@),
{
    assert(items.take(i + 1).drop_last() =~= items.take(i));
    assert(items.take(i + 1).last() == items[i]);
}

fn push_str_list(out: &mut String, items: &Vec<String>)
    ensures
        final(out)@ == old(out)@ + enc_str_list(items@),
{
    push_usize(out, items.len());
    let ghost base = out@;
    let mut i: usize = 0;
    proof {
        assert(items@.take(0) =~= Seq::<String>::empty());
        assert(out@ =~= base + enc_str_items(items@.take(0)));
    }
    while i < items.len()
        invariant
            i <= items@.len(),
            out@ == base + enc_str_items(items@.take(i as int)),
        decreases items@.len() - i,
    {
        push_str_field(out, items[i].as_str());
        proof {
            lemma_str_items_snoc(items@, i as int);
            assert(out@ =~= base + enc_str_items(items@.take(i as int + 1)));
        }
        i = i + 1;
    }
    proof {
        assert(items@.take(items@.len() as int) =~= items@);
    }
}

proof fn lemma_kv_items_snoc(items: Seq<(String, String)>, i: int)
    requires
        0 <= i < items.len(),
    ensures
        enc_kv_items(items.take(i + 1)) == enc_kv_items(items.take(i)) + enc_str(items[i].0@)
            + enc_str(items[i].1@),
{
    assert(items.take(i + 1).drop_last() =~= items.take(i));
    assert(items.take(i + 1).last() == items[i]);
}

fn push_kv_list(out: &mut String, items: &Vec<(String, String)>)
    ensures
        final(out)@ == old(out)@ + enc_kv_list(items@),
{
    push_usize(out, items.len());
    let ghost base = out@;
    let mut i: usize = 0;
    proof {
        assert(items@.take(0) =~= Seq::<(String, String)>::empty());
        assert(out@ =~= base + enc_kv_items(items@.take(0)));
    }
    while i < items.len()
        invariant
            i <= items@.len(),
            out@ == base + enc_kv_items(items@.take(i as int)),
        decreases items@.len() - i,
    {
        push_str_field(out, items[i].0.as_str());
        push_str_field(out, items[i].1.as_str());
        proof {
            lemma_kv_items_snoc(items@, i as int);
            assert(out@ =~= base + enc_kv_items(items@.take(i as int + 1)));
        }
        i = i + 1;
    }
    proof {
        assert(items@.take(items@.len() as int) =~= items@);
    }
}

fn push_secret_ref(out: &mut String, o: &Option<SecretRef>)
    ensures
        final(out)@ == old(out)@ + enc_secret_ref(*o),
{
    match o {
        None => out.append("-\n"),
        Some(r) => {
            out.append("+\n");
            push_str_field(out, r.name.as_str());
            push_str_field(out, r.key.as_str());
            proof {
                assert(out@ =~= old(out)@ + enc_secret_ref(*o));
            }
        },
    }
}

fn push_client_tls(out: &mut String, o: &Option<ClientTlsSpec>)
    ensures
        final(out)@ == old(out)@ + enc_client_tls(*o),
{
    match o {
        None => out.append("-\n"),
        Some(t) => {
            out.append("+\n");
            push_str_field(out, t.certificate_secret.name.as_str());
            push_str_field(out, t.certificate_secret.cert_key.as_str());
            push_str_field(out, t.certificate_secret.key_key.as_str());
            push_secret_ref(out, &t.client_ca_secret);
            push_bool(out, t.require_client_cert);
            proof {
                assert(out@ =~= old(out)@ + enc_client_tls(*o));
            }
        },
    }
}

fn push_client_sasl(out: &mut String, o: &Option<ClientSaslSpec>)
    ensures
        final(out)@ == old(out)@ + enc_client_sasl(*o),
{
    match o {
        None => out.append("-\n"),
        Some(cs) => {
            out.append("+\n");
            push_str_list(out, &cs.enabled_mechanisms);
            push_str_field(out, cs.credentials_secret.name.as_str());
            proof {
                assert(out@ =~= old(out)@ + enc_client_sasl(*o));
            }
        },
    }
}

fn push_client_security(out: &mut String, o: &Option<ClientSecuritySpec>)
    ensures
        final(out)@ == old(out)@ + enc_client_security(*o),
{
    match o {
        None => out.append("-\n"),
        Some(c) => {
            out.append("+\n");
            push_str_field(out, c.protocol.as_str());
            push_client_tls(out, &c.tls);
            push_client_sasl(out, &c.sasl);
            proof {
                assert(out@ =~= old(out)@ + enc_client_security(*o));
            }
        },
    }
}

fn push_tls_secret(out: &mut String, o: &Option<TlsSecretRef>)
    ensures
        final(out)@ == old(out)@ + enc_tls_secret(*o),
{
    match o {
        None => out.append("-\n"),
        Some(t) => {
            out.append("+\n");
            push_str_field(out, t.name.as_str());
            push_str_field(out, t.ca_key.as_str());
            push_opt_str(out, &t.cert_key);
            push_opt_str(out, &t.key_key);
            push_bool(out, t.insecure_skip_verify);
            proof {
                assert(out@ =~= old(out)@ + enc_tls_secret(*o));
            }
        },
    }
}

fn push_sasl_secret(out: &mut String, o: &Option<SaslSecretRef>)
    ensures
        final(out)@ == old(out)@ + enc_sasl_secret(*o),
{
    match o {
        None => out.append("-\n"),
        Some(s) => {
            out.append("+\n");
            push_str_field(out, s.name.as_str());
            push_str_field(out, s.mechanism.as_str());
            push_str_field(out, s.username_key.as_str());
            push_str_field(out, s.password_key.as_str());
            proof {
                assert(out@ =~= old(out)@ + enc_sasl_secret(*o));
            }
        },
    }
}

fn push_topic(out: &mut String, t: &TopicMappingOverride)
    ensures
        final(out)@ == old(out)@ + enc_topic(*t),
{
    push_str_field(out, t.topic.as_str());
    push_opt_u32(out, &t.virtual_partitions);
    push_opt_u32(out, &t.physical_partitions);
    push_opt_u64(out, &t.offset_range);
    proof {
        assert(out@ =~= old(out)@ + enc_topic(*t));
    }
}

proof fn lemma_topic_items_snoc(ts: Seq<TopicMappingOverride>, i: int)
    requires
        0 <= i < ts.len(),
    ensures
        enc_topic_items(ts.take(i + 1)) == enc_topic_items(ts.take(i)) + enc_topic(ts[i]),
{
    assert(ts.take(i + 1).drop_last() =~= ts.take(i));
    assert(ts.take(i + 1).last() == ts[i]);
}

fn push_topic_list(out: &mut String, ts: &Vec<TopicMappingOverride>)
    ensures
        final(out)@ == old(out)@ + enc_topic_list(ts@),
{
    push_usize(out, ts.len());
    let ghost base = out@;
    let mut i: usize = 0;
    proof {
        assert(ts@.take(0) =~= Seq::<TopicMappingOverride>::empty());
        assert(out@ =~= base + enc_topic_items(ts@.take(0)));
    }
    while i < ts.len()
        invariant
            i <= ts@.len(),
            out@ == base + enc_topic_items(ts@.take(i as int)),
        decreases ts@.len() - i,
    {
        push_topic(out, &ts[i]);
        proof {
            lemma_topic_items_snoc(ts@, i as int);
            assert(out@ =~= base + enc_topic_items(ts@.take(i as int + 1)));
        }
        i = i + 1;
    }
    proof {
        assert(ts@.take(ts@.len() as int) =~= ts@);
    }
}

fn push_toleration(out: &mut String, t: &TolerationSpec)
    ensures
        final(out)@ == old(out)@ + enc_toleration(*t),
{
    push_opt_str(out, &t.key);
    push_opt_str(out, &t.operator);
    push_opt_str(out, &t.value);
    push_opt_str(out, &t.effect);
    push_opt_i64(out, &t.toleration_seconds);
    proof {
        assert(out@ =~= old(out)@ + enc_toleration(*t));
    }
}

proof fn lemma_toleration_items_snoc(ts: Seq<TolerationSpec>, i: int)
    requires
        0 <= i < ts.len(),
    ensures
        enc_toleration_items(ts.take(i + 1)) == enc_toleration_items(ts.take(i)) + enc_toleration(
            ts[i],
        ),
{
    assert(ts.take(i + 1).drop_last() =~= ts.take(i));
    assert(ts.take(i + 1).last() == ts[i]);
}

fn push_toleration_list(out: &mut String, ts: &Vec<TolerationSpec>)
    ensures
        final(out)@ == old(out)@ + enc_toleration_list(ts@),
{
    push_usize(out, ts.len());
    let ghost base = out@;
    let mut i: usize = 0;
    proof {
        assert(ts@.take(0) =~= Seq::<TolerationSpec>::empty());
        assert(out@ =~= base + enc_toleration_items(ts@.take(0)));
    }
    while i < ts.len()
        invariant
            i <= ts@.len(),
            out@ == base + enc_toleration_items(ts@.take(i as int)),
        decreases ts@.len() - i,
    {
        push_toleration(out, &ts[i]);
        proof {
            lemma_toleration_items_snoc(ts@, i as int);
            assert(out@ =~= base + enc_toleration_items(ts@.take(i as int + 1)));
        }
        i = i + 1;
    }
    proof {
        assert(ts@.take(ts@.len() as int) =~= ts@);
    }
}

fn push_resources(out: &mut String, o: &Option<ResourceRequirementsSpec>)
    ensures
        final(out)@ == old(out)@ + enc_resources(*o),
{
    match o {
        None => out.append("-\n"),
        Some(r) => {
            out.append("+\n");
            push_kv_list(out, &r.limits);
            push_kv_list(out, &r.requests);
            proof {
                assert(out@ =~= old(out)@ + enc_resources(*o));
            }
        },
    }
}

#[verifier::rlimit(60)]
fn push_pod_template(out: &mut String, o: &Option<PodTemplateSpec>)
    ensures
        final(out)@ == old(out)@ + enc_pod_template(*o),
{
    match o {
        None => out.append("-\n"),
        Some(pt) => {
            out.append("+\n");
            push_kv_list(out, &pt.annotations);
            push_kv_list(out, &pt.labels);
            push_kv_list(out, &pt.node_selector);
            push_toleration_list(out, &pt.tolerations);
            push_opt_str(out, &pt.affinity);
            push_resources(out, &pt.resources);
            push_opt_str(out, &pt.image);
            push_opt_str(out, &pt.image_tag);
            push_opt_str(out, &pt.image_pull_policy);
            push_str_list(out, &pt.image_pull_secrets);
            push_opt_str(out, &pt.service_account_name);
            push_opt_str(out, &pt.security_context);
            proof {
                assert(out@ =~= old(out)@ + enc_pod_template(*o));
            }
        },
    }
}

fn push_listen(out: &mut String, l: &ListenSpec)
    ensures
        final(out)@ == old(out)@ + canon_listen(*l),
{
    push_i32(out, l.port);
    push_opt_str(out, &l.advertised_address);
    push_u32(out, l.max_connections);
    push_client_security(out, &l.security);
    proof {
        assert(out@ =~= old(out)@ + canon_listen(*l));
    }
}

fn push_kafka(out: &mut String, k: &KafkaClusterSpec)
    ensures
        final(out)@ == old(out)@ + canon_kafka(*k),
{
    push_str_list(out, &k.bootstrap_servers);
    push_u64(out, k.connection_timeout_ms);
    push_u64(out, k.request_timeout_ms);
    push_u64(out, k.metadata_refresh_interval_secs);
    push_str_field(out, k.security_protocol.as_str());
    push_tls_secret(out, &k.tls_secret);
    push_sasl_secret(out, &k.sasl_secret);
    proof {
        assert(out@ =~= old(out)@ + canon_kafka(*k));
    }
}

fn push_mapping(out: &mut String, m: &MappingSpec)
    ensures
        final(out)@ == old(out)@ + canon_mapping(*m),
{
    push_u32(out, m.virtual_partitions);
    push_u32(out, m.physical_partitions);
    push_u64(out, m.offset_range);
    push_topic_list(out, &m.topics);
    proof {
        assert(out@ =~= old(out)@ + canon_mapping(*m));
    }
}

fn push_metrics(out: &mut String, m: &MetricsSpec)
    ensures
        final(out)@ == old(out)@ + canon_metrics(*m),
{
    push_bool(out, m.enabled);
    push_i32(out, m.port);
    proof {
        assert(out@ =~= old(out)@ + canon_metrics(*m));
    }
}

fn push_logging(out: &mut String, l: &LoggingSpec)
    ensures
        final(out)@ == old(out)@ + canon_logging(*l),
{
    push_str_field(out, l.level.as_str());
    push_bool(out, l.json);
    proof {
        assert(out@ =~= old(out)@ + canon_logging(*l));
    }
}

fn push_service(out: &mut String, s: &ServiceSpec)
    ensures
        final(out)@ == old(out)@ + canon_service(*s),
{
    push_str_field(out, s.type_.as_str());
    push_kv_list(out, &s.annotations);
    push_opt_str(out, &s.load_balancer_ip);
    push_opt_str(out, &s.external_traffic_policy);
    proof {
        assert(out@ =~= old(out)@ + canon_service(*s));
    }
}

/// Renders the canonical text of a spec.
pub fn canonical_text(spec: &KafkaPartitionRemapperSpec) -> (s: String)
    ensures
        s@ == canonical_view(*spec),
{
    let mut out = String::new();
    push_i32(&mut out, spec.replicas);
    push_listen(&mut out, &spec.listen);
    push_kafka(&mut out, &spec.kafka);
    push_mapping(&mut out, &spec.mapping);
    push_metrics(&mut out, &spec.metrics);
    push_logging(&mut out, &spec.logging);
    push_service(&mut out, &spec.service);
    push_pod_template(&mut out, &spec.pod_template);
    push_bool(&mut out, spec.suspend);
    proof {
        assert(out@ =~= canonical_view(*spec));
    }
    out
}

/// The SHA-256 digest of a byte sequence, named: a function of the input
/// bytes alone, identical across processes and machines.
pub uninterp spec fn sha256_of(bytes: Seq<u8>) -> Seq<u8>;

/// Relies on sha2::Sha256: the SHA-256 digest (FIPS 180-4) is computed from
/// the input bytes alone and is 32 bytes long.
#[verifier::external_body]
fn sha256(bytes: &[u8]) -> (r: Vec<u8>)
    ensures
        r@ == sha256_of(bytes@),
        r@.len() == 32,
{
    sha2::Sha256::digest(bytes).to_vec()
}

/// The fingerprint of a spec: the first sixteen lowercase hexadecimal digits
/// of the SHA-256 digest of its canonical text.
pub open spec fn fingerprint_view(s: KafkaPartitionRemapperSpec) -> Seq<char> {
    hex_view(sha256_of(encode_utf8(canonical_view(s))).take(8))
}

/// Computes the configuration fingerprint carried by the pod template's
/// checksum annotation.
pub fn calculate_config_hash(spec: &KafkaPartitionRemapperSpec) -> (h: String)
    ensures
        h@ == fingerprint_view(*spec),
{
    let canonical = canonical_text(spec);
    let digest = sha256(canonical.as_str().as_bytes());
    bytes_to_hex_prefix(&digest, 8)
}

/// Determinism law for the fingerprint: equal specs always fingerprint
/// identically, across repeated calls and process restarts. That different
/// specs fingerprint differently holds with overwhelming probability by the
/// collision resistance of the digest; that half is exercised by tests, not
/// proved.
pub proof fn lemma_fingerprint_deterministic(
    s1: KafkaPartitionRemapperSpec,
    s2: KafkaPartitionRemapperSpec,
)
    requires
        s1 == s2,
    ensures
        fingerprint_view(s1) == fingerprint_view(s2),
{
}

} // verus!
