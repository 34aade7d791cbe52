//! The Status Computer: derives the resource's phase, conditions and
//! computed fields from the latest spec and the latest observations of the
//! child resources. Status is always recomputed whole, never read back and
//! edited.

use vstd::prelude::*;

use crate::crd::{
    Condition, KafkaPartitionRemapper, KafkaPartitionRemapperSpec, KafkaPartitionRemapperStatus,
    MappingSpec,
};
use crate::manifest::opt_str_view;
use crate::text::{dec_view, i32_to_string, int_view, u32_to_string};

verus! {

use vstd::string::StringExecFns;
use vstd::arithmetic::div_mod::{lemma_div_pos_is_pos, lemma_fundamental_div_mod};

/// The contents of a status condition.
pub struct ConditionView {
    pub type_: Seq<char>,
    pub status: Seq<char>,
    pub last_transition_time: Seq<char>,
    pub reason: Option<Seq<char>>,
    pub message: Option<Seq<char>>,
}

impl View for Condition {
    type V = ConditionView;

    open spec fn view(&self) -> ConditionView {
        ConditionView {
            type_: self.type_@,
            status: self.status@,
            last_transition_time: self.last_transition_time@,
            reason: opt_str_view(self.reason),
            message: opt_str_view(self.message),
        }
    }
}

/// The contents of a status.
pub struct StatusView {
    pub phase: Option<Seq<char>>,
    pub message: Option<Seq<char>>,
    pub service_endpoint: Option<Seq<char>>,
    pub metrics_endpoint: Option<Seq<char>>,
    pub ready_replicas: Option<i32>,
    pub replicas: Option<i32>,
    pub config_map_name: Option<Seq<char>>,
    pub deployment_name: Option<Seq<char>>,
    pub service_name: Option<Seq<char>>,
    pub compression_ratio: Option<u32>,
    pub observed_generation: Option<i64>,
    pub last_update_time: Option<Seq<char>>,
    pub conditions: Seq<ConditionView>,
}

impl View for KafkaPartitionRemapperStatus {
    type V = StatusView;

    open spec fn view(&self) -> StatusView {
        StatusView {
            phase: opt_str_view(self.phase),
            message: opt_str_view(self.message),
            service_endpoint: opt_str_view(self.service_endpoint),
            metrics_endpoint: opt_str_view(self.metrics_endpoint),
            ready_replicas: self.ready_replicas,
            replicas: self.replicas,
            config_map_name: opt_str_view(self.config_map_name),
            deployment_name: opt_str_view(self.deployment_name),
            service_name: opt_str_view(self.service_name),
            compression_ratio: self.compression_ratio,
            observed_generation: self.observed_generation,
            last_update_time: opt_str_view(self.last_update_time),
            conditions: self.conditions@.map_values(|c: Condition| c@),
        }
    }
}

/// The phase, in priority order: suspension wins outright; full readiness is
/// Running; partial readiness is Degraded; none is Pending.
pub open spec fn phase_view(suspend: bool, ready: i32, replicas: i32) -> Seq<char> {
    if suspend {
        "Suspended"@
    } else if ready == replicas {
        "Running"@
    } else if ready > 0 {
        "Degraded"@
    } else {
        "Pending"@
    }
}

/// The phase in lowercase, as used in the Ready condition's message.
pub open spec fn phase_lower_view(suspend: bool, ready: i32, replicas: i32) -> Seq<char> {
    if suspend {
        "suspended"@
    } else if ready == replicas {
        "running"@
    } else if ready > 0 {
        "degraded"@
    } else {
        "pending"@
    }
}

/// The compression ratio: virtual partitions over physical partitions.
pub open spec fn compression_ratio_view(m: MappingSpec) -> u32
    recommends
        m.physical_partitions >= 1,
{
    (m.virtual_partitions as nat / m.physical_partitions as nat) as u32
}

/// The ConfigValid condition: always true — validation gated entry.
pub open spec fn config_valid_condition_view(now: Seq<char>) -> ConditionView {
    ConditionView {
        type_: "ConfigValid"@,
        status: "True"@,
        last_transition_time: now,
        reason: Some("ConfigurationValid"@),
        message: Some("Configuration is valid"@),
    }
}

/// The ready-count fraction: `ready/declared replicas ready`.
pub open spec fn replicas_ready_view(ready: i32, declared: i32) -> Seq<char> {
    int_view(ready as int) + "/"@ + int_view(declared as int) + " replicas ready"@
}

/// The DeploymentAvailable condition: true exactly when any replica is ready.
pub open spec fn deployment_available_condition_view(
    ready: i32,
    declared: i32,
    now: Seq<char>,
) -> ConditionView {
    ConditionView {
        type_: "DeploymentAvailable"@,
        status: if ready > 0 {
            "True"@
        } else {
            "False"@
        },
        last_transition_time: now,
        reason: Some(
            if ready > 0 {
                "ReplicasAvailable"@
            } else {
                "NoReplicasAvailable"@
            },
        ),
        message: Some(replicas_ready_view(ready, declared)),
    }
}

/// The Ready condition: true exactly when the phase is Running.
pub open spec fn ready_condition_view(
    suspend: bool,
    ready: i32,
    declared: i32,
    now: Seq<char>,
) -> ConditionView {
    let phase = phase_view(suspend, ready, declared);
    ConditionView {
        type_: "Ready"@,
        status: if phase == "Running"@ {
            "True"@
        } else {
            "False"@
        },
        last_transition_time: now,
        reason: Some(phase),
        message: Some("Proxy is "@ + phase_lower_view(suspend, ready, declared)),
    }
}

/// The metrics endpoint URL: the Service's cluster-internal DNS name at the
/// metrics port.
pub open spec fn metrics_endpoint_view(
    service_name: Seq<char>,
    namespace: Seq<char>,
    port: i32,
) -> Seq<char> {
    "http://"@ + service_name + "."@ + namespace + ".svc.cluster.local:"@ + int_view(port as int)
        + "/metrics"@
}

/// The status message: the ready fraction and the compression ratio.
pub open spec fn status_message_view(ready: i32, declared: i32, ratio: u32) -> Seq<char> {
    replicas_ready_view(ready, declared) + ", compression ratio "@ + dec_view(ratio as nat)
        + ":1"@
}

/// The whole derived status for a resource and the observations of its
/// children.
pub open spec fn status_view(
    r: KafkaPartitionRemapper,
    ready: i32,
    observed_replicas: i32,
    service_endpoint: Option<Seq<char>>,
    namespace: Seq<char>,
    config_map_name: Seq<char>,
    deployment_name: Seq<char>,
    service_name: Seq<char>,
    now: Seq<char>,
) -> StatusView {
    let s = r.spec;
    let ratio = compression_ratio_view(s.mapping);
    StatusView {
        phase: Some(phase_view(s.suspend, ready, s.replicas)),
        message: Some(status_message_view(ready, s.replicas, ratio)),
        service_endpoint: service_endpoint,
        metrics_endpoint: Some(metrics_endpoint_view(service_name, namespace, s.metrics.port)),
        ready_replicas: Some(ready),
        replicas: Some(observed_replicas),
        config_map_name: Some(config_map_name),
        deployment_name: Some(deployment_name),
        service_name: Some(service_name),
        compression_ratio: Some(ratio),
        observed_generation: r.metadata.generation,
        last_update_time: Some(now),
        conditions: seq![
            config_valid_condition_view(now),
            deployment_available_condition_view(ready, s.replicas, now),
            ready_condition_view(s.suspend, ready, s.replicas, now),
        ],
    }
}

fn phase_strings(suspend: bool, ready: i32, declared: i32) -> (r: (String, String))
    ensures
        r.0@ == phase_view(suspend, ready, declared),
        r.1@ == phase_lower_view(suspend, ready, declared),
{
    if suspend {
        ("Suspended".to_owned(), "suspended".to_owned())
    } else if ready == declared {
        ("Running".to_owned(), "running".to_owned())
    } else if ready > 0 {
        ("Degraded".to_owned(), "degraded".to_owned())
    } else {
        ("Pending".to_owned(), "pending".to_owned())
    }
}

fn build_replicas_ready(ready: i32, declared: i32) -> (s: String)
    ensures
        s@ == replicas_ready_view(ready, declared),
{
    let mut s = i32_to_string(ready);
    s.append("/");
    let d = i32_to_string(declared);
    s.append(d.as_str());
    s.append(" replicas ready");
    proof {
        assert(s@ =~= replicas_ready_view(ready, declared));
    }
    s
}

fn build_conditions(suspend: bool, ready: i32, declared: i32, now: &String) -> (c: Vec<Condition>)
    ensures
        c@.map_values(|c: Condition| c@) == seq![
            config_valid_condition_view(now@),
            deployment_available_condition_view(ready, declared, now@),
            ready_condition_view(suspend, ready, declared, now@),
        ],
{
    let mut c: Vec<Condition> = Vec::new();

    c.push(Condition {
        type_: "ConfigValid".to_owned(),
        status: "True".to_owned(),
        last_transition_time: now.clone(),
        reason: Some("ConfigurationValid".to_owned()),
        message: Some("Configuration is valid".to_owned()),
    });

    c.push(Condition {
        type_: "DeploymentAvailable".to_owned(),
        status: if ready > 0 {
            "True".to_owned()
        } else {
            "False".to_owned()
        },
        last_transition_time: now.clone(),
        reason: Some(
            if ready > 0 {
                "ReplicasAvailable".to_owned()
            } else {
                "NoReplicasAvailable".to_owned()
            },
        ),
        message: Some(build_replicas_ready(ready, declared)),
    });

    let (phase, phase_lower) = phase_strings(suspend, ready, declared);
    let running = str_is_running(&phase);
    let mut ready_message = "Proxy is ".to_owned();
    ready_message.append(phase_lower.as_str());
    c.push(Condition {
        type_: "Ready".to_owned(),
        status: if running {
            "True".to_owned()
        } else {
            "False".to_owned()
        },
        last_transition_time: now.clone(),
        reason: Some(phase),
        message: Some(ready_message),
    });

    proof {
        assert(c@.map_values(|c: Condition| c@) =~= seq![
            config_valid_condition_view(now@),
            deployment_available_condition_view(ready, declared, now@),
            ready_condition_view(suspend, ready, declared, now@),
        ]);
    }
    c
}

fn str_is_running(phase: &String) -> (r: bool)
    ensures
        r == (phase@ == "Running"@),
{
    crate::text::str_eq(phase, "Running")
}

/// Compute the whole status from the spec and the latest observations: the
/// deployment's ready and total replica counts, the resolved service
/// endpoint, the child resource names, and the timestamp to stamp the
/// conditions with.
pub fn compute_status(
    remapper: &KafkaPartitionRemapper,
    ready_replicas: i32,
    replicas: i32,
    service_endpoint: Option<String>,
    namespace: &String,
    config_map_name: &String,
    deployment_name: &String,
    service_name: &String,
    now: &String,
) -> (st: KafkaPartitionRemapperStatus)
    requires
        remapper.spec.mapping.physical_partitions >= 1,
    ensures
        st@ == status_view(
            *remapper,
            ready_replicas,
            replicas,
            opt_str_view(service_endpoint),
            namespace@,
            config_map_name@,
            deployment_name@,
            service_name@,
            now@,
        ),
{
    let spec = &remapper.spec;

    let (phase, _) = phase_strings(spec.suspend, ready_replicas, spec.replicas);

    let compression_ratio: u32 = spec.mapping.virtual_partitions / spec.mapping.physical_partitions;

    let mut message = build_replicas_ready(ready_replicas, spec.replicas);
    message.append(", compression ratio ");
    let ratio_s = u32_to_string(compression_ratio);
    message.append(ratio_s.as_str());
    message.append(":1");

    let mut metrics_endpoint = "http://".to_owned();
    metrics_endpoint.append(service_name.as_str());
    metrics_endpoint.append(".");
    metrics_endpoint.append(namespace.as_str());
    metrics_endpoint.append(".svc.cluster.local:");
    let mp = i32_to_string(spec.metrics.port);
    metrics_endpoint.append(mp.as_str());
    metrics_endpoint.append("/metrics");

    let conditions = build_conditions(spec.suspend, ready_replicas, spec.replicas, now);

    let st = KafkaPartitionRemapperStatus {
        phase: Some(phase),
        message: Some(message),
        service_endpoint,
        metrics_endpoint: Some(metrics_endpoint),
        ready_replicas: Some(ready_replicas),
        replicas: Some(replicas),
        config_map_name: Some(config_map_name.clone()),
        deployment_name: Some(deployment_name.clone()),
        service_name: Some(service_name.clone()),
        compression_ratio: Some(compression_ratio),
        observed_generation: remapper.metadata.generation,
        last_update_time: Some(now.clone()),
        conditions,
    };
    proof {
        assert(st.message matches Some(m) && m@ =~= status_message_view(
            ready_replicas,
            spec.replicas,
            compression_ratio_view(spec.mapping),
        ));
        assert(st.metrics_endpoint matches Some(m) && m@ =~= metrics_endpoint_view(
            service_name@,
            namespace@,
            spec.metrics.port,
        ));
    }
    st
}

/// Status law for the phase: suspension forces Suspended whatever the ready
/// count; otherwise a fully ready deployment is Running, a partially ready
/// one is Degraded, and one with no ready replica is Pending — in that
/// priority order.
pub proof fn lemma_phase_derivation(suspend: bool, ready: i32, replicas: i32)
    ensures
        suspend ==> phase_view(suspend, ready, replicas) == "Suspended"@,
        (!suspend && ready == replicas) ==> phase_view(suspend, ready, replicas) == "Running"@,
        (!suspend && 0 < ready < replicas) ==> phase_view(suspend, ready, replicas) == "Degraded"@,
        (!suspend && ready == 0 && replicas != 0) ==> phase_view(suspend, ready, replicas)
            == "Pending"@,
{
}

/// Ratio law: on a spec whose mapping validates, the compression ratio is
/// exact — it times the physical partition count gives back the virtual
/// partition count.
pub proof fn lemma_compression_ratio_exact(s: KafkaPartitionRemapperSpec)
    requires
        crate::validation::physical_ok(s),
        crate::validation::divisible_ok(s),
    ensures
        compression_ratio_view(s.mapping) * s.mapping.physical_partitions
            == s.mapping.virtual_partitions,
{
    let v = s.mapping.virtual_partitions as int;
    let p = s.mapping.physical_partitions as int;
    let q = v / p;
    lemma_fundamental_div_mod(v, p);
    assert(v == p * q);
    lemma_div_pos_is_pos(v, p);
    assert(q <= v) by (nonlinear_arith)
        requires
            v == p * q,
            p >= 1,
            q >= 0,
    ;
    assert(compression_ratio_view(s.mapping) == q);
}

} // verus!
