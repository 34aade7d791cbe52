//! Tests for the Status Computer, endpoint resolution, the reconcile state
//! machine, the error policy, secret reading, and the defaults.

use kafka_partition_remapper_operator::crd::{
    default_ca_key, default_connection_timeout_ms, default_listen_port, default_log_level,
    default_max_connections, default_metadata_refresh_interval_secs, default_metrics_port,
    default_offset_range, default_password_key, default_replicas, default_request_timeout_ms,
    default_sasl_mechanisms, default_security_protocol, default_service_type, default_tls_cert_key,
    default_tls_key_key, default_true, default_username_key, KafkaClusterSpec,
    KafkaPartitionRemapper, KafkaPartitionRemapperSpec, ListenSpec, LoggingSpec, MappingSpec,
    MetricsSpec, ObjectMeta, ServiceSpec,
};
use kafka_partition_remapper_operator::error::Error;
use kafka_partition_remapper_operator::reconcile::{
    error_policy, finalizer_name, reconcile, ReconcileAction, ReconcileEvent,
};
use kafka_partition_remapper_operator::secrets::{get_secret_key, SecretObservation};
use kafka_partition_remapper_operator::service::{
    get_service_endpoint, LoadBalancerIngressObservation, ServiceObservation,
};
use kafka_partition_remapper_operator::status::compute_status;
use kafka_partition_remapper_operator::text::{i32_to_string, i64_to_string, u64_to_string};

fn base_spec() -> KafkaPartitionRemapperSpec {
    KafkaPartitionRemapperSpec {
        replicas: 2,
        listen: ListenSpec {
            port: 9092,
            advertised_address: None,
            max_connections: 1000,
            security: None,
        },
        kafka: KafkaClusterSpec {
            bootstrap_servers: vec!["kafka:9092".to_string()],
            connection_timeout_ms: 10000,
            request_timeout_ms: 30000,
            metadata_refresh_interval_secs: 30,
            security_protocol: "PLAINTEXT".to_string(),
            tls_secret: None,
            sasl_secret: None,
        },
        mapping: MappingSpec {
            virtual_partitions: 1000,
            physical_partitions: 100,
            offset_range: 1 << 40,
            topics: vec![],
        },
        metrics: MetricsSpec {
            enabled: true,
            port: 9090,
        },
        logging: LoggingSpec {
            level: "info".to_string(),
            json: false,
        },
        service: ServiceSpec {
            type_: "ClusterIP".to_string(),
            annotations: vec![],
            load_balancer_ip: None,
            external_traffic_policy: None,
        },
        pod_template: None,
        suspend: false,
    }
}

fn remapper_named(name: &str, spec: KafkaPartitionRemapperSpec) -> KafkaPartitionRemapper {
    KafkaPartitionRemapper {
        metadata: ObjectMeta {
            name: Some(name.to_string()),
            namespace: Some("default".to_string()),
            uid: Some("uid-1234".to_string()),
            generation: Some(7),
        },
        spec,
        status: None,
    }
}

fn status_of(
    remapper: &KafkaPartitionRemapper,
    ready: i32,
    replicas: i32,
) -> kafka_partition_remapper_operator::crd::KafkaPartitionRemapperStatus {
    compute_status(
        remapper,
        ready,
        replicas,
        Some("proxy-a.default.svc.cluster.local:9092".to_string()),
        &"default".to_string(),
        &"proxy-a-config".to_string(),
        &"proxy-a".to_string(),
        &"proxy-a".to_string(),
        &"2024-01-01T00:00:00Z".to_string(),
    )
}

// ============================================================================
// Status Computer
// ============================================================================

#[test]
fn status_running_when_all_replicas_ready() {
    let remapper = remapper_named("proxy-a", base_spec());
    let st = status_of(&remapper, 2, 2);
    assert_eq!(st.phase, Some("Running".to_string()));
    assert_eq!(st.ready_replicas, Some(2));
    assert_eq!(st.replicas, Some(2));
    assert_eq!(st.compression_ratio, Some(10));
    assert_eq!(st.observed_generation, Some(7));
    assert_eq!(
        st.message,
        Some("2/2 replicas ready, compression ratio 10:1".to_string())
    );
    assert_eq!(
        st.metrics_endpoint,
        Some("http://proxy-a.default.svc.cluster.local:9090/metrics".to_string())
    );
}

#[test]
fn status_degraded_when_partially_ready() {
    let remapper = remapper_named("proxy-a", base_spec());
    let st = status_of(&remapper, 1, 2);
    assert_eq!(st.phase, Some("Degraded".to_string()));
}

#[test]
fn status_pending_when_none_ready() {
    let remapper = remapper_named("proxy-a", base_spec());
    let st = status_of(&remapper, 0, 2);
    assert_eq!(st.phase, Some("Pending".to_string()));
}

#[test]
fn status_suspended_overrides_ready_count() {
    let mut spec = base_spec();
    spec.suspend = true;
    spec.replicas = 3;
    let remapper = remapper_named("proxy-a", spec);
    let st = status_of(&remapper, 3, 3);
    assert_eq!(st.phase, Some("Suspended".to_string()));
}

#[test]
fn status_emits_exactly_three_conditions() {
    let remapper = remapper_named("proxy-a", base_spec());
    let st = status_of(&remapper, 2, 2);
    assert_eq!(st.conditions.len(), 3);

    assert_eq!(st.conditions[0].type_, "ConfigValid");
    assert_eq!(st.conditions[0].status, "True");
    assert_eq!(st.conditions[0].reason, Some("ConfigurationValid".to_string()));
    assert_eq!(st.conditions[0].message, Some("Configuration is valid".to_string()));
    assert_eq!(st.conditions[0].last_transition_time, "2024-01-01T00:00:00Z");

    assert_eq!(st.conditions[1].type_, "DeploymentAvailable");
    assert_eq!(st.conditions[1].status, "True");
    assert_eq!(st.conditions[1].reason, Some("ReplicasAvailable".to_string()));
    assert_eq!(st.conditions[1].message, Some("2/2 replicas ready".to_string()));

    assert_eq!(st.conditions[2].type_, "Ready");
    assert_eq!(st.conditions[2].status, "True");
    assert_eq!(st.conditions[2].reason, Some("Running".to_string()));
    assert_eq!(st.conditions[2].message, Some("Proxy is running".to_string()));
}

#[test]
fn status_conditions_reflect_unready_deployment() {
    let remapper = remapper_named("proxy-a", base_spec());
    let st = status_of(&remapper, 0, 2);
    assert_eq!(st.conditions[1].status, "False");
    assert_eq!(st.conditions[1].reason, Some("NoReplicasAvailable".to_string()));
    assert_eq!(st.conditions[1].message, Some("0/2 replicas ready".to_string()));
    assert_eq!(st.conditions[2].status, "False");
    assert_eq!(st.conditions[2].message, Some("Proxy is pending".to_string()));
}

// ============================================================================
// Endpoint resolution
// ============================================================================

fn observed_service(type_: &str, ingress: Vec<LoadBalancerIngressObservation>) -> ServiceObservation {
    ServiceObservation {
        name: Some("proxy-a".to_string()),
        namespace: Some("default".to_string()),
        type_: Some(type_.to_string()),
        load_balancer_ingress: ingress,
    }
}

#[test]
fn endpoint_load_balancer_without_ingress_falls_back_to_cluster_dns() {
    let svc = observed_service("LoadBalancer", vec![]);
    let ep = get_service_endpoint(&svc, &base_spec());
    assert_eq!(
        ep,
        Some("proxy-a.default.svc.cluster.local:9092".to_string())
    );
}

#[test]
fn endpoint_load_balancer_prefers_ingress_ip() {
    let svc = observed_service(
        "LoadBalancer",
        vec![LoadBalancerIngressObservation {
            ip: Some("203.0.113.7".to_string()),
            hostname: Some("lb.example.com".to_string()),
        }],
    );
    let ep = get_service_endpoint(&svc, &base_spec());
    assert_eq!(ep, Some("203.0.113.7:9092".to_string()));
}

#[test]
fn endpoint_load_balancer_uses_hostname_when_no_ip() {
    let svc = observed_service(
        "LoadBalancer",
        vec![LoadBalancerIngressObservation {
            ip: None,
            hostname: Some("lb.example.com".to_string()),
        }],
    );
    let ep = get_service_endpoint(&svc, &base_spec());
    assert_eq!(ep, Some("lb.example.com:9092".to_string()));
}

#[test]
fn endpoint_node_port_and_cluster_ip_use_cluster_dns() {
    for t in ["NodePort", "ClusterIP"] {
        let svc = observed_service(t, vec![]);
        let ep = get_service_endpoint(&svc, &base_spec());
        assert_eq!(
            ep,
            Some("proxy-a.default.svc.cluster.local:9092".to_string()),
            "type {}",
            t
        );
    }
}

#[test]
fn endpoint_unnamed_service_resolves_to_nothing() {
    let svc = ServiceObservation {
        name: None,
        namespace: Some("default".to_string()),
        type_: Some("ClusterIP".to_string()),
        load_balancer_ingress: vec![],
    };
    assert_eq!(get_service_endpoint(&svc, &base_spec()), None);
}

// ============================================================================
// Reconcile state machine and error policy
// ============================================================================

#[test]
fn apply_on_valid_spec_plans_all_three_children() {
    let remapper = remapper_named("proxy-a", base_spec());
    let decision = reconcile(&remapper, ReconcileEvent::Apply).unwrap();
    let plan = decision.plan.expect("apply must yield a plan");
    assert_eq!(plan.config_map_name, "proxy-a-config");
    assert_eq!(plan.deployment_name, "proxy-a");
    assert_eq!(plan.service_name, "proxy-a");
    assert_eq!(plan.config_hash.len(), 16);
    assert_eq!(plan.config_map.name, "proxy-a-config");
    assert_eq!(plan.deployment.name, "proxy-a");
    assert_eq!(plan.deployment.replicas, 2);
    assert_eq!(plan.service.name, "proxy-a");
    assert_eq!(plan.requeue_secs, 30);
    assert_eq!(decision.action, ReconcileAction::RequeueAfterSecs(30));
}

#[test]
fn scenario_plaintext_spec_applies_end_to_end() {
    // physical 100, virtual 1000, replicas 2, PLAINTEXT: validation passes,
    // the Deployment asks for 2 replicas, and the status reports ratio 10.
    let remapper = remapper_named("proxy-a", base_spec());
    let decision = reconcile(&remapper, ReconcileEvent::Apply).unwrap();
    let plan = decision.plan.unwrap();
    assert_eq!(plan.deployment.replicas, 2);
    let st = compute_status(
        &remapper,
        2,
        2,
        None,
        &"default".to_string(),
        &plan.config_map_name,
        &plan.deployment_name,
        &plan.service_name,
        &"2024-01-01T00:00:00Z".to_string(),
    );
    assert_eq!(st.compression_ratio, Some(10));
    assert_eq!(st.phase, Some("Running".to_string()));
}

#[test]
fn apply_on_invalid_spec_fails_without_a_plan() {
    let mut spec = base_spec();
    spec.mapping.virtual_partitions = 1001;
    let remapper = remapper_named("proxy-a", spec);
    let err = reconcile(&remapper, ReconcileEvent::Apply).unwrap_err();
    assert!(err.message().contains("divisible"));
}

#[test]
fn suspended_spec_plans_zero_replicas() {
    let mut spec = base_spec();
    spec.suspend = true;
    spec.replicas = 3;
    let remapper = remapper_named("proxy-a", spec);
    let decision = reconcile(&remapper, ReconcileEvent::Apply).unwrap();
    assert_eq!(decision.plan.unwrap().deployment.replicas, 0);
}

#[test]
fn cleanup_awaits_change_and_plans_nothing() {
    let remapper = remapper_named("proxy-a", base_spec());
    let decision = reconcile(&remapper, ReconcileEvent::Cleanup).unwrap();
    assert!(decision.plan.is_none());
    assert_eq!(decision.action, ReconcileAction::AwaitChange);
}

#[test]
fn error_policy_applies_tiered_backoff() {
    assert_eq!(
        error_policy(&Error::KubeError("boom".to_string())),
        ReconcileAction::RequeueAfterSecs(30)
    );
    assert_eq!(
        error_policy(&Error::ConfigError("boom".to_string())),
        ReconcileAction::RequeueAfterSecs(300)
    );
    assert_eq!(
        error_policy(&Error::ValidationError("boom".to_string())),
        ReconcileAction::RequeueAfterSecs(300)
    );
    assert_eq!(
        error_policy(&Error::SecretError("boom".to_string())),
        ReconcileAction::RequeueAfterSecs(60)
    );
    assert_eq!(
        error_policy(&Error::FinalizerError("boom".to_string())),
        ReconcileAction::RequeueAfterSecs(60)
    );
}

#[test]
fn finalizer_marker_is_fixed() {
    assert_eq!(finalizer_name(), "kafka.oso.sh/remapper-finalizer");
}

#[test]
fn error_messages_name_their_category() {
    assert_eq!(
        Error::KubeError("x".to_string()).message(),
        "Kubernetes API error: x"
    );
    assert_eq!(
        Error::ConfigError("x".to_string()).message(),
        "Configuration error: x"
    );
    assert_eq!(
        Error::ValidationError("x".to_string()).message(),
        "Validation error: x"
    );
    assert_eq!(
        Error::SecretError("x".to_string()).message(),
        "Secret error: x"
    );
    assert_eq!(
        Error::FinalizerError("x".to_string()).message(),
        "Finalizer error: x"
    );
}

// ============================================================================
// Secrets
// ============================================================================

#[test]
fn secret_key_found_and_decoded() {
    let secret = SecretObservation {
        data: Some(vec![
            ("username".to_string(), b"alice".to_vec()),
            ("password".to_string(), b"s3cret".to_vec()),
        ]),
    };
    assert_eq!(get_secret_key(&secret, "password").unwrap(), "s3cret");
}

#[test]
fn secret_without_data_fails() {
    let secret = SecretObservation { data: None };
    let err = get_secret_key(&secret, "password").unwrap_err();
    assert_eq!(err.message(), "Secret error: Secret has no data");
}

#[test]
fn secret_missing_key_fails_naming_the_key() {
    let secret = SecretObservation {
        data: Some(vec![("username".to_string(), b"alice".to_vec())]),
    };
    let err = get_secret_key(&secret, "password").unwrap_err();
    assert_eq!(
        err.message(),
        "Secret error: Key 'password' not found in secret"
    );
}

#[test]
fn secret_with_invalid_utf8_fails() {
    let secret = SecretObservation {
        data: Some(vec![("cert".to_string(), vec![0xff, 0xfe, 0x00])]),
    };
    let err = get_secret_key(&secret, "cert").unwrap_err();
    assert_eq!(
        err.message(),
        "Secret error: Invalid UTF-8 in secret key 'cert'"
    );
}

// ============================================================================
// Defaults and text rendering
// ============================================================================

#[test]
fn defaults_match_the_declared_values() {
    assert_eq!(default_replicas(), 1);
    assert_eq!(default_listen_port(), 9092);
    assert_eq!(default_max_connections(), 1000);
    assert_eq!(default_security_protocol(), "PLAINTEXT");
    assert_eq!(default_tls_cert_key(), "tls.crt");
    assert_eq!(default_tls_key_key(), "tls.key");
    assert_eq!(default_ca_key(), "ca.crt");
    assert_eq!(default_sasl_mechanisms(), vec!["PLAIN".to_string()]);
    assert_eq!(default_connection_timeout_ms(), 10000);
    assert_eq!(default_request_timeout_ms(), 30000);
    assert_eq!(default_metadata_refresh_interval_secs(), 30);
    assert_eq!(default_username_key(), "username");
    assert_eq!(default_password_key(), "password");
    assert_eq!(default_offset_range(), 1u64 << 40);
    assert!(default_true());
    assert_eq!(default_metrics_port(), 9090);
    assert_eq!(default_log_level(), "info");
    assert_eq!(default_service_type(), "ClusterIP");
}

#[test]
fn numbers_render_in_decimal() {
    assert_eq!(u64_to_string(0), "0");
    assert_eq!(u64_to_string(30000), "30000");
    assert_eq!(u64_to_string(1099511627776), "1099511627776");
    assert_eq!(u64_to_string(u64::MAX), "18446744073709551615");
    assert_eq!(i32_to_string(-1), "-1");
    assert_eq!(i32_to_string(i32::MIN), "-2147483648");
    assert_eq!(i64_to_string(i64::MIN), "-9223372036854775808");
    assert_eq!(i64_to_string(9092), "9092");
}
