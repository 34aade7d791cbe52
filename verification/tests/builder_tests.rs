//! Tests for the Config Materializer, the Fingerprint Function and the
//! manifest builders: exact rendered text, determinism and sensitivity of the
//! fingerprint, and the structure of the built Deployment and Service.

use kafka_partition_remapper_operator::config::build_proxy_config;
use kafka_partition_remapper_operator::crd::{
    KafkaClusterSpec, KafkaPartitionRemapper, KafkaPartitionRemapperSpec, ListenSpec, LoggingSpec,
    MappingSpec, MetricsSpec, ObjectMeta, PodTemplateSpec, SaslSecretRef, ServiceSpec,
    TlsSecretRef, TopicMappingOverride,
};
use kafka_partition_remapper_operator::deployment::{build_deployment, VolumeSourceManifest};
use kafka_partition_remapper_operator::fingerprint::calculate_config_hash;
use kafka_partition_remapper_operator::manifest::{build_config_map, build_labels};
use kafka_partition_remapper_operator::service::build_service;

fn base_spec() -> KafkaPartitionRemapperSpec {
    KafkaPartitionRemapperSpec {
        replicas: 2,
        listen: ListenSpec {
            port: 9092,
            advertised_address: None,
            max_connections: 1000,
            security: None,
        },
        kafka: KafkaClusterSpec {
            bootstrap_servers: vec!["kafka:9092".to_string()],
            connection_timeout_ms: 10000,
            request_timeout_ms: 30000,
            metadata_refresh_interval_secs: 30,
            security_protocol: "PLAINTEXT".to_string(),
            tls_secret: None,
            sasl_secret: None,
        },
        mapping: MappingSpec {
            virtual_partitions: 1000,
            physical_partitions: 100,
            offset_range: 1 << 40,
            topics: vec![],
        },
        metrics: MetricsSpec {
            enabled: true,
            port: 9090,
        },
        logging: LoggingSpec {
            level: "info".to_string(),
            json: false,
        },
        service: ServiceSpec {
            type_: "ClusterIP".to_string(),
            annotations: vec![],
            load_balancer_ip: None,
            external_traffic_policy: None,
        },
        pod_template: None,
        suspend: false,
    }
}

fn remapper_named(name: &str, spec: KafkaPartitionRemapperSpec) -> KafkaPartitionRemapper {
    KafkaPartitionRemapper {
        metadata: ObjectMeta {
            name: Some(name.to_string()),
            namespace: Some("default".to_string()),
            uid: Some("uid-1234".to_string()),
            generation: Some(1),
        },
        spec,
        status: None,
    }
}

// ============================================================================
// Config Materializer
// ============================================================================

#[test]
fn config_text_exact_document() {
    let spec = base_spec();
    let text = build_proxy_config(&spec, "proxy.default.svc.cluster.local:9092").unwrap();
    let expected = "listen:\n\
                    \x20 address: 0.0.0.0:9092\n\
                    \x20 advertised_address: proxy.default.svc.cluster.local:9092\n\
                    \x20 max_connections: 1000\n\
                    kafka:\n\
                    \x20 bootstrap_servers:\n\
                    \x20 - kafka:9092\n\
                    \x20 connection_timeout_ms: 10000\n\
                    \x20 request_timeout_ms: 30000\n\
                    \x20 metadata_refresh_interval_secs: 30\n\
                    \x20 security_protocol: PLAINTEXT\n\
                    mapping:\n\
                    \x20 virtual_partitions: 1000\n\
                    \x20 physical_partitions: 100\n\
                    \x20 offset_range: 1099511627776\n\
                    metrics:\n\
                    \x20 enabled: true\n\
                    \x20 address: 0.0.0.0:9090\n\
                    logging:\n\
                    \x20 level: info\n\
                    \x20 json: false\n";
    assert_eq!(text, expected);
}

#[test]
fn config_text_is_deterministic() {
    let spec = base_spec();
    let a = build_proxy_config(&spec, "addr:9092").unwrap();
    let b = build_proxy_config(&spec, "addr:9092").unwrap();
    assert_eq!(a, b);
}

#[test]
fn config_text_topic_overrides_emit_only_set_fields() {
    let mut spec = base_spec();
    spec.mapping.topics = vec![
        TopicMappingOverride {
            topic: "orders".to_string(),
            virtual_partitions: Some(50),
            physical_partitions: None,
            offset_range: None,
        },
        TopicMappingOverride {
            topic: "events".to_string(),
            virtual_partitions: None,
            physical_partitions: Some(5),
            offset_range: Some(2097152),
        },
    ];
    let text = build_proxy_config(&spec, "a:1").unwrap();
    let expected_mapping = "mapping:\n\
                            \x20 virtual_partitions: 1000\n\
                            \x20 physical_partitions: 100\n\
                            \x20 offset_range: 1099511627776\n\
                            \x20 topics:\n\
                            \x20   orders:\n\
                            \x20     virtual_partitions: 50\n\
                            \x20   events:\n\
                            \x20     physical_partitions: 5\n\
                            \x20     offset_range: 2097152\n";
    assert!(
        text.contains(expected_mapping),
        "mapping section wrong in:\n{}",
        text
    );
}

// ============================================================================
// Fingerprint Function
// ============================================================================

#[test]
fn fingerprint_is_sixteen_hex_digits() {
    let h = calculate_config_hash(&base_spec());
    assert_eq!(h.len(), 16);
    assert!(h.chars().all(|c| c.is_ascii_hexdigit()));
}

#[test]
fn fingerprint_is_deterministic() {
    let a = calculate_config_hash(&base_spec());
    let b = calculate_config_hash(&base_spec());
    assert_eq!(a, b);
}

#[test]
fn fingerprint_differs_when_a_late_field_changes() {
    // A spec differing only in its last-encoded field must fingerprint
    // differently: this fails if the digest were the canonical text itself.
    let a = calculate_config_hash(&base_spec());
    let mut changed = base_spec();
    changed.suspend = true;
    let b = calculate_config_hash(&changed);
    assert_ne!(a, b);
}

#[test]
fn fingerprint_differs_when_partitions_change() {
    let a = calculate_config_hash(&base_spec());
    let mut changed = base_spec();
    changed.mapping.virtual_partitions = 2000;
    let b = calculate_config_hash(&changed);
    assert_ne!(a, b);
}

// ============================================================================
// Labels and ConfigMap builder
// ============================================================================

#[test]
fn labels_carry_name_instance_and_manager() {
    let labels = build_labels(&"proxy-a".to_string());
    assert_eq!(
        labels,
        vec![
            (
                "app.kubernetes.io/name".to_string(),
                "kafka-partition-remapper".to_string()
            ),
            (
                "app.kubernetes.io/instance".to_string(),
                "proxy-a".to_string()
            ),
            (
                "app.kubernetes.io/managed-by".to_string(),
                "kafka-partition-remapper-operator".to_string()
            ),
        ]
    );
}

#[test]
fn config_map_named_after_parent_with_suffix() {
    let remapper = remapper_named("proxy-a", base_spec());
    let cm = build_config_map(&remapper).unwrap();
    assert_eq!(cm.name, "proxy-a-config");
    assert_eq!(cm.namespace, "default");
    assert_eq!(cm.data_key, "config.yaml");
    assert!(cm.data_value.contains("advertised_address: proxy-a.default.svc.cluster.local:9092"));
    assert_eq!(cm.owner.kind, "KafkaPartitionRemapper");
    assert_eq!(cm.owner.name, "proxy-a");
    assert_eq!(cm.owner.uid, "uid-1234");
    assert!(cm.owner.controller);
    assert!(cm.owner.block_owner_deletion);
}

#[test]
fn config_map_uses_declared_advertised_address() {
    let mut spec = base_spec();
    spec.listen.advertised_address = Some("kafka.example.com:9092".to_string());
    let remapper = remapper_named("proxy-a", spec);
    let cm = build_config_map(&remapper).unwrap();
    assert!(cm.data_value.contains("advertised_address: kafka.example.com:9092"));
}

// ============================================================================
// Deployment builder
// ============================================================================

#[test]
fn deployment_carries_declared_replicas_and_checksum() {
    let remapper = remapper_named("proxy-a", base_spec());
    let hash = calculate_config_hash(&remapper.spec);
    let d = build_deployment(&remapper, "proxy-a-config", &hash);
    assert_eq!(d.name, "proxy-a");
    assert_eq!(d.replicas, 2);
    assert_eq!(d.selector, d.labels);
    assert_eq!(d.pod_labels, d.labels);
    assert_eq!(
        d.pod_annotations,
        vec![("checksum/config".to_string(), hash)]
    );
    assert_eq!(d.container.name, "proxy");
    assert_eq!(
        d.container.image,
        "ghcr.io/osodevops/kafka-partition-remapper:latest"
    );
    assert_eq!(d.container.image_pull_policy, "IfNotPresent");
    assert_eq!(
        d.container.args,
        vec!["--config".to_string(), "/etc/kafka-proxy/config.yaml".to_string()]
    );
    assert_eq!(d.container.ports.len(), 2);
    assert_eq!(d.container.ports[0].name, "kafka");
    assert_eq!(d.container.ports[0].container_port, 9092);
    assert_eq!(d.container.ports[1].name, "metrics");
    assert_eq!(d.container.ports[1].container_port, 9090);
    assert_eq!(d.container.liveness_probe.port_name, "kafka");
    assert_eq!(d.container.liveness_probe.initial_delay_seconds, 10);
    assert_eq!(d.container.liveness_probe.period_seconds, 10);
    assert_eq!(d.container.liveness_probe.failure_threshold, 3);
    assert_eq!(d.container.readiness_probe.initial_delay_seconds, 5);
    assert_eq!(d.container.readiness_probe.period_seconds, 5);
    assert_eq!(d.container.readiness_probe.failure_threshold, 3);
    assert!(d.container.env.is_empty());
    assert_eq!(d.volumes.len(), 1);
    assert_eq!(d.volumes[0].name, "config");
    assert!(matches!(
        &d.volumes[0].source,
        VolumeSourceManifest::ConfigMap(n) if n == "proxy-a-config"
    ));
}

#[test]
fn deployment_suspend_scales_to_zero() {
    let mut spec = base_spec();
    spec.replicas = 3;
    spec.suspend = true;
    let remapper = remapper_named("proxy-a", spec);
    let d = build_deployment(&remapper, "proxy-a-config", "0123456789abcdef");
    assert_eq!(d.replicas, 0);
}

#[test]
fn deployment_build_is_idempotent() {
    let remapper = remapper_named("proxy-a", base_spec());
    let hash = calculate_config_hash(&remapper.spec);
    let d1 = build_deployment(&remapper, "proxy-a-config", &hash);
    let d2 = build_deployment(&remapper, "proxy-a-config", &hash);
    assert_eq!(d1.labels, d2.labels);
    assert_eq!(d1.pod_annotations, d2.pod_annotations);
    assert_eq!(d1.replicas, d2.replicas);
    assert_eq!(d1.container.image, d2.container.image);
    assert_eq!(d1.owner.uid, d2.owner.uid);
}

#[test]
fn deployment_mounts_tls_and_injects_sasl_env() {
    let mut spec = base_spec();
    spec.kafka.security_protocol = "SASL_SSL".to_string();
    spec.kafka.tls_secret = Some(TlsSecretRef {
        name: "broker-tls".to_string(),
        ca_key: "ca.crt".to_string(),
        cert_key: None,
        key_key: None,
        insecure_skip_verify: false,
    });
    spec.kafka.sasl_secret = Some(SaslSecretRef {
        name: "broker-sasl".to_string(),
        mechanism: "PLAIN".to_string(),
        username_key: "user".to_string(),
        password_key: "pass".to_string(),
    });
    let remapper = remapper_named("proxy-a", spec);
    let d = build_deployment(&remapper, "proxy-a-config", "0123456789abcdef");

    assert_eq!(d.container.env.len(), 2);
    assert_eq!(d.container.env[0].name, "KAFKA_USERNAME");
    assert_eq!(d.container.env[0].secret_name, "broker-sasl");
    assert_eq!(d.container.env[0].secret_key, "user");
    assert_eq!(d.container.env[1].name, "KAFKA_PASSWORD");
    assert_eq!(d.container.env[1].secret_key, "pass");

    assert_eq!(d.volumes.len(), 2);
    assert_eq!(d.volumes[1].name, "kafka-tls");
    assert!(matches!(
        &d.volumes[1].source,
        VolumeSourceManifest::Secret(n) if n == "broker-tls"
    ));
    assert_eq!(d.container.volume_mounts.len(), 2);
    assert_eq!(d.container.volume_mounts[1].name, "kafka-tls");
    assert_eq!(d.container.volume_mounts[1].mount_path, "/etc/kafka-proxy/tls/kafka");
    assert!(d.container.volume_mounts[1].read_only);
}

#[test]
fn deployment_merges_user_pod_annotations_without_dropping_them() {
    let mut spec = base_spec();
    spec.pod_template = Some(PodTemplateSpec {
        annotations: vec![("team".to_string(), "data".to_string())],
        image: Some("example.com/proxy".to_string()),
        image_tag: Some("v2".to_string()),
        image_pull_policy: Some("Always".to_string()),
        node_selector: vec![("disk".to_string(), "ssd".to_string())],
        service_account_name: Some("proxy-sa".to_string()),
        image_pull_secrets: vec!["registry-cred".to_string()],
        ..Default::default()
    });
    let remapper = remapper_named("proxy-a", spec);
    let d = build_deployment(&remapper, "proxy-a-config", "0123456789abcdef");

    assert_eq!(
        d.pod_annotations,
        vec![
            ("checksum/config".to_string(), "0123456789abcdef".to_string()),
            ("team".to_string(), "data".to_string()),
        ]
    );
    assert_eq!(d.container.image, "example.com/proxy:v2");
    assert_eq!(d.container.image_pull_policy, "Always");
    assert_eq!(d.node_selector, vec![("disk".to_string(), "ssd".to_string())]);
    assert_eq!(d.service_account_name, Some("proxy-sa".to_string()));
    assert_eq!(d.image_pull_secrets, vec!["registry-cred".to_string()]);
}

// ============================================================================
// Service builder
// ============================================================================

#[test]
fn service_exposes_both_named_ports_and_selects_by_labels() {
    let remapper = remapper_named("proxy-a", base_spec());
    let s = build_service(&remapper);
    assert_eq!(s.name, "proxy-a");
    assert_eq!(s.type_, "ClusterIP");
    assert_eq!(s.selector, s.labels);
    assert_eq!(s.ports.len(), 2);
    assert_eq!(s.ports[0].name, "kafka");
    assert_eq!(s.ports[0].port, 9092);
    assert_eq!(s.ports[0].target_port_name, "kafka");
    assert_eq!(s.ports[1].name, "metrics");
    assert_eq!(s.ports[1].port, 9090);
    assert_eq!(s.owner.name, "proxy-a");
    assert!(s.annotations.is_empty());
    assert_eq!(s.load_balancer_ip, None);
}

#[test]
fn service_copies_load_balancer_settings_verbatim() {
    let mut spec = base_spec();
    spec.service.type_ = "LoadBalancer".to_string();
    spec.service.annotations = vec![("lb/zone".to_string(), "a".to_string())];
    spec.service.load_balancer_ip = Some("10.0.0.9".to_string());
    spec.service.external_traffic_policy = Some("Local".to_string());
    let remapper = remapper_named("proxy-a", spec);
    let s = build_service(&remapper);
    assert_eq!(s.type_, "LoadBalancer");
    assert_eq!(s.annotations, vec![("lb/zone".to_string(), "a".to_string())]);
    assert_eq!(s.load_balancer_ip, Some("10.0.0.9".to_string()));
    assert_eq!(s.external_traffic_policy, Some("Local".to_string()));
}

#[test]
fn service_build_is_idempotent() {
    let remapper = remapper_named("proxy-a", base_spec());
    let s1 = build_service(&remapper);
    let s2 = build_service(&remapper);
    assert_eq!(s1.labels, s2.labels);
    assert_eq!(s1.ports.len(), s2.ports.len());
    assert_eq!(s1.ports[0].port, s2.ports[0].port);
    assert_eq!(s1.ports[1].port, s2.ports[1].port);
    assert_eq!(s1.owner.uid, s2.owner.uid);
}
