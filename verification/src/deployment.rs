//! The Deployment builder: turns a spec into the desired Deployment manifest
//! for the proxy pods — the single `proxy` container with its probes, ports,
//! config volume, optional TLS volume and SASL environment, and the pod-level
//! overrides, applied only when set.

use vstd::prelude::*;

use crate::crd::{name_view, KafkaPartitionRemapper, KafkaPartitionRemapperSpec, TolerationSpec};
use crate::manifest::{
    build_labels, build_owner_reference, clone_kv_list, clone_str_list, clone_toleration_list,
    kv_view, labels_view, owner_ref_view, str_list_view, OwnerRef, OwnerRefView,
};
use crate::text::clone_opt_string;

verus! {

use vstd::string::StringExecFns;

/// A named container port.
#[derive(Clone, Debug)]
pub struct ContainerPortManifest {
    pub name: String,
    pub container_port: i32,
    pub protocol: String,
}

/// The contents of a container port.
pub struct ContainerPortView {
    pub name: Seq<char>,
    pub container_port: i32,
    pub protocol: Seq<char>,
}

impl View for ContainerPortManifest {
    type V = ContainerPortView;

    open spec fn view(&self) -> ContainerPortView {
        ContainerPortView {
            name: self.name@,
            container_port: self.container_port,
            protocol: self.protocol@,
        }
    }
}

/// A TCP-socket probe against a named port.
#[derive(Clone, Debug)]
pub struct ProbeManifest {
    pub port_name: String,
    pub initial_delay_seconds: i32,
    pub period_seconds: i32,
    pub timeout_seconds: i32,
    pub failure_threshold: i32,
}

/// The contents of a probe.
pub struct ProbeView {
    pub port_name: Seq<char>,
    pub initial_delay_seconds: i32,
    pub period_seconds: i32,
    pub timeout_seconds: i32,
    pub failure_threshold: i32,
}

impl View for ProbeManifest {
    type V = ProbeView;

    open spec fn view(&self) -> ProbeView {
        ProbeView {
            port_name: self.port_name@,
            initial_delay_seconds: self.initial_delay_seconds,
            period_seconds: self.period_seconds,
            timeout_seconds: self.timeout_seconds,
            failure_threshold: self.failure_threshold,
        }
    }
}

/// An environment variable sourced from a secret key.
#[derive(Clone, Debug)]
pub struct EnvVarManifest {
    pub name: String,
    pub secret_name: String,
    pub secret_key: String,
}

/// The contents of an environment variable.
pub struct EnvVarView {
    pub name: Seq<char>,
    pub secret_name: Seq<char>,
    pub secret_key: Seq<char>,
}

impl View for EnvVarManifest {
    type V = EnvVarView;

    open spec fn view(&self) -> EnvVarView {
        EnvVarView {
            name: self.name@,
            secret_name: self.secret_name@,
            secret_key: self.secret_key@,
        }
    }
}

/// A volume mount inside the container.
#[derive(Clone, Debug)]
pub struct VolumeMountManifest {
    pub name: String,
    pub mount_path: String,
    pub read_only: bool,
}

/// The contents of a volume mount.
pub struct VolumeMountView {
    pub name: Seq<char>,
    pub mount_path: Seq<char>,
    pub read_only: bool,
}

impl View for VolumeMountManifest {
    type V = VolumeMountView;

    open spec fn view(&self) -> VolumeMountView {
        VolumeMountView {
            name: self.name@,
            mount_path: self.mount_path@,
            read_only: self.read_only,
        }
    }
}

/// What a pod volume is backed by.
#[derive(Clone, Debug)]
pub enum VolumeSourceManifest {
    /// A ConfigMap, by name.
    ConfigMap(String),
    /// A Secret, by name.
    Secret(String),
}

/// The contents of a volume source.
pub enum VolumeSourceView {
    ConfigMap(Seq<char>),
    Secret(Seq<char>),
}

impl View for VolumeSourceManifest {
    type V = VolumeSourceView;

    open spec fn view(&self) -> VolumeSourceView {
        match self {
            VolumeSourceManifest::ConfigMap(n) => VolumeSourceView::ConfigMap(n@),
            VolumeSourceManifest::Secret(n) => VolumeSourceView::Secret(n@),
        }
    }
}

/// A named pod volume.
#[derive(Clone, Debug)]
pub struct VolumeManifest {
    pub name: String,
    pub source: VolumeSourceManifest,
}

/// The contents of a pod volume.
pub struct VolumeView {
    pub name: Seq<char>,
    pub source: VolumeSourceView,
}

impl View for VolumeManifest {
    type V = VolumeView;

    open spec fn view(&self) -> VolumeView {
        VolumeView { name: self.name@, source: self.source@ }
    }
}

/// Container resource requirements, copied from the spec; an empty side is
/// left unset on the wire.
#[derive(Clone, Debug)]
pub struct ResourcesManifest {
    pub limits: Vec<(String, String)>,
    pub requests: Vec<(String, String)>,
}

/// The contents of resource requirements.
pub struct ResourcesView {
    pub limits: Seq<(Seq<char>, Seq<char>)>,
    pub requests: Seq<(Seq<char>, Seq<char>)>,
}

impl View for ResourcesManifest {
    type V = ResourcesView;

    open spec fn view(&self) -> ResourcesView {
        ResourcesView { limits: kv_view(self.limits@), requests: kv_view(self.requests@) }
    }
}

/// The proxy container: image, arguments, ports, probes, environment,
/// mounts and resources.
#[derive(Clone, Debug)]
pub struct ContainerManifest {
    pub name: String,
    pub image: String,
    pub image_pull_policy: String,
    pub args: Vec<String>,
    pub ports: Vec<ContainerPortManifest>,
    pub env: Vec<EnvVarManifest>,
    pub volume_mounts: Vec<VolumeMountManifest>,
    pub liveness_probe: ProbeManifest,
    pub readiness_probe: ProbeManifest,
    pub resources: Option<ResourcesManifest>,
}

/// The contents of the proxy container.
pub struct ContainerView {
    pub name: Seq<char>,
    pub image: Seq<char>,
    pub image_pull_policy: Seq<char>,
    pub args: Seq<Seq<char>>,
    pub ports: Seq<ContainerPortView>,
    pub env: Seq<EnvVarView>,
    pub volume_mounts: Seq<VolumeMountView>,
    pub liveness_probe: ProbeView,
    pub readiness_probe: ProbeView,
    pub resources: Option<ResourcesView>,
}

impl View for ContainerManifest {
    type V = ContainerView;

    open spec fn view(&self) -> ContainerView {
        ContainerView {
            name: self.name@,
            image: self.image@,
            image_pull_policy: self.image_pull_policy@,
            args: str_list_view(self.args@),
            ports: self.ports@.map_values(|p: ContainerPortManifest| p@),
            env: self.env@.map_values(|e: EnvVarManifest| e@),
            volume_mounts: self.volume_mounts@.map_values(|m: VolumeMountManifest| m@),
            liveness_probe: self.liveness_probe@,
            readiness_probe: self.readiness_probe@,
            resources: match self.resources {
                Some(r) => Some(r@),
                None => None,
            },
        }
    }
}

/// The contents of a toleration.
pub struct TolerationView {
    pub key: Option<Seq<char>>,
    pub operator: Option<Seq<char>>,
    pub value: Option<Seq<char>>,
    pub effect: Option<Seq<char>>,
    pub toleration_seconds: Option<i64>,
}

/// The view of a toleration, field by field.
pub open spec fn toleration_view(t: TolerationSpec) -> TolerationView {
    TolerationView {
        key: crate::manifest::opt_str_view(t.key),
        operator: crate::manifest::opt_str_view(t.operator),
        value: crate::manifest::opt_str_view(t.value),
        effect: crate::manifest::opt_str_view(t.effect),
        toleration_seconds: t.toleration_seconds,
    }
}

/// The desired Deployment: metadata, replica count, selector, pod template
/// and pod-level overrides.
#[derive(Clone, Debug)]
pub struct DeploymentManifest {
    pub name: String,
    pub namespace: String,
    pub labels: Vec<(String, String)>,
    pub owner: OwnerRef,
    pub replicas: i32,
    pub selector: Vec<(String, String)>,
    pub pod_labels: Vec<(String, String)>,
    pub pod_annotations: Vec<(String, String)>,
    pub container: ContainerManifest,
    pub volumes: Vec<VolumeManifest>,
    pub node_selector: Vec<(String, String)>,
    pub tolerations: Vec<TolerationSpec>,
    pub service_account_name: Option<String>,
    pub image_pull_secrets: Vec<String>,
}

/// The contents of a Deployment manifest.
pub struct DeploymentView {
    pub name: Seq<char>,
    pub namespace: Seq<char>,
    pub labels: Seq<(Seq<char>, Seq<char>)>,
    pub owner: OwnerRefView,
    pub replicas: i32,
    pub selector: Seq<(Seq<char>, Seq<char>)>,
    pub pod_labels: Seq<(Seq<char>, Seq<char>)>,
    pub pod_annotations: Seq<(Seq<char>, Seq<char>)>,
    pub container: ContainerView,
    pub volumes: Seq<VolumeView>,
    pub node_selector: Seq<(Seq<char>, Seq<char>)>,
    pub tolerations: Seq<TolerationView>,
    pub service_account_name: Option<Seq<char>>,
    pub image_pull_secrets: Seq<Seq<char>>,
}

impl View for DeploymentManifest {
    type V = DeploymentView;

    open spec fn view(&self) -> DeploymentView {
        DeploymentView {
            name: self.name@,
            namespace: self.namespace@,
            labels: kv_view(self.labels@),
            owner: self.owner@,
            replicas: self.replicas,
            selector: kv_view(self.selector@),
            pod_labels: kv_view(self.pod_labels@),
            pod_annotations: kv_view(self.pod_annotations@),
            container: self.container@,
            volumes: self.volumes@.map_values(|v: VolumeManifest| v@),
            node_selector: kv_view(self.node_selector@),
            tolerations: self.tolerations@.map_values(|t: TolerationSpec| toleration_view(t)),
            service_account_name: crate::manifest::opt_str_view(self.service_account_name),
            image_pull_secrets: str_list_view(self.image_pull_secrets@),
        }
    }
}

/// The desired replica count: zero while suspended (the suspend mechanism is
/// scale-to-zero, never deletion), else the declared count.
pub open spec fn desired_replicas_view(s: KafkaPartitionRemapperSpec) -> i32 {
    if s.suspend {
        0
    } else {
        s.replicas
    }
}

/// The container image: the override or the default repository, joined with
/// the override tag or `latest`.
pub open spec fn image_view(s: KafkaPartitionRemapperSpec) -> Seq<char> {
    (match s.pod_template {
        Some(pt) => match pt.image {
            Some(i) => i@,
            None => "ghcr.io/osodevops/kafka-partition-remapper"@,
        },
        None => "ghcr.io/osodevops/kafka-partition-remapper"@,
    }) + ":"@ + (match s.pod_template {
        Some(pt) => match pt.image_tag {
            Some(t) => t@,
            None => "latest"@,
        },
        None => "latest"@,
    })
}

/// The image pull policy: the override or `IfNotPresent`.
pub open spec fn image_pull_policy_view(s: KafkaPartitionRemapperSpec) -> Seq<char> {
    match s.pod_template {
        Some(pt) => match pt.image_pull_policy {
            Some(p) => p@,
            None => "IfNotPresent"@,
        },
        None => "IfNotPresent"@,
    }
}

/// The pod annotations: the configuration checksum first, then the
/// user-supplied pod annotations, none dropped.
pub open spec fn pod_annotations_view(
    s: KafkaPartitionRemapperSpec,
    config_hash: Seq<char>,
) -> Seq<(Seq<char>, Seq<char>)> {
    seq![("checksum/config"@, config_hash)] + (match s.pod_template {
        Some(pt) => kv_view(pt.annotations@),
        None => Seq::<(Seq<char>, Seq<char>)>::empty(),
    })
}

/// The SASL environment: username and password variables sourced from the
/// referenced secret, present exactly when a SASL secret is referenced.
pub open spec fn env_view(s: KafkaPartitionRemapperSpec) -> Seq<EnvVarView> {
    match s.kafka.sasl_secret {
        Some(ss) => seq![
            EnvVarView { name: "KAFKA_USERNAME"@, secret_name: ss.name@, secret_key: ss.username_key@ },
            EnvVarView { name: "KAFKA_PASSWORD"@, secret_name: ss.name@, secret_key: ss.password_key@ },
        ],
        None => Seq::<EnvVarView>::empty(),
    }
}

/// The container's volume mounts: the configuration mount, and the TLS mount
/// exactly when a TLS secret is referenced, both read-only.
pub open spec fn volume_mounts_view(s: KafkaPartitionRemapperSpec) -> Seq<VolumeMountView> {
    seq![VolumeMountView { name: "config"@, mount_path: "/etc/kafka-proxy"@, read_only: true }] + (
    match s.kafka.tls_secret {
        Some(_) => seq![
            VolumeMountView {
                name: "kafka-tls"@,
                mount_path: "/etc/kafka-proxy/tls/kafka"@,
                read_only: true,
            },
        ],
        None => Seq::<VolumeMountView>::empty(),
    })
}

/// The pod volumes: the ConfigMap volume, and the TLS secret volume exactly
/// when a TLS secret is referenced.
pub open spec fn volumes_view(
    s: KafkaPartitionRemapperSpec,
    config_map_name: Seq<char>,
) -> Seq<VolumeView> {
    seq![VolumeView { name: "config"@, source: VolumeSourceView::ConfigMap(config_map_name) }] + (
    match s.kafka.tls_secret {
        Some(tls) => seq![
            VolumeView { name: "kafka-tls"@, source: VolumeSourceView::Secret(tls.name@) },
        ],
        None => Seq::<VolumeView>::empty(),
    })
}

/// The container ports: the `kafka` listener port and the `metrics` port,
/// both TCP.
pub open spec fn ports_view(s: KafkaPartitionRemapperSpec) -> Seq<ContainerPortView> {
    seq![
        ContainerPortView { name: "kafka"@, container_port: s.listen.port, protocol: "TCP"@ },
        ContainerPortView { name: "metrics"@, container_port: s.metrics.port, protocol: "TCP"@ },
    ]
}

/// The liveness probe: a TCP check of the `kafka` port, first after ten
/// seconds, every ten seconds, failing after three misses.
pub open spec fn liveness_probe_view() -> ProbeView {
    ProbeView {
        port_name: "kafka"@,
        initial_delay_seconds: 10,
        period_seconds: 10,
        timeout_seconds: 5,
        failure_threshold: 3,
    }
}

/// The readiness probe: a TCP check of the `kafka` port, first after five
/// seconds, every five seconds, failing after three misses.
pub open spec fn readiness_probe_view() -> ProbeView {
    ProbeView {
        port_name: "kafka"@,
        initial_delay_seconds: 5,
        period_seconds: 5,
        timeout_seconds: 3,
        failure_threshold: 3,
    }
}

/// The container resources: copied exactly when declared.
pub open spec fn resources_view(s: KafkaPartitionRemapperSpec) -> Option<ResourcesView> {
    match s.pod_template {
        Some(pt) => match pt.resources {
            Some(rr) => Some(
                ResourcesView { limits: kv_view(rr.limits@), requests: kv_view(rr.requests@) },
            ),
            None => None,
        },
        None => None,
    }
}

/// The proxy container, whole.
pub open spec fn container_view(s: KafkaPartitionRemapperSpec) -> ContainerView {
    ContainerView {
        name: "proxy"@,
        image: image_view(s),
        image_pull_policy: image_pull_policy_view(s),
        args: seq!["--config"@, "/etc/kafka-proxy/config.yaml"@],
        ports: ports_view(s),
        env: env_view(s),
        volume_mounts: volume_mounts_view(s),
        liveness_probe: liveness_probe_view(),
        readiness_probe: readiness_probe_view(),
        resources: resources_view(s),
    }
}

/// The pod node selector: copied when declared, else empty (never clearing
/// an unset field).
pub open spec fn node_selector_view(s: KafkaPartitionRemapperSpec) -> Seq<(Seq<char>, Seq<char>)> {
    match s.pod_template {
        Some(pt) => kv_view(pt.node_selector@),
        None => Seq::<(Seq<char>, Seq<char>)>::empty(),
    }
}

/// The pod tolerations: copied when declared, else empty.
pub open spec fn tolerations_view(s: KafkaPartitionRemapperSpec) -> Seq<TolerationView> {
    match s.pod_template {
        Some(pt) => pt.tolerations@.map_values(|t: TolerationSpec| toleration_view(t)),
        None => Seq::<TolerationView>::empty(),
    }
}

/// The pod service account: copied when declared.
pub open spec fn service_account_view(s: KafkaPartitionRemapperSpec) -> Option<Seq<char>> {
    match s.pod_template {
        Some(pt) => crate::manifest::opt_str_view(pt.service_account_name),
        None => None,
    }
}

/// The image pull secrets: copied when declared, else empty.
pub open spec fn image_pull_secrets_view(s: KafkaPartitionRemapperSpec) -> Seq<Seq<char>> {
    match s.pod_template {
        Some(pt) => str_list_view(pt.image_pull_secrets@),
        None => Seq::<Seq<char>>::empty(),
    }
}

/// The desired Deployment for a resource, its ConfigMap name and its
/// configuration fingerprint.
pub open spec fn deployment_view(
    r: KafkaPartitionRemapper,
    config_map_name: Seq<char>,
    config_hash: Seq<char>,
) -> DeploymentView {
    let name = name_view(r.metadata.name);
    DeploymentView {
        name: name,
        namespace: name_view(r.metadata.namespace),
        labels: labels_view(name),
        owner: owner_ref_view(name, name_view(r.metadata.uid)),
        replicas: desired_replicas_view(r.spec),
        selector: labels_view(name),
        pod_labels: labels_view(name),
        pod_annotations: pod_annotations_view(r.spec, config_hash),
        container: container_view(r.spec),
        volumes: volumes_view(r.spec, config_map_name),
        node_selector: node_selector_view(r.spec),
        tolerations: tolerations_view(r.spec),
        service_account_name: service_account_view(r.spec),
        image_pull_secrets: image_pull_secrets_view(r.spec),
    }
}

fn build_pod_annotations(s: &KafkaPartitionRemapperSpec, config_hash: &str) -> (a: Vec<
    (String, String),
>)
    ensures
        kv_view(a@) == pod_annotations_view(*s, config_hash@),
{
    let mut a: Vec<(String, String)> = Vec::new();
    a.push(("checksum/config".to_owned(), config_hash.to_owned()));
    match &s.pod_template {
        Some(pt) => {
            let mut rest = clone_kv_list(&pt.annotations);
            a.append(&mut rest);
        },
        None => {},
    }
    proof {
        assert(kv_view(a@) =~= pod_annotations_view(*s, config_hash@));
    }
    a
}

fn build_container(s: &KafkaPartitionRemapperSpec) -> (c: ContainerManifest)
    ensures
        c@ == container_view(*s),
{
    let image_base: String = match &s.pod_template {
        Some(pt) => match &pt.image {
            Some(i) => i.clone(),
            None => "ghcr.io/osodevops/kafka-partition-remapper".to_owned(),
        },
        None => "ghcr.io/osodevops/kafka-partition-remapper".to_owned(),
    };
    let tag: String = match &s.pod_template {
        Some(pt) => match &pt.image_tag {
            Some(t) => t.clone(),
            None => "latest".to_owned(),
        },
        None => "latest".to_owned(),
    };
    let mut image = image_base;
    image.append(":");
    image.append(tag.as_str());

    let image_pull_policy: String = match &s.pod_template {
        Some(pt) => match &pt.image_pull_policy {
            Some(p) => p.clone(),
            None => "IfNotPresent".to_owned(),
        },
        None => "IfNotPresent".to_owned(),
    };

    let mut args: Vec<String> = Vec::new();
    args.push("--config".to_owned());
    args.push("/etc/kafka-proxy/config.yaml".to_owned());

    let mut ports: Vec<ContainerPortManifest> = Vec::new();
    ports.push(ContainerPortManifest {
        name: "kafka".to_owned(),
        container_port: s.listen.port,
        protocol: "TCP".to_owned(),
    });
    ports.push(ContainerPortManifest {
        name: "metrics".to_owned(),
        container_port: s.metrics.port,
        protocol: "TCP".to_owned(),
    });

    let mut env: Vec<EnvVarManifest> = Vec::new();
    match &s.kafka.sasl_secret {
        Some(ss) => {
            env.push(EnvVarManifest {
                name: "KAFKA_USERNAME".to_owned(),
                secret_name: ss.name.clone(),
                secret_key: ss.username_key.clone(),
            });
            env.push(EnvVarManifest {
                name: "KAFKA_PASSWORD".to_owned(),
                secret_name: ss.name.clone(),
                secret_key: ss.password_key.clone(),
            });
        },
        None => {},
    }

    let mut volume_mounts: Vec<VolumeMountManifest> = Vec::new();
    volume_mounts.push(VolumeMountManifest {
        name: "config".to_owned(),
        mount_path: "/etc/kafka-proxy".to_owned(),
        read_only: true,
    });
    match &s.kafka.tls_secret {
        Some(_) => {
            volume_mounts.push(VolumeMountManifest {
                name: "kafka-tls".to_owned(),
                mount_path: "/etc/kafka-proxy/tls/kafka".to_owned(),
                read_only: true,
            });
        },
        None => {},
    }

    let resources: Option<ResourcesManifest> = match &s.pod_template {
        Some(pt) => match &pt.resources {
            Some(rr) => Some(
                ResourcesManifest {
                    limits: clone_kv_list(&rr.limits),
                    requests: clone_kv_list(&rr.requests),
                },
            ),
            None => None,
        },
        None => None,
    };

    let c = ContainerManifest {
        name: "proxy".to_owned(),
        image,
        image_pull_policy,
        args,
        ports,
        env,
        volume_mounts,
        liveness_probe: ProbeManifest {
            port_name: "kafka".to_owned(),
            initial_delay_seconds: 10,
            period_seconds: 10,
            timeout_seconds: 5,
            failure_threshold: 3,
        },
        readiness_probe: ProbeManifest {
            port_name: "kafka".to_owned(),
            initial_delay_seconds: 5,
            period_seconds: 5,
            timeout_seconds: 3,
            failure_threshold: 3,
        },
        resources,
    };
    proof {
        assert(c@.image =~= image_view(*s));
        assert(c@.args =~= container_view(*s).args);
        assert(c@.ports =~= container_view(*s).ports);
        assert(c@.env =~= container_view(*s).env);
        assert(c@.volume_mounts =~= container_view(*s).volume_mounts);
    }
    c
}

fn build_volumes(s: &KafkaPartitionRemapperSpec, config_map_name: &str) -> (v: Vec<VolumeManifest>)
    ensures
        v@.map_values(|m: VolumeManifest| m@) == volumes_view(*s, config_map_name@),
{
    let mut v: Vec<VolumeManifest> = Vec::new();
    v.push(VolumeManifest {
        name: "config".to_owned(),
        source: VolumeSourceManifest::ConfigMap(config_map_name.to_owned()),
    });
    match &s.kafka.tls_secret {
        Some(tls) => {
            v.push(VolumeManifest {
                name: "kafka-tls".to_owned(),
                source: VolumeSourceManifest::Secret(tls.name.clone()),
            });
        },
        None => {},
    }
    proof {
        assert(v@.map_values(|m: VolumeManifest| m@) =~= volumes_view(*s, config_map_name@));
    }
    v
}

/// Build the desired Deployment for a resource, given the ConfigMap name the
/// pods mount and the configuration fingerprint that rolls them on change.
pub fn build_deployment(
    remapper: &KafkaPartitionRemapper,
    config_map_name: &str,
    config_hash: &str,
) -> (d: DeploymentManifest)
    ensures
        d@ == deployment_view(*remapper, config_map_name@, config_hash@),
{
    let name = remapper.name_any();
    let namespace = remapper.namespace_any();
    let s = &remapper.spec;

    let replicas: i32 = if s.suspend {
        0
    } else {
        s.replicas
    };

    let node_selector: Vec<(String, String)> = match &s.pod_template {
        Some(pt) => clone_kv_list(&pt.node_selector),
        None => Vec::new(),
    };
    let tolerations: Vec<TolerationSpec> = match &s.pod_template {
        Some(pt) => clone_toleration_list(&pt.tolerations),
        None => Vec::new(),
    };
    let service_account_name: Option<String> = match &s.pod_template {
        Some(pt) => clone_opt_string(&pt.service_account_name),
        None => None,
    };
    let image_pull_secrets: Vec<String> = match &s.pod_template {
        Some(pt) => clone_str_list(&pt.image_pull_secrets),
        None => Vec::new(),
    };

    let d = DeploymentManifest {
        name: name.clone(),
        namespace,
        labels: build_labels(&name),
        owner: build_owner_reference(remapper),
        replicas,
        selector: build_labels(&name),
        pod_labels: build_labels(&name),
        pod_annotations: build_pod_annotations(s, config_hash),
        container: build_container(s),
        volumes: build_volumes(s, config_map_name),
        node_selector,
        tolerations,
        service_account_name,
        image_pull_secrets,
    };
    proof {
        assert(d@.node_selector =~= node_selector_view(*s));
        assert(d@.tolerations =~= tolerations_view(*s));
        assert(d@.image_pull_secrets =~= image_pull_secrets_view(*s));
    }
    d
}

/// Idempotency law for the Deployment builder: two builds from the same
/// resource, ConfigMap name and fingerprint yield structurally equal
/// manifests — same labels, same ports, same owner reference, same
/// everything.
pub proof fn lemma_deployment_build_idempotent(
    d1: DeploymentManifest,
    d2: DeploymentManifest,
    r: KafkaPartitionRemapper,
    config_map_name: Seq<char>,
    config_hash: Seq<char>,
)
    requires
        d1@ == deployment_view(r, config_map_name, config_hash),
        d2@ == deployment_view(r, config_map_name, config_hash),
    ensures
        d1@ == d2@,
        d1@.labels == d2@.labels,
        d1@.container.ports == d2@.container.ports,
        d1@.owner == d2@.owner,
{
}

} // verus!
