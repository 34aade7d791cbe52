//! The Service builder and endpoint resolution: the Service exposing the
//! proxy's two named ports, and the pure derivation of the client-facing
//! address from a live Service observation.

use vstd::prelude::*;

use crate::crd::{name_view, KafkaPartitionRemapper, KafkaPartitionRemapperSpec};
use crate::manifest::{
    build_labels, build_owner_reference, clone_kv_list, kv_view, labels_view, opt_str_view,
    owner_ref_view, OwnerRef, OwnerRefView,
};
use crate::text::{clone_opt_string, i32_to_string, int_view, str_eq};

verus! {

use vstd::string::StringExecFns;

/// A named Service port forwarding to a named container port.
#[derive(Clone, Debug)]
pub struct ServicePortManifest {
    pub name: String,
    pub port: i32,
    pub target_port_name: String,
    pub protocol: String,
}

/// The contents of a Service port.
pub struct ServicePortView {
    pub name: Seq<char>,
    pub port: i32,
    pub target_port_name: Seq<char>,
    pub protocol: Seq<char>,
}

impl View for ServicePortManifest {
    type V = ServicePortView;

    open spec fn view(&self) -> ServicePortView {
        ServicePortView {
            name: self.name@,
            port: self.port,
            target_port_name: self.target_port_name@,
            protocol: self.protocol@,
        }
    }
}

/// The desired Service: metadata, type, selector, ports and the optional
/// load-balancer settings, copied verbatim when set.
#[derive(Clone, Debug)]
pub struct ServiceManifest {
    pub name: String,
    pub namespace: String,
    pub labels: Vec<(String, String)>,
    pub annotations: Vec<(String, String)>,
    pub owner: OwnerRef,
    pub type_: String,
    pub selector: Vec<(String, String)>,
    pub ports: Vec<ServicePortManifest>,
    pub load_balancer_ip: Option<String>,
    pub external_traffic_policy: Option<String>,
}

/// The contents of a Service manifest.
pub struct ServiceManifestView {
    pub name: Seq<char>,
    pub namespace: Seq<char>,
    pub labels: Seq<(Seq<char>, Seq<char>)>,
    pub annotations: Seq<(Seq<char>, Seq<char>)>,
    pub owner: OwnerRefView,
    pub type_: Seq<char>,
    pub selector: Seq<(Seq<char>, Seq<char>)>,
    pub ports: Seq<ServicePortView>,
    pub load_balancer_ip: Option<Seq<char>>,
    pub external_traffic_policy: Option<Seq<char>>,
}

impl View for ServiceManifest {
    type V = ServiceManifestView;

    open spec fn view(&self) -> ServiceManifestView {
        ServiceManifestView {
            name: self.name@,
            namespace: self.namespace@,
            labels: kv_view(self.labels@),
            annotations: kv_view(self.annotations@),
            owner: self.owner@,
            type_: self.type_@,
            selector: kv_view(self.selector@),
            ports: self.ports@.map_values(|p: ServicePortManifest| p@),
            load_balancer_ip: opt_str_view(self.load_balancer_ip),
            external_traffic_policy: opt_str_view(self.external_traffic_policy),
        }
    }
}

/// The Service's two ports: `kafka` at the listener port and `metrics` at
/// the metrics port, each targeting the container port of the same name.
pub open spec fn service_ports_view(s: KafkaPartitionRemapperSpec) -> Seq<ServicePortView> {
    seq![
        ServicePortView {
            name: "kafka"@,
            port: s.listen.port,
            target_port_name: "kafka"@,
            protocol: "TCP"@,
        },
        ServicePortView {
            name: "metrics"@,
            port: s.metrics.port,
            target_port_name: "metrics"@,
            protocol: "TCP"@,
        },
    ]
}

/// The desired Service for a resource: selecting pods by the common label
/// set, with the declared type, annotations and load-balancer settings.
pub open spec fn service_view(r: KafkaPartitionRemapper) -> ServiceManifestView {
    let name = name_view(r.metadata.name);
    ServiceManifestView {
        name: name,
        namespace: name_view(r.metadata.namespace),
        labels: labels_view(name),
        annotations: kv_view(r.spec.service.annotations@),
        owner: owner_ref_view(name, name_view(r.metadata.uid)),
        type_: r.spec.service.type_@,
        selector: labels_view(name),
        ports: service_ports_view(r.spec),
        load_balancer_ip: opt_str_view(r.spec.service.load_balancer_ip),
        external_traffic_policy: opt_str_view(r.spec.service.external_traffic_policy),
    }
}

/// Build the desired Service for a resource.
pub fn build_service(remapper: &KafkaPartitionRemapper) -> (m: ServiceManifest)
    ensures
        m@ == service_view(*remapper),
{
    let name = remapper.name_any();
    let namespace = remapper.namespace_any();
    let s = &remapper.spec;

    let mut ports: Vec<ServicePortManifest> = Vec::new();
    ports.push(ServicePortManifest {
        name: "kafka".to_owned(),
        port: s.listen.port,
        target_port_name: "kafka".to_owned(),
        protocol: "TCP".to_owned(),
    });
    ports.push(ServicePortManifest {
        name: "metrics".to_owned(),
        port: s.metrics.port,
        target_port_name: "metrics".to_owned(),
        protocol: "TCP".to_owned(),
    });

    let m = ServiceManifest {
        name: name.clone(),
        namespace,
        labels: build_labels(&name),
        annotations: clone_kv_list(&s.service.annotations),
        owner: build_owner_reference(remapper),
        type_: s.service.type_.clone(),
        selector: build_labels(&name),
        ports,
        load_balancer_ip: clone_opt_string(&s.service.load_balancer_ip),
        external_traffic_policy: clone_opt_string(&s.service.external_traffic_policy),
    };
    proof {
        assert(m@.ports =~= service_ports_view(*s));
    }
    m
}

/// Idempotency law for the Service builder: two builds from the same
/// resource yield structurally equal manifests — same labels, same ports,
/// same owner reference.
pub proof fn lemma_service_build_idempotent(
    m1: ServiceManifest,
    m2: ServiceManifest,
    r: KafkaPartitionRemapper,
)
    requires
        m1@ == service_view(r),
        m2@ == service_view(r),
    ensures
        m1@ == m2@,
        m1@.labels == m2@.labels,
        m1@.ports == m2@.ports,
        m1@.owner == m2@.owner,
{
}

/// One ingress point of a load balancer, as observed on a live Service.
#[derive(Clone, Debug)]
pub struct LoadBalancerIngressObservation {
    pub ip: Option<String>,
    pub hostname: Option<String>,
}

/// What the operator reads off a live Service: its identity, its type, and
/// the load-balancer ingress points provisioned so far.
#[derive(Clone, Debug)]
pub struct ServiceObservation {
    pub name: Option<String>,
    pub namespace: Option<String>,
    pub type_: Option<String>,
    pub load_balancer_ingress: Vec<LoadBalancerIngressObservation>,
}

/// The cluster-internal DNS endpoint of a Service: name, namespace and the
/// listener port.
pub open spec fn cluster_dns_view(name: Seq<char>, namespace: Seq<char>, port: i32) -> Seq<char> {
    name + "."@ + namespace + ".svc.cluster.local:"@ + int_view(port as int)
}

/// The endpoint a client should connect to. For a LoadBalancer Service the
/// first ingress point's IP is preferred, then its hostname, then the
/// cluster-internal DNS name while the load balancer is not yet provisioned
/// — never empty. For every other type the cluster-internal DNS name is
/// reported: the operator never reports node addresses it cannot verify.
pub open spec fn endpoint_view(
    service: ServiceObservation,
    s: KafkaPartitionRemapperSpec,
) -> Option<Seq<char>> {
    if service.name is None || service.namespace is None {
        None
    } else {
        let name = name_view(service.name);
        let ns = name_view(service.namespace);
        let port = s.listen.port;
        let type_known = match service.type_ {
            Some(t) => t@,
            None => "ClusterIP"@,
        };
        if type_known == "LoadBalancer"@ && service.load_balancer_ingress@.len() > 0 {
            let first = service.load_balancer_ingress@[0];
            match first.ip {
                Some(ip) => Some(ip@ + ":"@ + int_view(port as int)),
                None => match first.hostname {
                    Some(h) => Some(h@ + ":"@ + int_view(port as int)),
                    None => Some(cluster_dns_view(name, ns, port)),
                },
            }
        } else {
            Some(cluster_dns_view(name, ns, port))
        }
    }
}

fn host_with_port(host: &String, port: i32) -> (r: String)
    ensures
        r@ == host@ + ":"@ + int_view(port as int),
{
    let mut r = host.clone();
    r.append(":");
    let p = i32_to_string(port);
    r.append(p.as_str());
    proof {
        assert(r@ =~= host@ + ":"@ + int_view(port as int));
    }
    r
}

fn cluster_dns(name: &String, namespace: &String, port: i32) -> (r: String)
    ensures
        r@ == cluster_dns_view(name@, namespace@, port),
{
    let mut r = name.clone();
    r.append(".");
    r.append(namespace.as_str());
    r.append(".svc.cluster.local:");
    let p = i32_to_string(port);
    r.append(p.as_str());
    proof {
        assert(r@ =~= cluster_dns_view(name@, namespace@, port));
    }
    r
}

/// Resolve the client-facing endpoint from a live Service observation.
pub fn get_service_endpoint(
    service: &ServiceObservation,
    spec: &KafkaPartitionRemapperSpec,
) -> (r: Option<String>)
    ensures
        opt_str_view(r) == endpoint_view(*service, *spec),
{
    let name = match &service.name {
        Some(n) => n,
        None => {
            return None;
        },
    };
    let namespace = match &service.namespace {
        Some(n) => n,
        None => {
            return None;
        },
    };
    let port = spec.listen.port;

    let is_load_balancer = match &service.type_ {
        Some(t) => str_eq(t, "LoadBalancer"),
        None => false,
    };
    proof {
        reveal_strlit("ClusterIP");
        reveal_strlit("LoadBalancer");
        assert("ClusterIP"@.len() == 9);
        assert("LoadBalancer"@.len() == 12);
        assert("ClusterIP"@ != "LoadBalancer"@);
    }

    if is_load_balancer && service.load_balancer_ingress.len() > 0 {
        let first = &service.load_balancer_ingress[0];
        match &first.ip {
            Some(ip) => Some(host_with_port(ip, port)),
            None => match &first.hostname {
                Some(h) => Some(host_with_port(h, port)),
                None => Some(cluster_dns(name, namespace, port)),
            },
        }
    } else {
        Some(cluster_dns(name, namespace, port))
    }
}

} // verus!
