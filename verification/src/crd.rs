//! The KafkaPartitionRemapper resource model: the user-declared spec, the
//! operator-owned status, and the default values for optional fields.
//!
//! Collections that the wire format carries as maps are held as ordered lists
//! of key/value pairs; timestamps are held as text; free-form structured
//! fields (affinity, security context) are held verbatim as document text.

use vstd::prelude::*;

verus! {

/// The object metadata the reconciliation logic reads: name, namespace,
/// unique id and generation of the parent resource.
#[derive(Clone, Debug)]
pub struct ObjectMeta {
    pub name: Option<String>,
    pub namespace: Option<String>,
    pub uid: Option<String>,
    pub generation: Option<i64>,
}

/// A KafkaPartitionRemapper resource: metadata, declared spec, observed status.
#[derive(Clone, Debug)]
pub struct KafkaPartitionRemapper {
    pub metadata: ObjectMeta,
    pub spec: KafkaPartitionRemapperSpec,
    pub status: Option<KafkaPartitionRemapperStatus>,
}

/// KafkaPartitionRemapper resource specification.
#[derive(Clone, Debug)]
pub struct KafkaPartitionRemapperSpec {
    /// Number of proxy replicas for high availability.
    pub replicas: i32,
    /// TCP listener configuration for client connections.
    pub listen: ListenSpec,
    /// Kafka cluster connection configuration.
    pub kafka: KafkaClusterSpec,
    /// Partition remapping configuration.
    pub mapping: MappingSpec,
    /// Metrics endpoint configuration.
    pub metrics: MetricsSpec,
    /// Logging configuration.
    pub logging: LoggingSpec,
    /// Kubernetes Service configuration.
    pub service: ServiceSpec,
    /// Pod template customizations.
    pub pod_template: Option<PodTemplateSpec>,
    /// Suspend the proxy (scale to zero).
    pub suspend: bool,
}

/// TCP listener configuration for client connections.
#[derive(Clone, Debug)]
pub struct ListenSpec {
    /// Port to listen on (container port).
    pub port: i32,
    /// Advertised address for client reconnections; when unset, the Service
    /// endpoint is advertised.
    pub advertised_address: Option<String>,
    /// Maximum concurrent client connections.
    pub max_connections: u32,
    /// Client-facing security configuration.
    pub security: Option<ClientSecuritySpec>,
}

/// Client-facing security configuration.
#[derive(Clone, Debug)]
pub struct ClientSecuritySpec {
    /// Security protocol (PLAINTEXT, SSL, SASL_PLAINTEXT, SASL_SSL).
    pub protocol: String,
    /// TLS configuration for client connections (server-side TLS).
    pub tls: Option<ClientTlsSpec>,
    /// SASL authentication for clients.
    pub sasl: Option<ClientSaslSpec>,
}

/// TLS configuration for client-facing connections.
#[derive(Clone, Debug)]
pub struct ClientTlsSpec {
    /// Secret containing the server certificate and key.
    pub certificate_secret: TlsCertificateSecretRef,
    /// Secret containing the CA certificate for client verification (mTLS).
    pub client_ca_secret: Option<SecretRef>,
    /// Require client certificates (mTLS mode).
    pub require_client_cert: bool,
}

/// Reference to a TLS certificate secret.
#[derive(Clone, Debug)]
pub struct TlsCertificateSecretRef {
    /// Secret name.
    pub name: String,
    /// Key for the certificate.
    pub cert_key: String,
    /// Key for the private key.
    pub key_key: String,
}

/// Simple secret reference.
#[derive(Clone, Debug)]
pub struct SecretRef {
    /// Secret name.
    pub name: String,
    /// Key in the secret.
    pub key: String,
}

/// SASL authentication configuration for clients.
#[derive(Clone, Debug)]
pub struct ClientSaslSpec {
    /// Enabled SASL mechanisms.
    pub enabled_mechanisms: Vec<String>,
    /// Credentials secret reference (username/password pairs).
    pub credentials_secret: CredentialsSecretRef,
}

/// Credentials secret reference: each key a username, each value a password.
#[derive(Clone, Debug)]
pub struct CredentialsSecretRef {
    /// Secret name containing user credentials.
    pub name: String,
}

/// Kafka cluster connection configuration.
#[derive(Clone, Debug)]
pub struct KafkaClusterSpec {
    /// Bootstrap servers.
    pub bootstrap_servers: Vec<String>,
    /// Connection timeout in milliseconds.
    pub connection_timeout_ms: u64,
    /// Request timeout in milliseconds.
    pub request_timeout_ms: u64,
    /// Metadata refresh interval in seconds (zero to disable).
    pub metadata_refresh_interval_secs: u64,
    /// Security protocol (PLAINTEXT, SSL, SASL_PLAINTEXT, SASL_SSL).
    pub security_protocol: String,
    /// TLS configuration for broker connections.
    pub tls_secret: Option<TlsSecretRef>,
    /// SASL configuration for broker connections.
    pub sasl_secret: Option<SaslSecretRef>,
}

/// TLS secret reference for broker connections.
#[derive(Clone, Debug)]
pub struct TlsSecretRef {
    /// Secret name.
    pub name: String,
    /// CA certificate key in the secret.
    pub ca_key: String,
    /// Client certificate key in the secret (for mTLS).
    pub cert_key: Option<String>,
    /// Client key key in the secret (for mTLS).
    pub key_key: Option<String>,
    /// Skip server verification (not recommended for production).
    pub insecure_skip_verify: bool,
}

/// SASL secret reference for broker connections.
#[derive(Clone, Debug)]
pub struct SaslSecretRef {
    /// Secret name.
    pub name: String,
    /// SASL mechanism.
    pub mechanism: String,
    /// Username key in the secret.
    pub username_key: String,
    /// Password key in the secret.
    pub password_key: String,
}

/// Partition remapping configuration.
#[derive(Clone, Debug)]
pub struct MappingSpec {
    /// Number of virtual partitions exposed to clients.
    pub virtual_partitions: u32,
    /// Number of physical partitions in the Kafka cluster.
    pub physical_partitions: u32,
    /// Offset range per virtual-partition group.
    pub offset_range: u64,
    /// Per-topic mapping overrides.
    pub topics: Vec<TopicMappingOverride>,
}

/// Per-topic mapping override; only the fields an override sets are emitted.
#[derive(Clone, Debug)]
pub struct TopicMappingOverride {
    /// Topic name or pattern.
    pub topic: String,
    /// Virtual partitions for this topic.
    pub virtual_partitions: Option<u32>,
    /// Physical partitions for this topic.
    pub physical_partitions: Option<u32>,
    /// Offset range for this topic.
    pub offset_range: Option<u64>,
}

/// Metrics configuration.
#[derive(Clone, Debug)]
pub struct MetricsSpec {
    /// Enable the metrics endpoint.
    pub enabled: bool,
    /// Metrics port.
    pub port: i32,
}

/// Logging configuration.
#[derive(Clone, Debug)]
pub struct LoggingSpec {
    /// Log level (trace, debug, info, warn, error).
    pub level: String,
    /// Output logs in JSON format.
    pub json: bool,
}

/// Kubernetes Service configuration.
#[derive(Clone, Debug)]
pub struct ServiceSpec {
    /// Service type (ClusterIP, LoadBalancer, NodePort).
    pub type_: String,
    /// Service annotations (for cloud load balancer configuration).
    pub annotations: Vec<(String, String)>,
    /// LoadBalancer IP, if applicable.
    pub load_balancer_ip: Option<String>,
    /// External traffic policy (Cluster, Local).
    pub external_traffic_policy: Option<String>,
}

/// Pod template customizations.
#[derive(Clone, Debug)]
pub struct PodTemplateSpec {
    /// Pod annotations.
    pub annotations: Vec<(String, String)>,
    /// Pod labels.
    pub labels: Vec<(String, String)>,
    /// Node selector.
    pub node_selector: Vec<(String, String)>,
    /// Tolerations.
    pub tolerations: Vec<TolerationSpec>,
    /// Affinity rules, held verbatim as a structured document.
    pub affinity: Option<String>,
    /// Resource requirements.
    pub resources: Option<ResourceRequirementsSpec>,
    /// Image override.
    pub image: Option<String>,
    /// Image tag override.
    pub image_tag: Option<String>,
    /// Image pull policy.
    pub image_pull_policy: Option<String>,
    /// Image pull secrets (list of secret names).
    pub image_pull_secrets: Vec<String>,
    /// Service account name.
    pub service_account_name: Option<String>,
    /// Pod security context, held verbatim as a structured document.
    pub security_context: Option<String>,
}

/// Toleration specification.
#[derive(Clone, Debug)]
pub struct TolerationSpec {
    /// Toleration key.
    pub key: Option<String>,
    /// Toleration operator (Exists, Equal).
    pub operator: Option<String>,
    /// Toleration value.
    pub value: Option<String>,
    /// Toleration effect (NoSchedule, PreferNoSchedule, NoExecute).
    pub effect: Option<String>,
    /// Toleration seconds (for NoExecute).
    pub toleration_seconds: Option<i64>,
}

/// Resource requirements specification.
#[derive(Clone, Debug)]
pub struct ResourceRequirementsSpec {
    /// Resource limits (cpu, memory).
    pub limits: Vec<(String, String)>,
    /// Resource requests (cpu, memory).
    pub requests: Vec<(String, String)>,
}

/// KafkaPartitionRemapper status, recomputed whole on every pass.
#[derive(Clone, Debug)]
pub struct KafkaPartitionRemapperStatus {
    /// Current phase (Pending, Running, Degraded, Suspended).
    pub phase: Option<String>,
    /// Human-readable message.
    pub message: Option<String>,
    /// Service endpoint for client connections.
    pub service_endpoint: Option<String>,
    /// Metrics endpoint URL.
    pub metrics_endpoint: Option<String>,
    /// Current number of ready replicas.
    pub ready_replicas: Option<i32>,
    /// Total number of replicas.
    pub replicas: Option<i32>,
    /// ConfigMap name for the proxy configuration.
    pub config_map_name: Option<String>,
    /// Deployment name.
    pub deployment_name: Option<String>,
    /// Service name.
    pub service_name: Option<String>,
    /// Compression ratio (virtual over physical partitions).
    pub compression_ratio: Option<u32>,
    /// Observed generation.
    pub observed_generation: Option<i64>,
    /// Last update time, as timestamp text.
    pub last_update_time: Option<String>,
    /// Status conditions.
    pub conditions: Vec<Condition>,
}

/// A status condition.
#[derive(Clone, Debug)]
pub struct Condition {
    /// Condition type (Ready, ConfigValid, DeploymentAvailable).
    pub type_: String,
    /// Status (True, False, Unknown).
    pub status: String,
    /// Last transition time, as timestamp text.
    pub last_transition_time: String,
    /// Reason for the condition.
    pub reason: Option<String>,
    /// Human-readable message.
    pub message: Option<String>,
}

/// Default replica count.
pub fn default_replicas() -> (r: i32)
    ensures
        r == 1,
{
    1
}

/// Default listener port.
pub fn default_listen_port() -> (r: i32)
    ensures
        r == 9092,
{
    9092
}

/// Default maximum concurrent client connections.
pub fn default_max_connections() -> (r: u32)
    ensures
        r == 1000,
{
    1000
}

/// Default security protocol.
pub fn default_security_protocol() -> (r: String)
    ensures
        r@ == "PLAINTEXT"@,
{
    "PLAINTEXT".to_owned()
}

/// Default certificate key in a TLS certificate secret.
pub fn default_tls_cert_key() -> (r: String)
    ensures
        r@ == "tls.crt"@,
{
    "tls.crt".to_owned()
}

/// Default private-key key in a TLS certificate secret.
pub fn default_tls_key_key() -> (r: String)
    ensures
        r@ == "tls.key"@,
{
    "tls.key".to_owned()
}

/// Default CA certificate key in a secret.
pub fn default_ca_key() -> (r: String)
    ensures
        r@ == "ca.crt"@,
{
    "ca.crt".to_owned()
}

/// Default enabled SASL mechanisms.
pub fn default_sasl_mechanisms() -> (r: Vec<String>)
    ensures
        r@.len() == 1,
        r@[0]@ == "PLAIN"@,
{
    let mut v: Vec<String> = Vec::new();
    v.push("PLAIN".to_owned());
    v
}

/// Default connection timeout in milliseconds.
pub fn default_connection_timeout_ms() -> (r: u64)
    ensures
        r == 10000,
{
    10000
}

/// Default request timeout in milliseconds.
pub fn default_request_timeout_ms() -> (r: u64)
    ensures
        r == 30000,
{
    30000
}

/// Default metadata refresh interval in seconds.
pub fn default_metadata_refresh_interval_secs() -> (r: u64)
    ensures
        r == 30,
{
    30
}

/// Default username key in a SASL secret.
pub fn default_username_key() -> (r: String)
    ensures
        r@ == "username"@,
{
    "username".to_owned()
}

/// Default password key in a SASL secret.
pub fn default_password_key() -> (r: String)
    ensures
        r@ == "password"@,
{
    "password".to_owned()
}

/// Default offset range per virtual-partition group: 2 to the 40th power.
pub fn default_offset_range() -> (r: u64)
    ensures
        r == 0x10000000000u64,
{
    0x10000000000u64
}

/// Default for flags that are on unless switched off.
pub fn default_true() -> (r: bool)
    ensures
        r == true,
{
    true
}

/// Default metrics port.
pub fn default_metrics_port() -> (r: i32)
    ensures
        r == 9090,
{
    9090
}

/// Default log level.
pub fn default_log_level() -> (r: String)
    ensures
        r@ == "info"@,
{
    "info".to_owned()
}

/// Default Service type.
pub fn default_service_type() -> (r: String)
    ensures
        r@ == "ClusterIP"@,
{
    "ClusterIP".to_owned()
}

impl Default for ObjectMeta {
    /// Metadata with nothing set.
    fn default() -> (d: Self)
        ensures
            d.name is None,
            d.namespace is None,
            d.uid is None,
            d.generation is None,
    {
        ObjectMeta { name: None, namespace: None, uid: None, generation: None }
    }
}

impl Default for MetricsSpec {
    /// Metrics are enabled on port 9090 unless configured otherwise.
    fn default() -> (d: Self)
        ensures
            d.enabled == true,
            d.port == 9090,
    {
        MetricsSpec { enabled: true, port: 9090 }
    }
}

impl Default for LoggingSpec {
    /// Logs default to plain-text output at the info level.
    fn default() -> (d: Self)
        ensures
            d.level@ == "info"@,
            d.json == false,
    {
        LoggingSpec { level: "info".to_owned(), json: false }
    }
}

impl Default for ServiceSpec {
    /// The Service defaults to a plain ClusterIP with no annotations.
    fn default() -> (d: Self)
        ensures
            d.type_@ == "ClusterIP"@,
            d.annotations@.len() == 0,
            d.load_balancer_ip is None,
            d.external_traffic_policy is None,
    {
        ServiceSpec {
            type_: "ClusterIP".to_owned(),
            annotations: Vec::new(),
            load_balancer_ip: None,
            external_traffic_policy: None,
        }
    }
}

impl Default for PodTemplateSpec {
    /// An empty pod template: no overrides set.
    fn default() -> (d: Self)
        ensures
            d.annotations@.len() == 0,
            d.labels@.len() == 0,
            d.node_selector@.len() == 0,
            d.tolerations@.len() == 0,
            d.affinity is None,
            d.resources is None,
            d.image is None,
            d.image_tag is None,
            d.image_pull_policy is None,
            d.image_pull_secrets@.len() == 0,
            d.service_account_name is None,
            d.security_context is None,
    {
        PodTemplateSpec {
            annotations: Vec::new(),
            labels: Vec::new(),
            node_selector: Vec::new(),
            tolerations: Vec::new(),
            affinity: None,
            resources: None,
            image: None,
            image_tag: None,
            image_pull_policy: None,
            image_pull_secrets: Vec::new(),
            service_account_name: None,
            security_context: None,
        }
    }
}

impl Default for KafkaPartitionRemapperStatus {
    /// A status with nothing observed yet.
    fn default() -> (d: Self)
        ensures
            d.phase is None,
            d.message is None,
            d.service_endpoint is None,
            d.metrics_endpoint is None,
            d.ready_replicas is None,
            d.replicas is None,
            d.config_map_name is None,
            d.deployment_name is None,
            d.service_name is None,
            d.compression_ratio is None,
            d.observed_generation is None,
            d.last_update_time is None,
            d.conditions@.len() == 0,
    {
        KafkaPartitionRemapperStatus {
            phase: None,
            message: None,
            service_endpoint: None,
            metrics_endpoint: None,
            ready_replicas: None,
            replicas: None,
            config_map_name: None,
            deployment_name: None,
            service_name: None,
            compression_ratio: None,
            observed_generation: None,
            last_update_time: None,
            conditions: Vec::new(),
        }
    }
}

impl KafkaPartitionRemapper {
    /// The resource's name, or empty text when the metadata carries none.
    pub fn name_any(&self) -> (n: String)
        ensures
            n@ == name_view(self.metadata.name),
    {
        match &self.metadata.name {
            Some(n) => n.clone(),
            None => String::new(),
        }
    }

    /// The resource's namespace, or empty text when the metadata carries none.
    pub fn namespace_any(&self) -> (n: String)
        ensures
            n@ == name_view(self.metadata.namespace),
    {
        match &self.metadata.namespace {
            Some(n) => n.clone(),
            None => String::new(),
        }
    }

    /// The resource's unique id, or empty text when the metadata carries none.
    pub fn uid_any(&self) -> (n: String)
        ensures
            n@ == name_view(self.metadata.uid),
    {
        match &self.metadata.uid {
            Some(n) => n.clone(),
            None => String::new(),
        }
    }
}

/// The contents of an optional name: empty when absent.
pub open spec fn name_view(n: Option<String>) -> Seq<char> {
    match n {
        Some(s) => s@,
        None => Seq::<char>::empty(),
    }
}

} // verus!
