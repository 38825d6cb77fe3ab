//! The resource schema: the desired state of a cluster and its observed
//! state, as plain data.

use crate::labels::LabelMap;
use vstd::prelude::*;
use vstd::string::*;

verus! {

/// Log storage settings of a broker.
#[derive(Debug, Clone)]
pub struct StorageConfig {
    /// Size of one log segment, in bytes.
    pub segment_bytes: Option<i64>,
    /// Hours for which records are kept.
    pub retention_hours: Option<i32>,
    /// Bytes of records that are kept.
    pub retention_bytes: Option<i64>,
}

/// What a [`StorageConfig`] holds, as mathematical values.
pub struct StorageConfigView {
    pub segment_bytes: Option<i64>,
    pub retention_hours: Option<i32>,
    pub retention_bytes: Option<i64>,
}

impl DeepView for StorageConfig {
    type V = StorageConfigView;

    open spec fn deep_view(&self) -> StorageConfigView {
        StorageConfigView {
            segment_bytes: self.segment_bytes.deep_view(),
            retention_hours: self.retention_hours.deep_view(),
            retention_bytes: self.retention_bytes.deep_view(),
        }
    }
}

/// Where the cold tier lives in an S3-compatible object store.
#[derive(Debug, Clone)]
pub struct S3Config {
    pub bucket: String,
    pub region: String,
    pub prefix: String,
    pub endpoint: Option<String>,
    pub credentials_secret: Option<String>,
}

/// What a [`S3Config`] holds, as mathematical values.
pub struct S3ConfigView {
    pub bucket: Seq<char>,
    pub region: Seq<char>,
    pub prefix: Seq<char>,
    pub endpoint: Option<Seq<char>>,
    pub credentials_secret: Option<Seq<char>>,
}

impl DeepView for S3Config {
    type V = S3ConfigView;

    open spec fn deep_view(&self) -> S3ConfigView {
        S3ConfigView {
            bucket: self.bucket.deep_view(),
            region: self.region.deep_view(),
            prefix: self.prefix.deep_view(),
            endpoint: self.endpoint.deep_view(),
            credentials_secret: self.credentials_secret.deep_view(),
        }
    }
}

/// Tiered storage settings.
#[derive(Debug, Clone)]
pub struct TieredStorageConfig {
    pub enabled: bool,
    pub provider: String,
    pub hot_tier_retention_hours: Option<i32>,
    pub s3: Option<S3Config>,
}

/// What a [`TieredStorageConfig`] holds, as mathematical values.
pub struct TieredStorageConfigView {
    pub enabled: bool,
    pub provider: Seq<char>,
    pub hot_tier_retention_hours: Option<i32>,
    pub s3: Option<S3ConfigView>,
}

impl DeepView for TieredStorageConfig {
    type V = TieredStorageConfigView;

    open spec fn deep_view(&self) -> TieredStorageConfigView {
        TieredStorageConfigView {
            enabled: self.enabled.deep_view(),
            provider: self.provider.deep_view(),
            hot_tier_retention_hours: self.hot_tier_retention_hours.deep_view(),
            s3: self.s3.deep_view(),
        }
    }
}

/// One upstream cluster that is mirrored into this one.
#[derive(Debug, Clone)]
pub struct MirrorSource {
    pub name: String,
    pub bootstrap_servers: String,
    pub security_protocol: String,
    pub sasl_mechanism: Option<String>,
    pub credentials_secret: Option<String>,
    pub topic_whitelist: Vec<String>,
    pub topic_blacklist: Option<Vec<String>>,
    pub consumer_group_id: String,
    pub num_consumers: Option<i32>,
    pub exactly_once: Option<bool>,
}

/// What a [`MirrorSource`] holds, as mathematical values.
pub struct MirrorSourceView {
    pub name: Seq<char>,
    pub bootstrap_servers: Seq<char>,
    pub security_protocol: Seq<char>,
    pub sasl_mechanism: Option<Seq<char>>,
    pub credentials_secret: Option<Seq<char>>,
    pub topic_whitelist: Seq<Seq<char>>,
    pub topic_blacklist: Option<Seq<Seq<char>>>,
    pub consumer_group_id: Seq<char>,
    pub num_consumers: Option<i32>,
    pub exactly_once: Option<bool>,
}

impl DeepView for MirrorSource {
    type V = MirrorSourceView;

    open spec fn deep_view(&self) -> MirrorSourceView {
        MirrorSourceView {
            name: self.name.deep_view(),
            bootstrap_servers: self.bootstrap_servers.deep_view(),
            security_protocol: self.security_protocol.deep_view(),
            sasl_mechanism: self.sasl_mechanism.deep_view(),
            credentials_secret: self.credentials_secret.deep_view(),
            topic_whitelist: self.topic_whitelist.deep_view(),
            topic_blacklist: self.topic_blacklist.deep_view(),
            consumer_group_id: self.consumer_group_id.deep_view(),
            num_consumers: self.num_consumers.deep_view(),
            exactly_once: self.exactly_once.deep_view(),
        }
    }
}

/// Mirroring settings: the upstream clusters, in the order given.
#[derive(Debug, Clone)]
pub struct MirrorConfig {
    pub enabled: bool,
    pub sources: Vec<MirrorSource>,
}

/// What a [`MirrorConfig`] holds, as mathematical values.
pub struct MirrorConfigView {
    pub enabled: bool,
    pub sources: Seq<MirrorSourceView>,
}

impl DeepView for MirrorConfig {
    type V = MirrorConfigView;

    open spec fn deep_view(&self) -> MirrorConfigView {
        MirrorConfigView {
            enabled: self.enabled.deep_view(),
            sources: self.sources.deep_view(),
        }
    }
}

/// Replication settings of topics.
#[derive(Debug, Clone)]
pub struct ReplicationConfig {
    pub default_replication_factor: i32,
    pub min_insync_replicas: i32,
}

/// What a [`ReplicationConfig`] holds, as mathematical values.
pub struct ReplicationConfigView {
    pub default_replication_factor: i32,
    pub min_insync_replicas: i32,
}

impl DeepView for ReplicationConfig {
    type V = ReplicationConfigView;

    open spec fn deep_view(&self) -> ReplicationConfigView {
        ReplicationConfigView {
            default_replication_factor: self.default_replication_factor.deep_view(),
            min_insync_replicas: self.min_insync_replicas.deep_view(),
        }
    }
}

/// Amounts of compute resources.
#[derive(Debug, Clone)]
pub struct ResourceList {
    pub cpu: Option<String>,
    pub memory: Option<String>,
}

/// What a [`ResourceList`] holds, as mathematical values.
pub struct ResourceListView {
    pub cpu: Option<Seq<char>>,
    pub memory: Option<Seq<char>>,
}

impl DeepView for ResourceList {
    type V = ResourceListView;

    open spec fn deep_view(&self) -> ResourceListView {
        ResourceListView {
            cpu: self.cpu.deep_view(),
            memory: self.memory.deep_view(),
        }
    }
}

/// Compute resources that a broker asks for and may use at most.
#[derive(Debug, Clone)]
pub struct ResourceRequirements {
    pub requests: Option<ResourceList>,
    pub limits: Option<ResourceList>,
}

/// What a [`ResourceRequirements`] holds, as mathematical values.
pub struct ResourceRequirementsView {
    pub requests: Option<ResourceListView>,
    pub limits: Option<ResourceListView>,
}

impl DeepView for ResourceRequirements {
    type V = ResourceRequirementsView;

    open spec fn deep_view(&self) -> ResourceRequirementsView {
        ResourceRequirementsView {
            requests: self.requests.deep_view(),
            limits: self.limits.deep_view(),
        }
    }
}

/// Overrides for the client-facing endpoint.
#[derive(Debug, Clone)]
pub struct ServiceConfig {
    /// The kind of endpoint.
    pub service_type: String,
    /// The port of the primary protocol.
    pub port: i32,
    /// The port on which metrics are served.
    pub metrics_port: i32,
}

/// What a [`ServiceConfig`] holds, as mathematical values.
pub struct ServiceConfigView {
    pub service_type: Seq<char>,
    pub port: i32,
    pub metrics_port: i32,
}

impl DeepView for ServiceConfig {
    type V = ServiceConfigView;

    open spec fn deep_view(&self) -> ServiceConfigView {
        ServiceConfigView {
            service_type: self.service_type.deep_view(),
            port: self.port.deep_view(),
            metrics_port: self.metrics_port.deep_view(),
        }
    }
}

/// Transport encryption settings.
#[derive(Debug, Clone)]
pub struct TlsConfig {
    pub enabled: bool,
    pub secret_name: String,
}

/// What a [`TlsConfig`] holds, as mathematical values.
pub struct TlsConfigView {
    pub enabled: bool,
    pub secret_name: Seq<char>,
}

impl DeepView for TlsConfig {
    type V = TlsConfigView;

    open spec fn deep_view(&self) -> TlsConfigView {
        TlsConfigView {
            enabled: self.enabled.deep_view(),
            secret_name: self.secret_name.deep_view(),
        }
    }
}

/// Client authentication settings.
#[derive(Debug, Clone)]
pub struct AuthConfig {
    pub enabled: bool,
    pub mechanism: String,
    pub secret_name: String,
}

/// What a [`AuthConfig`] holds, as mathematical values.
pub struct AuthConfigView {
    pub enabled: bool,
    pub mechanism: Seq<char>,
    pub secret_name: Seq<char>,
}

impl DeepView for AuthConfig {
    type V = AuthConfigView;

    open spec fn deep_view(&self) -> AuthConfigView {
        AuthConfigView {
            enabled: self.enabled.deep_view(),
            mechanism: self.mechanism.deep_view(),
            secret_name: self.secret_name.deep_view(),
        }
    }
}

/// Security settings.
#[derive(Debug, Clone)]
pub struct SecurityConfig {
    pub enabled: bool,
    pub tls: Option<TlsConfig>,
    pub auth: Option<AuthConfig>,
}

/// What a [`SecurityConfig`] holds, as mathematical values.
pub struct SecurityConfigView {
    pub enabled: bool,
    pub tls: Option<TlsConfigView>,
    pub auth: Option<AuthConfigView>,
}

impl DeepView for SecurityConfig {
    type V = SecurityConfigView;

    open spec fn deep_view(&self) -> SecurityConfigView {
        SecurityConfigView {
            enabled: self.enabled.deep_view(),
            tls: self.tls.deep_view(),
            auth: self.auth.deep_view(),
        }
    }
}

/// Settings of the metrics scraper.
#[derive(Debug, Clone)]
pub struct ServiceMonitorConfig {
    pub enabled: bool,
    pub interval: String,
    pub scrape_timeout: String,
}

/// What a [`ServiceMonitorConfig`] holds, as mathematical values.
pub struct ServiceMonitorConfigView {
    pub enabled: bool,
    pub interval: Seq<char>,
    pub scrape_timeout: Seq<char>,
}

impl DeepView for ServiceMonitorConfig {
    type V = ServiceMonitorConfigView;

    open spec fn deep_view(&self) -> ServiceMonitorConfigView {
        ServiceMonitorConfigView {
            enabled: self.enabled.deep_view(),
            interval: self.interval.deep_view(),
            scrape_timeout: self.scrape_timeout.deep_view(),
        }
    }
}

/// Monitoring settings.
#[derive(Debug, Clone)]
pub struct MonitoringConfig {
    pub enabled: bool,
    pub service_monitor: Option<ServiceMonitorConfig>,
}

/// What a [`MonitoringConfig`] holds, as mathematical values.
pub struct MonitoringConfigView {
    pub enabled: bool,
    pub service_monitor: Option<ServiceMonitorConfigView>,
}

impl DeepView for MonitoringConfig {
    type V = MonitoringConfigView;

    open spec fn deep_view(&self) -> MonitoringConfigView {
        MonitoringConfigView {
            enabled: self.enabled.deep_view(),
            service_monitor: self.service_monitor.deep_view(),
        }
    }
}

/// The desired state of one cluster.
#[derive(Debug, Clone)]
pub struct ShazamqClusterSpec {
    /// Number of broker replicas.
    pub replicas: i32,
    /// Broker version.
    pub version: String,
    /// Container image, without its tag.
    pub image: String,
    /// When the image is pulled.
    pub image_pull_policy: String,
    pub storage: Option<StorageConfig>,
    pub tiered_storage: Option<TieredStorageConfig>,
    pub mirror: Option<MirrorConfig>,
    pub replication: Option<ReplicationConfig>,
    pub resources: Option<ResourceRequirements>,
    /// Annotations of each replica.
    pub pod_annotations: Option<LabelMap>,
    /// Labels of each replica, beside the mandatory ones.
    pub pod_labels: Option<LabelMap>,
    /// Labels of the nodes on which replicas may run.
    pub node_selector: Option<LabelMap>,
    pub service: Option<ServiceConfig>,
    pub security: Option<SecurityConfig>,
    pub monitoring: Option<MonitoringConfig>,
}

/// What a [`ShazamqClusterSpec`] holds, as mathematical values.
pub struct ShazamqClusterSpecView {
    pub replicas: i32,
    pub version: Seq<char>,
    pub image: Seq<char>,
    pub image_pull_policy: Seq<char>,
    pub storage: Option<StorageConfigView>,
    pub tiered_storage: Option<TieredStorageConfigView>,
    pub mirror: Option<MirrorConfigView>,
    pub replication: Option<ReplicationConfigView>,
    pub resources: Option<ResourceRequirementsView>,
    pub pod_annotations: Option<Map<Seq<char>, Seq<char>>>,
    pub pod_labels: Option<Map<Seq<char>, Seq<char>>>,
    pub node_selector: Option<Map<Seq<char>, Seq<char>>>,
    pub service: Option<ServiceConfigView>,
    pub security: Option<SecurityConfigView>,
    pub monitoring: Option<MonitoringConfigView>,
}

impl DeepView for ShazamqClusterSpec {
    type V = ShazamqClusterSpecView;

    open spec fn deep_view(&self) -> ShazamqClusterSpecView {
        ShazamqClusterSpecView {
            replicas: self.replicas.deep_view(),
            version: self.version.deep_view(),
            image: self.image.deep_view(),
            image_pull_policy: self.image_pull_policy.deep_view(),
            storage: self.storage.deep_view(),
            tiered_storage: self.tiered_storage.deep_view(),
            mirror: self.mirror.deep_view(),
            replication: self.replication.deep_view(),
            resources: self.resources.deep_view(),
            pod_annotations: self.pod_annotations.deep_view(),
            pod_labels: self.pod_labels.deep_view(),
            node_selector: self.node_selector.deep_view(),
            service: self.service.deep_view(),
            security: self.security.deep_view(),
            monitoring: self.monitoring.deep_view(),
        }
    }
}

/// One condition of a cluster, as the platform records conditions.
#[derive(Debug, Clone)]
pub struct StatusCondition {
    pub condition_type: String,
    pub status: String,
    pub last_transition_time: String,
    pub reason: Option<String>,
    pub message: Option<String>,
}

/// What a [`StatusCondition`] holds, as mathematical values.
pub struct StatusConditionView {
    pub condition_type: Seq<char>,
    pub status: Seq<char>,
    pub last_transition_time: Seq<char>,
    pub reason: Option<Seq<char>>,
    pub message: Option<Seq<char>>,
}

impl DeepView for StatusCondition {
    type V = StatusConditionView;

    open spec fn deep_view(&self) -> StatusConditionView {
        StatusConditionView {
            condition_type: self.condition_type.deep_view(),
            status: self.status.deep_view(),
            last_transition_time: self.last_transition_time.deep_view(),
            reason: self.reason.deep_view(),
            message: self.message.deep_view(),
        }
    }
}

/// The observed state of one broker.
#[derive(Debug, Clone)]
pub struct BrokerStatus {
    pub id: i32,
    pub pod: String,
    pub ready: bool,
    pub leader: bool,
}

/// What a [`BrokerStatus`] holds, as mathematical values.
pub struct BrokerStatusView {
    pub id: i32,
    pub pod: Seq<char>,
    pub ready: bool,
    pub leader: bool,
}

impl DeepView for BrokerStatus {
    type V = BrokerStatusView;

    open spec fn deep_view(&self) -> BrokerStatusView {
        BrokerStatusView {
            id: self.id.deep_view(),
            pod: self.pod.deep_view(),
            ready: self.ready.deep_view(),
            leader: self.leader.deep_view(),
        }
    }
}

/// The observed state of one cluster.
#[derive(Debug, Clone)]
pub struct ShazamqClusterStatus {
    /// `Creating`, `Updating` or `Running`.
    pub phase: Option<String>,
    /// The number of replicas asked for.
    pub replicas: Option<i32>,
    /// The number of replicas that are ready.
    pub ready_replicas: Option<i32>,
    pub conditions: Option<Vec<StatusCondition>>,
    pub brokers: Option<Vec<BrokerStatus>>,
}

/// What a [`ShazamqClusterStatus`] holds, as mathematical values.
pub struct ShazamqClusterStatusView {
    pub phase: Option<Seq<char>>,
    pub replicas: Option<i32>,
    pub ready_replicas: Option<i32>,
    pub conditions: Option<Seq<StatusConditionView>>,
    pub brokers: Option<Seq<BrokerStatusView>>,
}

impl DeepView for ShazamqClusterStatus {
    type V = ShazamqClusterStatusView;

    open spec fn deep_view(&self) -> ShazamqClusterStatusView {
        ShazamqClusterStatusView {
            phase: self.phase.deep_view(),
            replicas: self.replicas.deep_view(),
            ready_replicas: self.ready_replicas.deep_view(),
            conditions: self.conditions.deep_view(),
            brokers: self.brokers.deep_view(),
        }
    }
}

/// The broker version of a cluster that names none.
pub fn default_version() -> (r: String)
    ensures
        r@ == "0.1.1-rc1"@,
{
    String::from_str("0.1.1-rc1")
}

/// The container image of a cluster that names none.
pub fn default_image() -> (r: String)
    ensures
        r@ == "shazamq/shazamq"@,
{
    String::from_str("shazamq/shazamq")
}

/// The pull policy of a cluster that names none.
pub fn default_pull_policy() -> (r: String)
    ensures
        r@ == "IfNotPresent"@,
{
    String::from_str("IfNotPresent")
}

/// The desired state with `replicas` replicas and every other field absent
/// or at its default.
pub open spec fn default_spec_view(replicas: i32) -> ShazamqClusterSpecView {
    ShazamqClusterSpecView {
        replicas,
        version: "0.1.1-rc1"@,
        image: "shazamq/shazamq"@,
        image_pull_policy: "IfNotPresent"@,
        storage: None,
        tiered_storage: None,
        mirror: None,
        replication: None,
        resources: None,
        pod_annotations: None,
        pod_labels: None,
        node_selector: None,
        service: None,
        security: None,
        monitoring: None,
    }
}

impl ShazamqClusterSpec {
    /// A desired state of `replicas` replicas in which every field that may
    /// be left out is left out, and the others have their defaults.
    pub fn with_defaults(replicas: i32) -> (r: Self)
        ensures
            r.deep_view() == default_spec_view(replicas),
    {
        ShazamqClusterSpec {
            replicas,
            version: default_version(),
            image: default_image(),
            image_pull_policy: default_pull_policy(),
            storage: None,
            tiered_storage: None,
            mirror: None,
            replication: None,
            resources: None,
            pod_annotations: None,
            pod_labels: None,
            node_selector: None,
            service: None,
            security: None,
            monitoring: None,
        }
    }
}

} // verus!
