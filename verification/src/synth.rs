//! From a desired state and the identity of its resource to the four
//! subordinate objects. Nothing here reads or keeps any other state: each
//! descriptor is a function of the desired state, the name and the namespace.

use crate::config::{config_text, generate_config_toml, mirroring_enabled};
use crate::crd::{ShazamqClusterSpec, ShazamqClusterSpecView};
use crate::descriptors::{
    ConfigArtifact, ConfigArtifactView, ContainerDescriptor, ContainerDescriptorView,
    ContainerPortDescriptor, ContainerPortDescriptorView, EndpointDescriptor,
    EndpointDescriptorView, EnvSetting, EnvSettingView, MountDescriptor, MountDescriptorView,
    PortDescriptor, PortDescriptorView, ReplicaGroupDescriptor, ReplicaGroupDescriptorView,
    VolumeClaimDescriptor, VolumeClaimDescriptorView,
};
use crate::labels::{
    common_label_map, common_labels, pod_label_map, pod_labels, selector_label_map,
    selector_labels, LabelMap, lemma_selector_never_overridden,
};
use vstd::prelude::*;
use vstd::string::*;

verus! {

/// The name of the configuration artifact of the cluster `name`.
pub open spec fn config_artifact_name(name: Seq<char>) -> Seq<char> {
    name + "-config"@
}

/// The name of the discovery endpoint of the cluster `name`.
pub open spec fn discovery_endpoint_name(name: Seq<char>) -> Seq<char> {
    name + "-headless"@
}

/// The configuration artifact of a cluster.
pub open spec fn config_artifact_model(
    spec: ShazamqClusterSpecView,
    name: Seq<char>,
    namespace: Seq<char>,
) -> ConfigArtifactView {
    ConfigArtifactView {
        name: config_artifact_name(name),
        namespace,
        labels: common_label_map(name),
        file_name: "config.toml"@,
        text: config_text(spec),
    }
}

/// The client-facing endpoint of a cluster: the primary port and the metrics
/// port, each in front of the port that the broker listens on.
pub open spec fn client_endpoint_model(
    spec: ShazamqClusterSpecView,
    name: Seq<char>,
    namespace: Seq<char>,
) -> EndpointDescriptorView {
    EndpointDescriptorView {
        name,
        namespace,
        labels: common_label_map(name),
        service_type: Some(
            match spec.service {
                Some(s) => s.service_type,
                None => "ClusterIP"@,
            },
        ),
        cluster_ip: None,
        selector: selector_label_map(name),
        ports: seq![
            PortDescriptorView {
                name: "kafka"@,
                port: match spec.service {
                    Some(s) => s.port,
                    None => 9092i32,
                },
                target_port: Some(9092i32),
            },
            PortDescriptorView {
                name: "metrics"@,
                port: match spec.service {
                    Some(s) => s.metrics_port,
                    None => 9090i32,
                },
                target_port: Some(9090i32),
            },
        ],
    }
}

/// The discovery endpoint of a cluster: no load-balanced address, and the
/// primary port alone.
pub open spec fn discovery_endpoint_model(name: Seq<char>, namespace: Seq<char>) -> EndpointDescriptorView {
    EndpointDescriptorView {
        name: discovery_endpoint_name(name),
        namespace,
        labels: common_label_map(name),
        service_type: None,
        cluster_ip: Some("None"@),
        selector: selector_label_map(name),
        ports: seq![PortDescriptorView { name: "kafka"@, port: 9092i32, target_port: None }],
    }
}

/// The environment of the broker: the log level, and the mirroring flag only
/// where mirroring is switched on.
pub open spec fn environment_model(spec: ShazamqClusterSpecView) -> Seq<EnvSettingView> {
    if mirroring_enabled(spec.mirror) {
        seq![
            EnvSettingView { name: "RUST_LOG"@, value: "info"@ },
            EnvSettingView { name: "SHAZAMQ_MIRROR_ENABLED"@, value: "true"@ },
        ]
    } else {
        seq![EnvSettingView { name: "RUST_LOG"@, value: "info"@ }]
    }
}

/// The broker process of a replica.
pub open spec fn container_model(spec: ShazamqClusterSpecView) -> ContainerDescriptorView {
    ContainerDescriptorView {
        name: "shazamq"@,
        image: spec.image + ":"@ + spec.version,
        image_pull_policy: spec.image_pull_policy,
        ports: seq![
            ContainerPortDescriptorView { name: "kafka"@, container_port: 9092i32 },
            ContainerPortDescriptorView { name: "metrics"@, container_port: 9090i32 },
        ],
        env: environment_model(spec),
        volume_mounts: seq![
            MountDescriptorView { name: "data"@, mount_path: "/data/shazamq"@, read_only: false },
            MountDescriptorView { name: "config"@, mount_path: "/etc/shazamq"@, read_only: true },
        ],
        args: seq!["--config"@, "/etc/shazamq/config.toml"@],
    }
}

/// The replica group of a cluster.
pub open spec fn replica_group_model(
    spec: ShazamqClusterSpecView,
    name: Seq<char>,
    namespace: Seq<char>,
) -> ReplicaGroupDescriptorView {
    ReplicaGroupDescriptorView {
        name,
        namespace,
        labels: common_label_map(name),
        replicas: spec.replicas,
        selector: selector_label_map(name),
        service_name: discovery_endpoint_name(name),
        pod_labels: pod_label_map(spec.pod_labels, name),
        pod_annotations: spec.pod_annotations,
        node_selector: spec.node_selector,
        container: container_model(spec),
        config_volume: "config"@,
        config_artifact: config_artifact_name(name),
        volume_claim: VolumeClaimDescriptorView {
            name: "data"@,
            access_mode: "ReadWriteOnce"@,
            storage: "100Gi"@,
        },
    }
}

/// Synthesizing from the same desired state, name and namespace gives the
/// same descriptors, however often it is done. (The discovery endpoint does
/// not depend on the desired state at all.)
pub proof fn lemma_synthesis_idempotent(
    a: ShazamqClusterSpec,
    b: ShazamqClusterSpec,
    name: Seq<char>,
    namespace: Seq<char>,
)
    requires
        a.deep_view() == b.deep_view(),
    ensures
        config_artifact_model(a.deep_view(), name, namespace) == config_artifact_model(
            b.deep_view(),
            name,
            namespace,
        ),
        client_endpoint_model(a.deep_view(), name, namespace) == client_endpoint_model(
            b.deep_view(),
            name,
            namespace,
        ),
        replica_group_model(a.deep_view(), name, namespace) == replica_group_model(
            b.deep_view(),
            name,
            namespace,
        ),
{
}

/// The selector of the replica group always matches its replicas: whatever
/// labels the desired state asks for, each replica carries the two selector
/// labels with their own values, and both endpoints select by the same two.
pub proof fn lemma_selector_matches_replicas(
    spec: ShazamqClusterSpecView,
    name: Seq<char>,
    namespace: Seq<char>,
)
    ensures
        ({
            let group = replica_group_model(spec, name, namespace);
            &&& group.selector.submap_of(group.pod_labels)
            &&& group.pod_labels.contains_key("app"@)
            &&& group.pod_labels["app"@] == "shazamq"@
            &&& group.pod_labels.contains_key("shazamq.io/cluster"@)
            &&& group.pod_labels["shazamq.io/cluster"@] == name
            &&& client_endpoint_model(spec, name, namespace).selector == group.selector
            &&& discovery_endpoint_model(name, namespace).selector == group.selector
        }),
{
    lemma_selector_never_overridden(spec.pod_labels, name);
}

/// The replica group refers to the configuration artifact and to the
/// discovery endpoint by the names under which they are applied.
pub proof fn lemma_references_resolve(
    spec: ShazamqClusterSpecView,
    name: Seq<char>,
    namespace: Seq<char>,
)
    ensures
        replica_group_model(spec, name, namespace).config_artifact == config_artifact_model(
            spec,
            name,
            namespace,
        ).name,
        replica_group_model(spec, name, namespace).service_name == discovery_endpoint_model(
            name,
            namespace,
        ).name,
{
}

fn with_suffix(name: &str, suffix: &str) -> (r: String)
    ensures
        r@ == name@ + suffix@,
{
    let mut r = String::from_str(name);
    r.append(suffix);
    r
}

fn copy_labels(labels: &Option<LabelMap>) -> (r: Option<LabelMap>)
    ensures
        r.deep_view() == labels.deep_view(),
{
    match labels {
        Some(m) => Some(m.duplicate()),
        None => None,
    }
}

/// The configuration artifact of the cluster `name` in `namespace`.
pub fn config_artifact(spec: &ShazamqClusterSpec, name: &str, namespace: &str) -> (r:
    ConfigArtifact)
    ensures
        r.deep_view() == config_artifact_model(spec.deep_view(), name@, namespace@),
{
    ConfigArtifact {
        name: with_suffix(name, "-config"),
        namespace: String::from_str(namespace),
        labels: common_labels(name),
        file_name: String::from_str("config.toml"),
        text: generate_config_toml(spec),
    }
}

/// The client-facing endpoint of the cluster `name` in `namespace`.
pub fn client_endpoint(spec: &ShazamqClusterSpec, name: &str, namespace: &str) -> (r:
    EndpointDescriptor)
    ensures
        r.deep_view() == client_endpoint_model(spec.deep_view(), name@, namespace@),
{
    let mut service_type = String::from_str("ClusterIP");
    let mut port: i32 = 9092;
    let mut metrics_port: i32 = 9090;
    match &spec.service {
        Some(s) => {
            service_type = s.service_type.clone();
            port = s.port;
            metrics_port = s.metrics_port;
        },
        None => {},
    }
    let primary = PortDescriptor {
        name: String::from_str("kafka"),
        port,
        target_port: Some(9092),
    };
    let metrics = PortDescriptor {
        name: String::from_str("metrics"),
        port: metrics_port,
        target_port: Some(9090),
    };
    let ports = vec![primary, metrics];
    assert(ports.deep_view() =~= client_endpoint_model(spec.deep_view(), name@, namespace@).ports);
    EndpointDescriptor {
        name: String::from_str(name),
        namespace: String::from_str(namespace),
        labels: common_labels(name),
        service_type: Some(service_type),
        cluster_ip: None,
        selector: selector_labels(name),
        ports,
    }
}

/// The discovery endpoint of the cluster `name` in `namespace`.
pub fn discovery_endpoint(name: &str, namespace: &str) -> (r: EndpointDescriptor)
    ensures
        r.deep_view() == discovery_endpoint_model(name@, namespace@),
{
    let primary = PortDescriptor { name: String::from_str("kafka"), port: 9092, target_port: None };
    let ports = vec![primary];
    assert(ports.deep_view() =~= discovery_endpoint_model(name@, namespace@).ports);
    EndpointDescriptor {
        name: with_suffix(name, "-headless"),
        namespace: String::from_str(namespace),
        labels: common_labels(name),
        service_type: None,
        cluster_ip: Some(String::from_str("None")),
        selector: selector_labels(name),
        ports,
    }
}

fn environment(spec: &ShazamqClusterSpec) -> (r: Vec<EnvSetting>)
    ensures
        r.deep_view() == environment_model(spec.deep_view()),
{
    let log_level = EnvSetting { name: String::from_str("RUST_LOG"), value: String::from_str("info") };
    let mut env = vec![log_level];
    let enabled = match &spec.mirror {
        Some(m) => m.enabled,
        None => false,
    };
    if enabled {
        env.push(
            EnvSetting {
                name: String::from_str("SHAZAMQ_MIRROR_ENABLED"),
                value: String::from_str("true"),
            },
        );
    }
    assert(env.deep_view() =~= environment_model(spec.deep_view()));
    env
}

fn container(spec: &ShazamqClusterSpec) -> (r: ContainerDescriptor)
    ensures
        r.deep_view() == container_model(spec.deep_view()),
{
    let mut image = spec.image.clone();
    image.append(":");
    image.append(spec.version.as_str());
    let ports = vec![
        ContainerPortDescriptor { name: String::from_str("kafka"), container_port: 9092 },
        ContainerPortDescriptor { name: String::from_str("metrics"), container_port: 9090 },
    ];
    assert(ports.deep_view() =~= container_model(spec.deep_view()).ports);
    let volume_mounts = vec![
        MountDescriptor {
            name: String::from_str("data"),
            mount_path: String::from_str("/data/shazamq"),
            read_only: false,
        },
        MountDescriptor {
            name: String::from_str("config"),
            mount_path: String::from_str("/etc/shazamq"),
            read_only: true,
        },
    ];
    assert(volume_mounts.deep_view() =~= container_model(spec.deep_view()).volume_mounts);
    let args = vec![String::from_str("--config"), String::from_str("/etc/shazamq/config.toml")];
    assert(args.deep_view() =~= container_model(spec.deep_view()).args);
    ContainerDescriptor {
        name: String::from_str("shazamq"),
        image,
        image_pull_policy: spec.image_pull_policy.clone(),
        ports,
        env: environment(spec),
        volume_mounts,
        args,
    }
}

/// The replica group of the cluster `name` in `namespace`.
pub fn replica_group(spec: &ShazamqClusterSpec, name: &str, namespace: &str) -> (r:
    ReplicaGroupDescriptor)
    ensures
        r.deep_view() == replica_group_model(spec.deep_view(), name@, namespace@),
        r.deep_view().selector.submap_of(r.deep_view().pod_labels),
        r.deep_view().pod_labels.contains_key("app"@),
        r.deep_view().pod_labels["app"@] == "shazamq"@,
        r.deep_view().pod_labels.contains_key("shazamq.io/cluster"@),
        r.deep_view().pod_labels["shazamq.io/cluster"@] == name@,
{
    proof {
        lemma_selector_matches_replicas(spec.deep_view(), name@, namespace@);
    }
    ReplicaGroupDescriptor {
        name: String::from_str(name),
        namespace: String::from_str(namespace),
        labels: common_labels(name),
        replicas: spec.replicas,
        selector: selector_labels(name),
        service_name: with_suffix(name, "-headless"),
        pod_labels: pod_labels(&spec.pod_labels, name),
        pod_annotations: copy_labels(&spec.pod_annotations),
        node_selector: copy_labels(&spec.node_selector),
        container: container(spec),
        config_volume: String::from_str("config"),
        config_artifact: with_suffix(name, "-config"),
        volume_claim: VolumeClaimDescriptor {
            name: String::from_str("data"),
            access_mode: String::from_str("ReadWriteOnce"),
            storage: String::from_str("100Gi"),
        },
    }
}

} // verus!
