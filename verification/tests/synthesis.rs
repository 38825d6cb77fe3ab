use shazamq_operator::crd::{
    default_image, default_pull_policy, default_version, MirrorConfig, ServiceConfig,
    ShazamqClusterSpec,
};
use shazamq_operator::labels::LabelMap;
use shazamq_operator::synth::{client_endpoint, config_artifact, discovery_endpoint, replica_group};

fn label(map: &LabelMap, key: &str) -> Option<String> {
    map.get(key).cloned()
}

#[test]
fn defaults_of_the_schema() {
    assert_eq!(default_version(), "0.1.1-rc1");
    assert_eq!(default_image(), "shazamq/shazamq");
    assert_eq!(default_pull_policy(), "IfNotPresent");
    let spec = ShazamqClusterSpec::with_defaults(5);
    assert_eq!(spec.replicas, 5);
    assert_eq!(spec.version, "0.1.1-rc1");
    assert_eq!(spec.image, "shazamq/shazamq");
    assert_eq!(spec.image_pull_policy, "IfNotPresent");
    assert!(spec.storage.is_none() && spec.tiered_storage.is_none() && spec.mirror.is_none());
    assert!(spec.pod_labels.is_none() && spec.service.is_none());
}

#[test]
fn config_artifact_carries_the_text() {
    let spec = ShazamqClusterSpec::with_defaults(3);
    let artifact = config_artifact(&spec, "orders", "prod");
    assert_eq!(artifact.name, "orders-config");
    assert_eq!(artifact.namespace, "prod");
    assert_eq!(artifact.file_name, "config.toml");
    assert_eq!(artifact.text, shazamq_operator::config::generate_config_toml(&spec));
    assert!(artifact.text.starts_with("[broker]\n"));
    assert_eq!(label(&artifact.labels, "managed-by"), Some("shazamq-operator".to_string()));
    assert_eq!(label(&artifact.labels, "shazamq.io/cluster"), Some("orders".to_string()));
}

#[test]
fn client_endpoint_defaults() {
    let spec = ShazamqClusterSpec::with_defaults(3);
    let endpoint = client_endpoint(&spec, "orders", "prod");
    assert_eq!(endpoint.name, "orders");
    assert_eq!(endpoint.namespace, "prod");
    assert_eq!(endpoint.service_type, Some("ClusterIP".to_string()));
    assert_eq!(endpoint.cluster_ip, None);
    assert_eq!(endpoint.ports.len(), 2);
    assert_eq!(endpoint.ports[0].name, "kafka");
    assert_eq!(endpoint.ports[0].port, 9092);
    assert_eq!(endpoint.ports[0].target_port, Some(9092));
    assert_eq!(endpoint.ports[1].name, "metrics");
    assert_eq!(endpoint.ports[1].port, 9090);
    assert_eq!(endpoint.ports[1].target_port, Some(9090));
    assert_eq!(label(&endpoint.selector, "app"), Some("shazamq".to_string()));
    assert_eq!(label(&endpoint.selector, "shazamq.io/cluster"), Some("orders".to_string()));
    assert_eq!(endpoint.selector.entries().len(), 2);
    assert_eq!(endpoint.labels.entries().len(), 3);
}

#[test]
fn client_endpoint_overrides() {
    let mut spec = ShazamqClusterSpec::with_defaults(3);
    spec.service = Some(ServiceConfig {
        service_type: "LoadBalancer".to_string(),
        port: 19092,
        metrics_port: 19090,
    });
    let endpoint = client_endpoint(&spec, "orders", "prod");
    assert_eq!(endpoint.service_type, Some("LoadBalancer".to_string()));
    assert_eq!(endpoint.ports[0].port, 19092);
    assert_eq!(endpoint.ports[0].target_port, Some(9092));
    assert_eq!(endpoint.ports[1].port, 19090);
    assert_eq!(endpoint.ports[1].target_port, Some(9090));
}

#[test]
fn discovery_endpoint_has_no_address() {
    let endpoint = discovery_endpoint("orders", "prod");
    assert_eq!(endpoint.name, "orders-headless");
    assert_eq!(endpoint.namespace, "prod");
    assert_eq!(endpoint.cluster_ip, Some("None".to_string()));
    assert_eq!(endpoint.service_type, None);
    assert_eq!(endpoint.ports.len(), 1);
    assert_eq!(endpoint.ports[0].name, "kafka");
    assert_eq!(endpoint.ports[0].port, 9092);
    assert_eq!(endpoint.ports[0].target_port, None);
    assert_eq!(label(&endpoint.selector, "app"), Some("shazamq".to_string()));
    assert_eq!(label(&endpoint.selector, "shazamq.io/cluster"), Some("orders".to_string()));
}

#[test]
fn image_is_image_and_version() {
    let mut spec = ShazamqClusterSpec::with_defaults(3);
    spec.version = "1.2.0".to_string();
    let group = replica_group(&spec, "orders", "prod");
    assert_eq!(group.container.image, "shazamq/shazamq:1.2.0");
    assert_eq!(group.replicas, 3);
}

#[test]
fn replica_group_in_full() {
    let mut spec = ShazamqClusterSpec::with_defaults(4);
    spec.image = "registry.local/shazamq".to_string();
    spec.image_pull_policy = "Always".to_string();
    let mut annotations = LabelMap::new();
    annotations.insert("note".to_string(), "yes".to_string());
    spec.pod_annotations = Some(annotations);
    let mut nodes = LabelMap::new();
    nodes.insert("disk".to_string(), "ssd".to_string());
    spec.node_selector = Some(nodes);
    let group = replica_group(&spec, "orders", "prod");
    assert_eq!(group.name, "orders");
    assert_eq!(group.namespace, "prod");
    assert_eq!(group.replicas, 4);
    assert_eq!(group.service_name, "orders-headless");
    assert_eq!(group.config_volume, "config");
    assert_eq!(group.config_artifact, "orders-config");
    assert_eq!(group.volume_claim.name, "data");
    assert_eq!(group.volume_claim.access_mode, "ReadWriteOnce");
    assert_eq!(group.volume_claim.storage, "100Gi");
    assert_eq!(label(group.pod_annotations.as_ref().unwrap(), "note"), Some("yes".to_string()));
    assert_eq!(label(group.node_selector.as_ref().unwrap(), "disk"), Some("ssd".to_string()));
    assert_eq!(group.labels.entries().len(), 3);
    assert_eq!(group.selector.entries().len(), 2);
    let c = &group.container;
    assert_eq!(c.name, "shazamq");
    assert_eq!(c.image, "registry.local/shazamq:0.1.1-rc1");
    assert_eq!(c.image_pull_policy, "Always");
    assert_eq!(c.ports.len(), 2);
    assert_eq!((c.ports[0].name.as_str(), c.ports[0].container_port), ("kafka", 9092));
    assert_eq!((c.ports[1].name.as_str(), c.ports[1].container_port), ("metrics", 9090));
    assert_eq!(c.env.len(), 1);
    assert_eq!((c.env[0].name.as_str(), c.env[0].value.as_str()), ("RUST_LOG", "info"));
    assert_eq!(c.volume_mounts.len(), 2);
    assert_eq!(c.volume_mounts[0].name, "data");
    assert_eq!(c.volume_mounts[0].mount_path, "/data/shazamq");
    assert!(!c.volume_mounts[0].read_only);
    assert_eq!(c.volume_mounts[1].name, "config");
    assert_eq!(c.volume_mounts[1].mount_path, "/etc/shazamq");
    assert!(c.volume_mounts[1].read_only);
    assert_eq!(c.args, vec!["--config".to_string(), "/etc/shazamq/config.toml".to_string()]);
}

#[test]
fn mirroring_flag_only_where_switched_on() {
    let mut spec = ShazamqClusterSpec::with_defaults(1);
    spec.mirror = Some(MirrorConfig { enabled: true, sources: vec![] });
    let group = replica_group(&spec, "orders", "prod");
    assert_eq!(group.container.env.len(), 2);
    assert_eq!(group.container.env[0].name, "RUST_LOG");
    assert_eq!(group.container.env[1].name, "SHAZAMQ_MIRROR_ENABLED");
    assert_eq!(group.container.env[1].value, "true");
    spec.mirror = Some(MirrorConfig { enabled: false, sources: vec![] });
    let group = replica_group(&spec, "orders", "prod");
    assert_eq!(group.container.env.len(), 1);
}

#[test]
fn replica_labels_keep_the_selector() {
    let mut spec = ShazamqClusterSpec::with_defaults(2);
    let mut user = LabelMap::new();
    user.insert("app".to_string(), "mine".to_string());
    user.insert("shazamq.io/cluster".to_string(), "mine".to_string());
    user.insert("tier".to_string(), "gold".to_string());
    spec.pod_labels = Some(user);
    let group = replica_group(&spec, "orders", "prod");
    assert_eq!(label(&group.pod_labels, "app"), Some("shazamq".to_string()));
    assert_eq!(label(&group.pod_labels, "shazamq.io/cluster"), Some("orders".to_string()));
    assert_eq!(label(&group.pod_labels, "tier"), Some("gold".to_string()));
    for entry in group.selector.entries() {
        assert_eq!(group.pod_labels.get(&entry.key), Some(&entry.value));
    }
}

#[test]
fn synthesis_twice_gives_the_same() {
    let mut spec = ShazamqClusterSpec::with_defaults(3);
    let mut user = LabelMap::new();
    user.insert("tier".to_string(), "gold".to_string());
    spec.pod_labels = Some(user);
    let a = format!(
        "{:?}{:?}{:?}{:?}",
        config_artifact(&spec, "n", "ns"),
        client_endpoint(&spec, "n", "ns"),
        discovery_endpoint("n", "ns"),
        replica_group(&spec, "n", "ns")
    );
    let b = format!(
        "{:?}{:?}{:?}{:?}",
        config_artifact(&spec, "n", "ns"),
        client_endpoint(&spec, "n", "ns"),
        discovery_endpoint("n", "ns"),
        replica_group(&spec, "n", "ns")
    );
    assert_eq!(a, b);
}
