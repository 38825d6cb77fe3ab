//! The subordinate objects of a cluster, described as plain data: the
//! configuration artifact, the two endpoints and the replica group.

use crate::labels::LabelMap;
use vstd::prelude::*;

verus! {

/// One named port of an endpoint.
#[derive(Debug, Clone)]
pub struct PortDescriptor {
    pub name: String,
    /// The port that clients reach.
    pub port: i32,
    /// The port of the replica behind it, where one is fixed.
    pub target_port: Option<i32>,
}

/// What a [`PortDescriptor`] holds, as mathematical values.
pub struct PortDescriptorView {
    pub name: Seq<char>,
    pub port: i32,
    pub target_port: Option<i32>,
}

impl DeepView for PortDescriptor {
    type V = PortDescriptorView;

    open spec fn deep_view(&self) -> PortDescriptorView {
        PortDescriptorView {
            name: self.name.deep_view(),
            port: self.port.deep_view(),
            target_port: self.target_port.deep_view(),
        }
    }
}

/// The generated configuration of a cluster: one named file of text.
#[derive(Debug, Clone)]
pub struct ConfigArtifact {
    pub name: String,
    pub namespace: String,
    pub labels: LabelMap,
    /// The name of the file inside the artifact.
    pub file_name: String,
    /// What the file holds.
    pub text: String,
}

/// What a [`ConfigArtifact`] holds, as mathematical values.
pub struct ConfigArtifactView {
    pub name: Seq<char>,
    pub namespace: Seq<char>,
    pub labels: Map<Seq<char>, Seq<char>>,
    pub file_name: Seq<char>,
    pub text: Seq<char>,
}

impl DeepView for ConfigArtifact {
    type V = ConfigArtifactView;

    open spec fn deep_view(&self) -> ConfigArtifactView {
        ConfigArtifactView {
            name: self.name.deep_view(),
            namespace: self.namespace.deep_view(),
            labels: self.labels.deep_view(),
            file_name: self.file_name.deep_view(),
            text: self.text.deep_view(),
        }
    }
}

/// A network endpoint in front of the replicas.
#[derive(Debug, Clone)]
pub struct EndpointDescriptor {
    pub name: String,
    pub namespace: String,
    pub labels: LabelMap,
    /// The kind of endpoint, where one is asked for.
    pub service_type: Option<String>,
    /// `None` as text for an endpoint without a load-balanced address.
    pub cluster_ip: Option<String>,
    /// The labels by which the endpoint finds its replicas.
    pub selector: LabelMap,
    pub ports: Vec<PortDescriptor>,
}

/// What a [`EndpointDescriptor`] holds, as mathematical values.
pub struct EndpointDescriptorView {
    pub name: Seq<char>,
    pub namespace: Seq<char>,
    pub labels: Map<Seq<char>, Seq<char>>,
    pub service_type: Option<Seq<char>>,
    pub cluster_ip: Option<Seq<char>>,
    pub selector: Map<Seq<char>, Seq<char>>,
    pub ports: Seq<PortDescriptorView>,
}

impl DeepView for EndpointDescriptor {
    type V = EndpointDescriptorView;

    open spec fn deep_view(&self) -> EndpointDescriptorView {
        EndpointDescriptorView {
            name: self.name.deep_view(),
            namespace: self.namespace.deep_view(),
            labels: self.labels.deep_view(),
            service_type: self.service_type.deep_view(),
            cluster_ip: self.cluster_ip.deep_view(),
            selector: self.selector.deep_view(),
            ports: self.ports.deep_view(),
        }
    }
}

/// One environment variable of the broker process.
#[derive(Debug, Clone)]
pub struct EnvSetting {
    pub name: String,
    pub value: String,
}

/// What a [`EnvSetting`] holds, as mathematical values.
pub struct EnvSettingView {
    pub name: Seq<char>,
    pub value: Seq<char>,
}

impl DeepView for EnvSetting {
    type V = EnvSettingView;

    open spec fn deep_view(&self) -> EnvSettingView {
        EnvSettingView {
            name: self.name.deep_view(),
            value: self.value.deep_view(),
        }
    }
}

/// One named port that the broker process listens on.
#[derive(Debug, Clone)]
pub struct ContainerPortDescriptor {
    pub name: String,
    pub container_port: i32,
}

/// What a [`ContainerPortDescriptor`] holds, as mathematical values.
pub struct ContainerPortDescriptorView {
    pub name: Seq<char>,
    pub container_port: i32,
}

impl DeepView for ContainerPortDescriptor {
    type V = ContainerPortDescriptorView;

    open spec fn deep_view(&self) -> ContainerPortDescriptorView {
        ContainerPortDescriptorView {
            name: self.name.deep_view(),
            container_port: self.container_port.deep_view(),
        }
    }
}

/// Where a volume appears inside a replica.
#[derive(Debug, Clone)]
pub struct MountDescriptor {
    /// The volume.
    pub name: String,
    pub mount_path: String,
    pub read_only: bool,
}

/// What a [`MountDescriptor`] holds, as mathematical values.
pub struct MountDescriptorView {
    pub name: Seq<char>,
    pub mount_path: Seq<char>,
    pub read_only: bool,
}

impl DeepView for MountDescriptor {
    type V = MountDescriptorView;

    open spec fn deep_view(&self) -> MountDescriptorView {
        MountDescriptorView {
            name: self.name.deep_view(),
            mount_path: self.mount_path.deep_view(),
            read_only: self.read_only.deep_view(),
        }
    }
}

/// The broker process of a replica.
#[derive(Debug, Clone)]
pub struct ContainerDescriptor {
    pub name: String,
    /// Image and version, with a colon between them.
    pub image: String,
    pub image_pull_policy: String,
    pub ports: Vec<ContainerPortDescriptor>,
    pub env: Vec<EnvSetting>,
    pub volume_mounts: Vec<MountDescriptor>,
    pub args: Vec<String>,
}

/// What a [`ContainerDescriptor`] holds, as mathematical values.
pub struct ContainerDescriptorView {
    pub name: Seq<char>,
    pub image: Seq<char>,
    pub image_pull_policy: Seq<char>,
    pub ports: Seq<ContainerPortDescriptorView>,
    pub env: Seq<EnvSettingView>,
    pub volume_mounts: Seq<MountDescriptorView>,
    pub args: Seq<Seq<char>>,
}

impl DeepView for ContainerDescriptor {
    type V = ContainerDescriptorView;

    open spec fn deep_view(&self) -> ContainerDescriptorView {
        ContainerDescriptorView {
            name: self.name.deep_view(),
            image: self.image.deep_view(),
            image_pull_policy: self.image_pull_policy.deep_view(),
            ports: self.ports.deep_view(),
            env: self.env.deep_view(),
            volume_mounts: self.volume_mounts.deep_view(),
            args: self.args.deep_view(),
        }
    }
}

/// The durable volume that each replica gets for itself.
#[derive(Debug, Clone)]
pub struct VolumeClaimDescriptor {
    pub name: String,
    pub access_mode: String,
    /// Its capacity.
    pub storage: String,
}

/// What a [`VolumeClaimDescriptor`] holds, as mathematical values.
pub struct VolumeClaimDescriptorView {
    pub name: Seq<char>,
    pub access_mode: Seq<char>,
    pub storage: Seq<char>,
}

impl DeepView for VolumeClaimDescriptor {
    type V = VolumeClaimDescriptorView;

    open spec fn deep_view(&self) -> VolumeClaimDescriptorView {
        VolumeClaimDescriptorView {
            name: self.name.deep_view(),
            access_mode: self.access_mode.deep_view(),
            storage: self.storage.deep_view(),
        }
    }
}

/// The ordered group of replicas with stable identities.
#[derive(Debug, Clone)]
pub struct ReplicaGroupDescriptor {
    pub name: String,
    pub namespace: String,
    pub labels: LabelMap,
    /// The size of the group.
    pub replicas: i32,
    /// The labels by which the group finds its replicas.
    pub selector: LabelMap,
    /// The discovery endpoint of the group.
    pub service_name: String,
    /// The labels of each replica.
    pub pod_labels: LabelMap,
    pub pod_annotations: Option<LabelMap>,
    pub node_selector: Option<LabelMap>,
    pub container: ContainerDescriptor,
    /// The name of the volume that holds the configuration.
    pub config_volume: String,
    /// The configuration artifact behind that volume.
    pub config_artifact: String,
    pub volume_claim: VolumeClaimDescriptor,
}

/// What a [`ReplicaGroupDescriptor`] holds, as mathematical values.
pub struct ReplicaGroupDescriptorView {
    pub name: Seq<char>,
    pub namespace: Seq<char>,
    pub labels: Map<Seq<char>, Seq<char>>,
    pub replicas: i32,
    pub selector: Map<Seq<char>, Seq<char>>,
    pub service_name: Seq<char>,
    pub pod_labels: Map<Seq<char>, Seq<char>>,
    pub pod_annotations: Option<Map<Seq<char>, Seq<char>>>,
    pub node_selector: Option<Map<Seq<char>, Seq<char>>>,
    pub container: ContainerDescriptorView,
    pub config_volume: Seq<char>,
    pub config_artifact: Seq<char>,
    pub volume_claim: VolumeClaimDescriptorView,
}

impl DeepView for ReplicaGroupDescriptor {
    type V = ReplicaGroupDescriptorView;

    open spec fn deep_view(&self) -> ReplicaGroupDescriptorView {
        ReplicaGroupDescriptorView {
            name: self.name.deep_view(),
            namespace: self.namespace.deep_view(),
            labels: self.labels.deep_view(),
            replicas: self.replicas.deep_view(),
            selector: self.selector.deep_view(),
            service_name: self.service_name.deep_view(),
            pod_labels: self.pod_labels.deep_view(),
            pod_annotations: self.pod_annotations.deep_view(),
            node_selector: self.node_selector.deep_view(),
            container: self.container.deep_view(),
            config_volume: self.config_volume.deep_view(),
            config_artifact: self.config_artifact.deep_view(),
            volume_claim: self.volume_claim.deep_view(),
        }
    }
}
} // verus!
