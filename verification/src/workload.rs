//! The Kubernetes objects the operator applies for a Sonarr instance, as
//! plain values. The program around the library turns each into the
//! corresponding Kubernetes API object.

use vstd::prelude::*;
use crate::crds::sonarr::{PodSecurityContext, Toleration};
use crate::meta::ObjectMetaPlan;
use crate::string_map::StringMap;

verus! {

/// A key of a secret or config map that an environment variable reads.
pub struct KeySelectorPlan {
    pub name: String,
    pub key: String,
    pub optional: Option<bool>,
}

/// The source of an environment variable's value.
pub struct EnvVarSourcePlan {
    pub secret_key_ref: Option<KeySelectorPlan>,
    pub config_map_key_ref: Option<KeySelectorPlan>,
}

/// An environment variable of a container.
pub struct EnvVarPlan {
    pub name: String,
    pub value: Option<String>,
    pub value_from: Option<EnvVarSourcePlan>,
}

/// A volume mounted into a container.
pub struct VolumeMountPlan {
    pub name: String,
    pub mount_path: String,
    pub sub_path: Option<String>,
    pub read_only: Option<bool>,
}

/// A volume backed by a claim.
pub struct ClaimSourcePlan {
    pub claim_name: String,
    pub read_only: Option<bool>,
}

/// A volume backed by a host path.
pub struct HostPathPlan {
    pub path: String,
    pub type_: Option<String>,
}

/// A volume backed by NFS.
pub struct NfsPlan {
    pub server: String,
    pub path: String,
    pub read_only: Option<bool>,
}

/// A scratch volume.
pub struct EmptyDirPlan {
    pub medium: Option<String>,
    pub size_limit: Option<String>,
}

/// A pod volume.
pub struct VolumePlan {
    pub name: String,
    pub persistent_volume_claim: Option<ClaimSourcePlan>,
    pub host_path: Option<HostPathPlan>,
    pub nfs: Option<NfsPlan>,
    pub empty_dir: Option<EmptyDirPlan>,
}

/// A port of a container.
pub struct ContainerPortPlan {
    pub container_port: i32,
    pub name: String,
    pub protocol: String,
}

/// An HTTP GET probe.
pub struct ProbePlan {
    pub path: String,
    pub port: i32,
    pub initial_delay_seconds: i32,
    pub period_seconds: i32,
    pub failure_threshold: Option<i32>,
}

/// Resource limits and requests; an empty map is left out.
pub struct ResourceRequirementsPlan {
    pub limits: Option<StringMap>,
    pub requests: Option<StringMap>,
}

/// A container of the pod.
pub struct ContainerPlan {
    pub name: String,
    pub image: String,
    pub image_pull_policy: Option<String>,
    pub command: Option<Vec<String>>,
    pub args: Option<Vec<String>>,
    pub ports: Option<Vec<ContainerPortPlan>>,
    pub env: Option<Vec<EnvVarPlan>>,
    pub volume_mounts: Vec<VolumeMountPlan>,
    pub resources: Option<ResourceRequirementsPlan>,
    pub liveness_probe: Option<ProbePlan>,
    pub readiness_probe: Option<ProbePlan>,
}

/// The Deployment that runs Sonarr.
pub struct DeploymentPlan {
    pub metadata: ObjectMetaPlan,
    pub replicas: i32,
    pub selector_labels: StringMap,
    pub template_labels: StringMap,
    pub init_containers: Option<Vec<ContainerPlan>>,
    pub containers: Vec<ContainerPlan>,
    pub volumes: Vec<VolumePlan>,
    pub node_selector: Option<StringMap>,
    pub tolerations: Option<Vec<Toleration>>,
    pub security_context: Option<PodSecurityContext>,
}

/// The claim for Sonarr's configuration directory.
pub struct PvcPlan {
    pub metadata: ObjectMetaPlan,
    pub access_modes: Vec<String>,
    pub storage_class_name: Option<String>,
    /// Requested storage size
    pub storage_request: String,
}

/// The secret holding a generated API key (as string data under `key`).
pub struct SecretPlan {
    pub metadata: ObjectMetaPlan,
    pub key: String,
    pub value: String,
}

/// The Service in front of Sonarr.
pub struct ServicePlan {
    pub metadata: ObjectMetaPlan,
    pub type_: String,
    pub selector: StringMap,
    pub port_name: String,
    pub port: i32,
    pub target_port: i32,
    pub node_port: Option<i32>,
    pub protocol: String,
}

/// TLS settings of an ingress.
pub struct IngressTlsPlan {
    pub hosts: Vec<String>,
    pub secret_name: String,
}

/// The Ingress that exposes Sonarr.
pub struct IngressPlan {
    pub metadata: ObjectMetaPlan,
    pub ingress_class_name: Option<String>,
    pub tls: Option<Vec<IngressTlsPlan>>,
    pub host: String,
    pub path: String,
    pub path_type: String,
    pub service_name: String,
    pub service_port: i32,
}

/// The Gateway a route attaches to.
pub struct ParentRefPlan {
    pub group: String,
    pub kind: String,
    pub name: String,
    pub namespace: Option<String>,
    pub section_name: Option<String>,
}

/// The Gateway API HTTPRoute that exposes Sonarr.
pub struct HttpRoutePlan {
    pub group: String,
    pub version: String,
    pub plural: String,
    pub api_version: String,
    pub kind: String,
    pub metadata: ObjectMetaPlan,
    pub parent_ref: ParentRefPlan,
    pub hostnames: Option<Vec<String>>,
    pub path_match_type: String,
    pub path_match_value: String,
    pub backend_kind: String,
    pub backend_name: String,
    pub backend_port: i32,
}

} // verus!
