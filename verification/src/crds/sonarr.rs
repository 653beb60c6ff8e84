//! The `Sonarr` resource: a Sonarr deployment managed by the operator.

use vstd::prelude::*;
use crate::crds::SecretKeySelector;
use crate::meta::{Condition, ObjectMeta};
use crate::string_map::StringMap;
use crate::text::{clone_opt_string, concat2, concat3, i32_to_string, int_to_decimal, string_of};

verus! {

/// Desired state of a Sonarr instance.
pub struct SonarrSpec {
    /// Sonarr image to use
    pub image: String,
    /// Image pull policy
    pub image_pull_policy: String,
    /// Number of replicas (should be 1 for Sonarr)
    pub replicas: i32,
    /// Storage configuration
    pub storage: StorageConfig,
    /// Service configuration
    pub service: ServiceConfig,
    /// Ingress configuration (optional)
    pub ingress: Option<IngressConfig>,
    /// HTTPRoute configuration for Gateway API (optional)
    pub http_route: Option<HTTPRouteConfig>,
    /// Environment variables
    pub env: Vec<EnvVar>,
    /// Resource requirements
    pub resources: Option<ResourceRequirements>,
    /// Volume mounts for media directories
    pub volume_mounts: Vec<VolumeMount>,
    /// Additional volumes
    pub volumes: Vec<Volume>,
    /// Node selector
    pub node_selector: StringMap,
    /// Tolerations
    pub tolerations: Vec<Toleration>,
    /// Pod security context
    pub security_context: Option<PodSecurityContext>,
    /// Init container configuration (for custom init logic)
    pub init_container: Option<InitContainerConfig>,
    /// API key secret reference (generated when absent)
    pub api_key_secret_ref: Option<SecretKeySelector>,
    /// Sonarr application configuration (config.xml settings)
    pub config: SonarrConfig,
}

/// Settings written into Sonarr's config.xml by the init container.
pub struct SonarrConfig {
    /// Init container image used to configure config.xml (default: busybox:latest)
    pub init_container_image: Option<String>,
    /// URL base for reverse proxy setups
    pub url_base: Option<String>,
    /// Bind address
    pub bind_address: Option<String>,
    /// Log level
    pub log_level: Option<String>,
    /// Instance name displayed in the UI
    pub instance_name: Option<String>,
    /// Authentication method
    pub authentication_method: Option<String>,
    /// Authentication required for API access
    pub authentication_required: Option<bool>,
    /// Analytics enabled
    pub analytics_enabled: Option<bool>,
}

impl Default for SonarrConfig {
    fn default() -> (r: SonarrConfig)
        ensures
            r.init_container_image.is_none(),
            r.url_base.is_none(),
            r.bind_address.is_none(),
            r.log_level.is_none(),
            r.instance_name.is_none(),
            r.authentication_method.is_none(),
            r.authentication_required.is_none(),
            r.analytics_enabled.is_none(),
    {
        SonarrConfig {
            init_container_image: None,
            url_base: None,
            bind_address: None,
            log_level: None,
            instance_name: None,
            authentication_method: None,
            authentication_required: None,
            analytics_enabled: None,
        }
    }
}

/// Storage of Sonarr's configuration directory.
pub struct StorageConfig {
    /// Storage class for the PVC
    pub storage_class: Option<String>,
    /// Size of the config PVC
    pub size: String,
    /// Access modes
    pub access_modes: Vec<String>,
    /// Existing PVC to use (optional)
    pub existing_claim: Option<String>,
}

impl Default for StorageConfig {
    fn default() -> (r: StorageConfig)
        ensures
            r.storage_class.is_none(),
            r.size@ == "1Gi"@,
            r.access_modes@.len() == 1,
            r.access_modes@[0]@ == "ReadWriteOnce"@,
            r.existing_claim.is_none(),
    {
        StorageConfig {
            storage_class: None,
            size: default_storage_size(),
            access_modes: default_access_modes(),
            existing_claim: None,
        }
    }
}

/// How Sonarr is exposed inside the cluster.
pub struct ServiceConfig {
    /// Service type
    pub service_type: String,
    /// Service port
    pub port: i32,
    /// Port Sonarr listens on inside the container
    pub container_port: i32,
    /// Node port (only for NodePort type)
    pub node_port: Option<i32>,
    /// Service annotations
    pub annotations: StringMap,
}

impl Default for ServiceConfig {
    fn default() -> (r: ServiceConfig)
        ensures
            r.service_type@ == "ClusterIP"@,
            r.port == 8989,
            r.container_port == 8989,
            r.node_port.is_none(),
            r.annotations@ == Map::<Seq<char>, Seq<char>>::empty(),
    {
        ServiceConfig {
            service_type: default_service_type(),
            port: default_service_port(),
            container_port: default_container_port(),
            node_port: None,
            annotations: StringMap::new(),
        }
    }
}

/// Ingress for external access.
pub struct IngressConfig {
    /// Enable ingress
    pub enabled: bool,
    /// Ingress class name
    pub ingress_class_name: Option<String>,
    /// Hostname for the ingress
    pub host: String,
    /// Path for the ingress
    pub path: String,
    /// Path type
    pub path_type: String,
    /// TLS configuration
    pub tls: Option<IngressTLS>,
    /// Ingress annotations
    pub annotations: StringMap,
}

/// TLS settings of an ingress.
pub struct IngressTLS {
    /// Secret name containing TLS certificate
    pub secret_name: String,
    /// Hosts covered by the TLS certificate
    pub hosts: Vec<String>,
}

/// HTTPRoute configuration for Gateway API.
pub struct HTTPRouteConfig {
    /// Enable HTTPRoute creation
    pub enabled: bool,
    /// Gateway to attach to
    pub gateway_ref: GatewayRef,
    /// Hostnames for the HTTPRoute
    pub hostnames: Vec<String>,
    /// Path match for the route
    pub path: String,
    /// Path match type: Exact, PathPrefix, or RegularExpression
    pub path_type: String,
    /// Additional labels for the HTTPRoute
    pub labels: StringMap,
    /// Additional annotations for the HTTPRoute
    pub annotations: StringMap,
}

/// Gateway reference for an HTTPRoute.
pub struct GatewayRef {
    /// Name of the Gateway
    pub name: String,
    /// Namespace of the Gateway
    pub namespace: Option<String>,
    /// Section name within the Gateway
    pub section_name: Option<String>,
}

/// An environment variable of the Sonarr container.
pub struct EnvVar {
    /// Name of the environment variable
    pub name: String,
    /// Value of the environment variable
    pub value: Option<String>,
    /// Reference to a secret or configmap
    pub value_from: Option<EnvVarSource>,
}

/// Where an environment variable's value comes from.
pub struct EnvVarSource {
    /// Secret key reference
    pub secret_key_ref: Option<SecretKeySelector>,
    /// ConfigMap key reference
    pub config_map_key_ref: Option<ConfigMapKeySelector>,
}

/// A key in a ConfigMap.
pub struct ConfigMapKeySelector {
    /// Name of the configmap
    pub name: String,
    /// Key in the configmap
    pub key: String,
}

/// Resource limits and requests.
pub struct ResourceRequirements {
    /// Resource limits
    pub limits: StringMap,
    /// Resource requests
    pub requests: StringMap,
}

/// A volume mounted into the Sonarr container.
pub struct VolumeMount {
    /// Name of the volume
    pub name: String,
    /// Mount path inside the container
    pub mount_path: String,
    /// Sub path (optional)
    pub sub_path: Option<String>,
    /// Read only flag
    pub read_only: bool,
}

/// An additional pod volume.
pub struct Volume {
    /// Name of the volume
    pub name: String,
    /// PVC claim
    pub persistent_volume_claim: Option<PersistentVolumeClaimVolumeSource>,
    /// HostPath volume
    pub host_path: Option<HostPathVolumeSource>,
    /// NFS volume
    pub nfs: Option<NFSVolumeSource>,
    /// ConfigMap volume
    pub config_map: Option<ConfigMapVolumeSource>,
    /// Empty dir volume
    pub empty_dir: Option<EmptyDirVolumeSource>,
}

/// A volume backed by a claim.
pub struct PersistentVolumeClaimVolumeSource {
    pub claim_name: String,
    pub read_only: bool,
}

/// A volume backed by a host path.
pub struct HostPathVolumeSource {
    pub path: String,
    pub host_path_type: Option<String>,
}

/// A volume backed by NFS.
pub struct NFSVolumeSource {
    pub server: String,
    pub path: String,
    pub read_only: bool,
}

/// A volume backed by a ConfigMap.
pub struct ConfigMapVolumeSource {
    pub name: String,
    pub items: Vec<KeyToPath>,
}

/// A ConfigMap key projected to a path.
pub struct KeyToPath {
    pub key: String,
    pub path: String,
}

/// A scratch volume.
pub struct EmptyDirVolumeSource {
    pub medium: Option<String>,
    pub size_limit: Option<String>,
}

impl Default for EmptyDirVolumeSource {
    fn default() -> (r: EmptyDirVolumeSource)
        ensures
            r.medium.is_none(),
            r.size_limit.is_none(),
    {
        EmptyDirVolumeSource { medium: None, size_limit: None }
    }
}

/// A pod toleration.
pub struct Toleration {
    pub key: Option<String>,
    pub operator: Option<String>,
    pub value: Option<String>,
    pub effect: Option<String>,
    pub toleration_seconds: Option<i64>,
}

impl Clone for Toleration {
    fn clone(&self) -> (r: Toleration)
        ensures
            r == *self,
    {
        Toleration {
            key: clone_opt_string(&self.key),
            operator: clone_opt_string(&self.operator),
            value: clone_opt_string(&self.value),
            effect: clone_opt_string(&self.effect),
            toleration_seconds: self.toleration_seconds,
        }
    }
}

/// Pod-level security settings.
#[derive(Clone, Copy)]
pub struct PodSecurityContext {
    pub run_as_user: Option<i64>,
    pub run_as_group: Option<i64>,
    pub fs_group: Option<i64>,
    pub run_as_non_root: Option<bool>,
}

/// A user-defined init container.
pub struct InitContainerConfig {
    /// Image for init container
    pub image: String,
    /// Command to run in init container
    pub command: Vec<String>,
    /// Arguments for the command
    pub args: Vec<String>,
    /// Environment variables for init container
    pub env: Vec<EnvVar>,
}

/// Observed state of a Sonarr instance.
pub struct SonarrStatus {
    /// Current conditions
    pub conditions: Vec<Condition>,
    /// URL to access Sonarr
    pub url: Option<String>,
    /// Name of the secret that holds the API key
    pub api_key_secret: Option<String>,
    /// Observed generation
    pub observed_generation: i64,
    /// Number of ready replicas
    pub ready_replicas: i32,
    /// Sonarr version
    pub version: Option<String>,
}

/// A Sonarr resource: metadata, desired state and observed state.
pub struct Sonarr {
    pub metadata: ObjectMeta,
    pub spec: SonarrSpec,
    pub status: Option<SonarrStatus>,
}

/// Default Sonarr image.
pub fn default_image() -> (s: String)
    ensures
        s@ == "lscr.io/linuxserver/sonarr:latest"@,
{
    string_of("lscr.io/linuxserver/sonarr:latest")
}

/// Default image pull policy.
pub fn default_image_pull_policy() -> (s: String)
    ensures
        s@ == "IfNotPresent"@,
{
    string_of("IfNotPresent")
}

/// Default number of replicas.
pub fn default_replicas() -> (n: i32)
    ensures
        n == 1,
{
    1
}

/// Default size of the config claim.
pub fn default_storage_size() -> (s: String)
    ensures
        s@ == "1Gi"@,
{
    string_of("1Gi")
}

/// Default access modes of the config claim.
pub fn default_access_modes() -> (v: Vec<String>)
    ensures
        v@.len() == 1,
        v@[0]@ == "ReadWriteOnce"@,
{
    let mut v = Vec::new();
    v.push(string_of("ReadWriteOnce"));
    v
}

/// Default service type.
pub fn default_service_type() -> (s: String)
    ensures
        s@ == "ClusterIP"@,
{
    string_of("ClusterIP")
}

/// Default service port.
pub fn default_service_port() -> (n: i32)
    ensures
        n == 8989,
{
    8989
}

/// Default port Sonarr listens on.
pub fn default_container_port() -> (n: i32)
    ensures
        n == 8989,
{
    8989
}

/// Default ingress path.
pub fn default_ingress_path() -> (s: String)
    ensures
        s@ == "/"@,
{
    string_of("/")
}

/// Default ingress path type.
pub fn default_path_type() -> (s: String)
    ensures
        s@ == "Prefix"@,
{
    string_of("Prefix")
}

/// Default HTTPRoute path.
pub fn default_http_route_path() -> (s: String)
    ensures
        s@ == "/"@,
{
    string_of("/")
}

/// Default HTTPRoute path match type.
pub fn default_http_route_path_type() -> (s: String)
    ensures
        s@ == "PathPrefix"@,
{
    string_of("PathPrefix")
}

/// Default image of a user-defined init container.
pub fn default_init_image() -> (s: String)
    ensures
        s@ == "busybox:latest"@,
{
    string_of("busybox:latest")
}

impl Default for SonarrSpec {
    fn default() -> (r: SonarrSpec)
        ensures
            r.image@ == "lscr.io/linuxserver/sonarr:latest"@,
            r.image_pull_policy@ == "IfNotPresent"@,
            r.replicas == 1,
            r.storage.storage_class.is_none(),
            r.storage.size@ == "1Gi"@,
            r.storage.access_modes@.len() == 1,
            r.storage.access_modes@[0]@ == "ReadWriteOnce"@,
            r.storage.existing_claim.is_none(),
            r.service.service_type@ == "ClusterIP"@,
            r.service.port == 8989,
            r.service.container_port == 8989,
            r.service.node_port.is_none(),
            r.service.annotations@ == Map::<Seq<char>, Seq<char>>::empty(),
            r.ingress.is_none(),
            r.http_route.is_none(),
            r.env@.len() == 0,
            r.resources.is_none(),
            r.volume_mounts@.len() == 0,
            r.volumes@.len() == 0,
            r.node_selector@ == Map::<Seq<char>, Seq<char>>::empty(),
            r.tolerations@.len() == 0,
            r.security_context.is_none(),
            r.init_container.is_none(),
            r.api_key_secret_ref.is_none(),
            r.config.init_container_image.is_none(),
            r.config.url_base.is_none(),
            r.config.bind_address.is_none(),
            r.config.log_level.is_none(),
            r.config.instance_name.is_none(),
            r.config.authentication_method.is_none(),
            r.config.authentication_required.is_none(),
            r.config.analytics_enabled.is_none(),
    {
        SonarrSpec {
            image: default_image(),
            image_pull_policy: default_image_pull_policy(),
            replicas: default_replicas(),
            storage: StorageConfig::default(),
            service: ServiceConfig::default(),
            ingress: None,
            http_route: None,
            env: Vec::new(),
            resources: None,
            volume_mounts: Vec::new(),
            volumes: Vec::new(),
            node_selector: StringMap::new(),
            tolerations: Vec::new(),
            security_context: None,
            init_container: None,
            api_key_secret_ref: None,
            config: SonarrConfig::default(),
        }
    }
}

/// The name of the instance, or "unknown" when it has none.
pub open spec fn instance_name(s: Sonarr) -> Seq<char> {
    match s.metadata.name {
        Some(n) => n@,
        None => "unknown"@,
    }
}

/// The port of the service: the configured one, 8989 when it is zero.
pub open spec fn spec_service_port(s: Sonarr) -> i32 {
    if s.spec.service.port == 0 { 8989 } else { s.spec.service.port }
}

/// The port Sonarr listens on: the configured one, 8989 when it is zero.
pub open spec fn spec_container_port(s: Sonarr) -> i32 {
    if s.spec.service.container_port == 0 { 8989 } else { s.spec.service.container_port }
}

/// The name of the service (and of the deployment) of an instance.
pub open spec fn spec_service_name(s: Sonarr) -> Seq<char> {
    instance_name(s) + "-sonarr"@
}

/// The name of the API key secret that the operator generates.
pub open spec fn spec_api_key_secret_name(s: Sonarr) -> Seq<char> {
    instance_name(s) + "-sonarr-apikey"@
}

/// The in-cluster URL of an instance in `namespace`.
pub open spec fn spec_internal_url(s: Sonarr, namespace: Seq<char>) -> Seq<char> {
    "http://"@ + spec_service_name(s) + "."@ + namespace + ".svc.cluster.local:"@
        + int_to_decimal(spec_service_port(s) as int)
}

impl Sonarr {
    fn name_or_unknown(&self) -> (s: &str)
        ensures
            s@ == instance_name(*self),
    {
        match &self.metadata.name {
            Some(n) => n.as_str(),
            None => "unknown",
        }
    }

    /// Get the service port (default: 8989)
    pub fn service_port(&self) -> (p: i32)
        ensures
            p == spec_service_port(*self),
    {
        if self.spec.service.port == 0 {
            8989
        } else {
            self.spec.service.port
        }
    }

    /// Get the container port (default: 8989)
    pub fn container_port(&self) -> (p: i32)
        ensures
            p == spec_container_port(*self),
    {
        if self.spec.service.container_port == 0 {
            8989
        } else {
            self.spec.service.container_port
        }
    }

    /// Get the service type (default: ClusterIP)
    pub fn service_type(&self) -> (t: String)
        ensures
            t@ == (if self.spec.service.service_type@.len() == 0 { "ClusterIP"@ } else {
                self.spec.service.service_type@
            }),
    {
        if self.spec.service.service_type.as_str().unicode_len() == 0 {
            string_of("ClusterIP")
        } else {
            self.spec.service.service_type.clone()
        }
    }

    /// Get the service name for this instance
    pub fn service_name(&self) -> (n: String)
        ensures
            n@ == spec_service_name(*self),
    {
        concat2(self.name_or_unknown(), "-sonarr")
    }

    /// Get the deployment name for this instance
    pub fn deployment_name(&self) -> (n: String)
        ensures
            n@ == instance_name(*self) + "-sonarr"@,
    {
        concat2(self.name_or_unknown(), "-sonarr")
    }

    /// Get the PVC name for this instance
    pub fn pvc_name(&self) -> (n: String)
        ensures
            n@ == instance_name(*self) + "-sonarr-config"@,
    {
        concat2(self.name_or_unknown(), "-sonarr-config")
    }

    /// Get the secret name for API key
    pub fn api_key_secret_name(&self) -> (n: String)
        ensures
            n@ == spec_api_key_secret_name(*self),
    {
        concat2(self.name_or_unknown(), "-sonarr-apikey")
    }

    /// Get the internal URL for Sonarr
    pub fn internal_url(&self, namespace: &str) -> (u: String)
        ensures
            u@ == spec_internal_url(*self, namespace@),
    {
        let head = concat2("http://", self.service_name().as_str());
        let mid = concat3(head.as_str(), ".", namespace);
        let port = i32_to_string(self.service_port());
        concat3(mid.as_str(), ".svc.cluster.local:", port.as_str())
    }
}

impl Default for SonarrStatus {
    /// Every setting unset: empty, absent, false or zero.
    fn default() -> (r: SonarrStatus)
        ensures
            r.conditions@.len() == 0,
            r.url is None,
            r.api_key_secret is None,
            r.observed_generation == 0,
            r.ready_replicas == 0,
            r.version is None,
    {
        SonarrStatus {
            conditions: Vec::new(),
            url: None,
            api_key_secret: None,
            observed_generation: 0,
            ready_replicas: 0,
            version: None,
        }
    }
}

} // verus!
