//! The Deployment that runs a Sonarr instance, built from its spec.

use vstd::prelude::*;
use crate::crds::sonarr::{
    instance_name, spec_api_key_secret_name, spec_container_port, EnvVar,
    InitContainerConfig, ResourceRequirements, Sonarr, Toleration, Volume, VolumeMount,
};
use crate::error::Error;
use crate::meta::{ObjectMetaPlan, OwnerReference};
use crate::string_map::StringMap;
use crate::text::{clone_opt_string, clone_strings, i32_to_string, int_to_decimal, string_of};
use crate::workload::{
    ClaimSourcePlan, ContainerPlan, ContainerPortPlan, DeploymentPlan, EmptyDirPlan, EnvVarPlan,
    EnvVarSourcePlan, HostPathPlan, KeySelectorPlan, NfsPlan, ProbePlan, ResourceRequirementsPlan,
    VolumeMountPlan, VolumePlan,
};

verus! {

/// Script run by the init container: it creates config.xml when missing and
/// writes the API key and the settings passed in the environment into it.
pub const CONFIG_SCRIPT: &'static str = r#"#!/bin/sh
set -e
CONFIG_FILE="/config/config.xml"
API_KEY="${SONARR_API_KEY}"

if [ -z "$API_KEY" ]; then
    echo "Error: SONARR_API_KEY environment variable is not set"
    exit 1
fi

# Function to set or update an XML element using sed
set_config_value() {
    element="$1"
    value="$2"

    if grep -q "<${element}>" "$CONFIG_FILE"; then
        # Element exists, update it
        sed -i "s|<${element}>.*</${element}>|<${element}>${value}</${element}>|g" "$CONFIG_FILE"
        echo "Updated ${element}"
    else
        # Element doesn't exist, add it before </Config>
        sed -i "s|</Config>|  <${element}>${value}</${element}>\n</Config>|" "$CONFIG_FILE"
        echo "Added ${element}"
    fi
}

if [ ! -f "$CONFIG_FILE" ]; then
    # Create minimal config.xml
    cat > "$CONFIG_FILE" << 'XMLEOF'
<?xml version="1.0" encoding="utf-8"?>
<Config>
  <LogLevel>info</LogLevel>
  <UrlBase></UrlBase>
  <BindAddress>*</BindAddress>
  <Port>8989</Port>
  <SslPort>9898</SslPort>
  <EnableSsl>False</EnableSsl>
  <LaunchBrowser>False</LaunchBrowser>
  <AuthenticationMethod>None</AuthenticationMethod>
  <UpdateMechanism>Docker</UpdateMechanism>
  <InstanceName>Sonarr</InstanceName>
</Config>
XMLEOF
    echo "Created new config.xml"
fi

# Set the API key
set_config_value "ApiKey" "$API_KEY"

# Set additional config values from environment if provided
[ -n "$SONARR_PORT" ] && set_config_value "Port" "$SONARR_PORT"
[ -n "$SONARR_URL_BASE" ] && set_config_value "UrlBase" "$SONARR_URL_BASE"
[ -n "$SONARR_BIND_ADDRESS" ] && set_config_value "BindAddress" "$SONARR_BIND_ADDRESS"
[ -n "$SONARR_LOG_LEVEL" ] && set_config_value "LogLevel" "$SONARR_LOG_LEVEL"
[ -n "$SONARR_INSTANCE_NAME" ] && set_config_value "InstanceName" "$SONARR_INSTANCE_NAME"
[ -n "$SONARR_AUTH_METHOD" ] && set_config_value "AuthenticationMethod" "$SONARR_AUTH_METHOD"
[ -n "$SONARR_AUTH_REQUIRED" ] && set_config_value "AuthenticationRequired" "$SONARR_AUTH_REQUIRED"
[ -n "$SONARR_ANALYTICS" ] && set_config_value "AnalyticsEnabled" "$SONARR_ANALYTICS"

# Ensure proper permissions
chmod 644 "$CONFIG_FILE"
echo "Config initialization complete"
"#;

// ---------------------------------------------------------------------------
// What the Deployment holds, stated over the spec.
// ---------------------------------------------------------------------------

/// A user environment variable is passed on when it has a value or a source.
pub open spec fn env_kept(e: EnvVar) -> bool {
    e.value is Some || e.value_from is Some
}

/// The user environment variables passed to the Sonarr container, in order.
pub open spec fn kept_env(env: Seq<EnvVar>) -> Seq<EnvVar> {
    env.filter(|e: EnvVar| env_kept(e))
}

/// A key selector for `name`/`key` that is not optional.
pub open spec fn selects(p: KeySelectorPlan, name: String, key: String) -> bool {
    p.name == name && p.key == key && p.optional == Some(false)
}

/// `p` passes on the user variable `e`: its value when it has one, else the
/// secret key it reads, else the config map key it reads.
pub open spec fn env_planned(p: EnvVarPlan, e: EnvVar) -> bool {
    &&& p.name == e.name
    &&& match e.value {
        Some(v) => p.value == Some(v) && p.value_from is None,
        None => p.value is None && match e.value_from {
            Some(vf) => match vf.secret_key_ref {
                Some(sk) => p.value_from is Some && p.value_from->0.config_map_key_ref is None
                    && p.value_from->0.secret_key_ref is Some
                    && selects(p.value_from->0.secret_key_ref->0, sk.name, sk.key),
                None => match vf.config_map_key_ref {
                    Some(cm) => p.value_from is Some && p.value_from->0.secret_key_ref is None
                        && p.value_from->0.config_map_key_ref is Some
                        && selects(p.value_from->0.config_map_key_ref->0, cm.name, cm.key),
                    None => p.value_from is None,
                },
            },
            None => false,
        },
    }
}

/// `p` sets `name` to the plain value `value`.
pub open spec fn plain_env(p: EnvVarPlan, name: Seq<char>, value: Seq<char>) -> bool {
    p.name@ == name && p.value is Some && p.value->0@ == value && p.value_from is None
}

/// `ps` sets, in order, the plain (name, value) pairs of `es`.
pub open spec fn plain_envs(ps: Seq<EnvVarPlan>, es: Seq<(Seq<char>, Seq<char>)>) -> bool {
    ps.len() == es.len() && forall|i: int| 0 <= i < ps.len() ==> plain_env(#[trigger] ps[i], es[i].0, es[i].1)
}

/// The environment of the Sonarr container.
pub open spec fn main_env_planned(ps: Seq<EnvVarPlan>, env: Seq<EnvVar>) -> bool {
    let kept = kept_env(env);
    &&& ps.len() == 3 + kept.len()
    &&& plain_env(ps[0], "PUID"@, "1000"@)
    &&& plain_env(ps[1], "PGID"@, "1000"@)
    &&& plain_env(ps[2], "TZ"@, "Etc/UTC"@)
    &&& forall|i: int| 0 <= i < kept.len() ==> env_planned(#[trigger] ps[3 + i], kept[i])
}

/// A pair for an optional setting: present when the setting is.
pub open spec fn opt_pair(name: Seq<char>, v: Option<String>) -> Seq<(Seq<char>, Seq<char>)> {
    match v {
        Some(s) => seq![(name, s@)],
        None => Seq::empty(),
    }
}

/// A pair for an optional flag, written "True" or "False".
pub open spec fn opt_flag(name: Seq<char>, v: Option<bool>) -> Seq<(Seq<char>, Seq<char>)> {
    match v {
        Some(b) => seq![(name, if b { "True"@ } else { "False"@ })],
        None => Seq::empty(),
    }
}

/// The settings passed to the config init container, in order.
pub open spec fn config_env(s: Sonarr) -> Seq<(Seq<char>, Seq<char>)> {
    let port = spec_container_port(s);
    (if port != 8989 { seq![("SONARR_PORT"@, int_to_decimal(port as int))] } else { Seq::empty() })
        + opt_pair("SONARR_URL_BASE"@, s.spec.config.url_base)
        + opt_pair("SONARR_BIND_ADDRESS"@, s.spec.config.bind_address)
        + opt_pair("SONARR_LOG_LEVEL"@, s.spec.config.log_level)
        + opt_pair("SONARR_INSTANCE_NAME"@, s.spec.config.instance_name)
        + opt_pair("SONARR_AUTH_METHOD"@, s.spec.config.authentication_method)
        + opt_flag("SONARR_AUTH_REQUIRED"@, s.spec.config.authentication_required)
        + opt_flag("SONARR_ANALYTICS"@, s.spec.config.analytics_enabled)
}

/// The secret that holds the API key: the referenced one, else the one the
/// operator generates.
pub open spec fn api_key_secret_name_of(s: Sonarr) -> Seq<char> {
    match s.spec.api_key_secret_ref {
        Some(r) => r.name@,
        None => spec_api_key_secret_name(s),
    }
}

/// The key of the API key in its secret: the referenced one, else "api-key".
pub open spec fn api_key_secret_key_of(s: Sonarr) -> Seq<char> {
    match s.spec.api_key_secret_ref {
        Some(r) => r.key@,
        None => "api-key"@,
    }
}

/// The environment of the config init container: the API key from its
/// secret, then the settings.
pub open spec fn init_env_planned(ps: Seq<EnvVarPlan>, s: Sonarr) -> bool {
    &&& ps.len() >= 1
    &&& ps[0].name@ == "SONARR_API_KEY"@
    &&& ps[0].value is None
    &&& ps[0].value_from is Some
    &&& ps[0].value_from->0.config_map_key_ref is None
    &&& ps[0].value_from->0.secret_key_ref is Some
    &&& ps[0].value_from->0.secret_key_ref->0.name@ == api_key_secret_name_of(s)
    &&& ps[0].value_from->0.secret_key_ref->0.key@ == api_key_secret_key_of(s)
    &&& ps[0].value_from->0.secret_key_ref->0.optional == Some(false)
    &&& plain_envs(ps.drop_first(), config_env(s))
}

/// The mount of the config volume at /config.
pub open spec fn config_mount(p: VolumeMountPlan) -> bool {
    p.name@ == "config"@ && p.mount_path@ == "/config"@ && p.sub_path is None && p.read_only is None
}

/// `p` mounts what `m` asks for.
pub open spec fn mount_planned(p: VolumeMountPlan, m: VolumeMount) -> bool {
    p.name == m.name && p.mount_path == m.mount_path && p.sub_path == m.sub_path
        && p.read_only == Some(m.read_only)
}

/// The mounts of the Sonarr container: config first, then the user's.
pub open spec fn mounts_planned(ps: Seq<VolumeMountPlan>, ms: Seq<VolumeMount>) -> bool {
    &&& ps.len() == 1 + ms.len()
    &&& config_mount(ps[0])
    &&& forall|i: int| 0 <= i < ms.len() ==> mount_planned(#[trigger] ps[1 + i], ms[i])
}

/// `p` is the volume `v` (a config map source is not passed on).
pub open spec fn volume_planned(p: VolumePlan, v: Volume) -> bool {
    &&& p.name == v.name
    &&& match v.persistent_volume_claim {
        Some(c) => p.persistent_volume_claim is Some
            && p.persistent_volume_claim->0.claim_name == c.claim_name
            && p.persistent_volume_claim->0.read_only == Some(c.read_only),
        None => p.persistent_volume_claim is None,
    }
    &&& match v.host_path {
        Some(h) => p.host_path is Some && p.host_path->0.path == h.path
            && p.host_path->0.type_ == h.host_path_type,
        None => p.host_path is None,
    }
    &&& match v.nfs {
        Some(n) => p.nfs is Some && p.nfs->0.server == n.server && p.nfs->0.path == n.path
            && p.nfs->0.read_only == Some(n.read_only),
        None => p.nfs is None,
    }
    &&& match v.empty_dir {
        Some(e) => p.empty_dir is Some && p.empty_dir->0.medium == e.medium
            && p.empty_dir->0.size_limit == e.size_limit,
        None => p.empty_dir is None,
    }
}

/// The claim the config volume uses: the existing one, else the instance's.
pub open spec fn config_claim_of(s: Sonarr) -> Seq<char> {
    match s.spec.storage.existing_claim {
        Some(c) => c@,
        None => instance_name(s) + "-sonarr-config"@,
    }
}

/// The volumes of the pod: config first, then the user's.
pub open spec fn volumes_planned(ps: Seq<VolumePlan>, s: Sonarr) -> bool {
    let vs = s.spec.volumes@;
    &&& ps.len() == 1 + vs.len()
    &&& ps[0].name@ == "config"@
    &&& ps[0].persistent_volume_claim is Some
    &&& ps[0].persistent_volume_claim->0.claim_name@ == config_claim_of(s)
    &&& ps[0].persistent_volume_claim->0.read_only == Some(false)
    &&& ps[0].host_path is None && ps[0].nfs is None && ps[0].empty_dir is None
    &&& forall|i: int| 0 <= i < vs.len() ==> volume_planned(#[trigger] ps[1 + i], vs[i])
}

/// A map that is left out when empty.
pub open spec fn map_unless_empty(p: Option<StringMap>, m: Map<Seq<char>, Seq<char>>) -> bool {
    if m == Map::<Seq<char>, Seq<char>>::empty() {
        p is None
    } else {
        p is Some && p->0@ == m
    }
}

/// The resource requirements of the Sonarr container.
pub open spec fn resources_planned(p: Option<ResourceRequirementsPlan>, r: Option<ResourceRequirements>) -> bool {
    match r {
        Some(r) => p is Some && map_unless_empty(p->0.limits, r.limits@)
            && map_unless_empty(p->0.requests, r.requests@),
        None => p is None,
    }
}

/// An HTTP GET probe of /ping on `port`.
pub open spec fn ping_probe(p: ProbePlan, port: i32, delay: i32, period: i32, failures: Option<i32>) -> bool {
    p.path@ == "/ping"@ && p.port == port && p.initial_delay_seconds == delay
        && p.period_seconds == period && p.failure_threshold == failures
}

/// The Sonarr container.
pub open spec fn main_container_planned(c: ContainerPlan, s: Sonarr) -> bool {
    let port = spec_container_port(s);
    &&& c.name@ == "sonarr"@
    &&& c.image == s.spec.image
    &&& c.image_pull_policy == Some(s.spec.image_pull_policy)
    &&& c.command is None && c.args is None
    &&& c.ports is Some
    &&& c.ports->0@.len() == 1
    &&& c.ports->0@[0].container_port == port
    &&& c.ports->0@[0].name@ == "http"@
    &&& c.ports->0@[0].protocol@ == "TCP"@
    &&& c.env is Some
    &&& main_env_planned(c.env->0@, s.spec.env@)
    &&& mounts_planned(c.volume_mounts@, s.spec.volume_mounts@)
    &&& resources_planned(c.resources, s.spec.resources)
    &&& c.liveness_probe is Some
    &&& ping_probe(c.liveness_probe->0, port, 60, 30, Some(5))
    &&& c.readiness_probe is Some
    &&& ping_probe(c.readiness_probe->0, port, 10, 10, None)
}

/// The image of the config init container.
pub open spec fn init_image_of(s: Sonarr) -> Seq<char> {
    match s.spec.config.init_container_image {
        Some(i) => i@,
        None => "busybox:latest"@,
    }
}

/// A container that only mounts the config volume and sets nothing else
/// but what is stated of it.
pub open spec fn init_container_shape(c: ContainerPlan) -> bool {
    &&& c.name@ == "init-config"@
    &&& c.image_pull_policy is None && c.ports is None && c.resources is None
    &&& c.liveness_probe is None && c.readiness_probe is None
    &&& c.volume_mounts@.len() == 1 && config_mount(c.volume_mounts@[0])
}

/// The config init container.
pub open spec fn config_init_planned(c: ContainerPlan, s: Sonarr) -> bool {
    &&& init_container_shape(c)
    &&& c.image@ == init_image_of(s)
    &&& c.command is Some
    &&& c.command->0@.len() == 3
    &&& c.command->0@[0]@ == "/bin/sh"@
    &&& c.command->0@[1]@ == "-c"@
    &&& c.command->0@[2]@ == CONFIG_SCRIPT@
    &&& c.args is None
    &&& c.env is Some
    &&& init_env_planned(c.env->0@, s)
}

/// The user variables of a user init container with a value, in order.
pub open spec fn valued_env(env: Seq<EnvVar>) -> Seq<EnvVar> {
    env.filter(|e: EnvVar| e.value is Some)
}

/// A list that is left out when empty.
pub open spec fn strings_unless_empty(p: Option<Vec<String>>, v: Seq<String>) -> bool {
    if v.len() == 0 { p is None } else { p is Some && p->0@ == v }
}

/// The user's init container.
pub open spec fn user_init_planned(c: ContainerPlan, cfg: InitContainerConfig) -> bool {
    let kept = valued_env(cfg.env@);
    &&& init_container_shape(c)
    &&& c.image == cfg.image
    &&& strings_unless_empty(c.command, cfg.command@)
    &&& strings_unless_empty(c.args, cfg.args@)
    &&& if kept.len() == 0 {
        c.env is None
    } else {
        &&& c.env is Some
        &&& c.env->0@.len() == kept.len()
        &&& forall|i: int| 0 <= i < kept.len()
            ==> plain_env(#[trigger] c.env->0@[i], kept[i].name@, kept[i].value->0@)
    }
}

/// The init containers: the config one, then the user's when there is one.
pub open spec fn init_containers_planned(p: Option<Vec<ContainerPlan>>, s: Sonarr) -> bool {
    &&& p is Some
    &&& p->0@.len() >= 1
    &&& config_init_planned(p->0@[0], s)
    &&& match s.spec.init_container {
        Some(cfg) => p->0@.len() == 2 && user_init_planned(p->0@[1], cfg),
        None => p->0@.len() == 1,
    }
}

/// Metadata of an object the operator owns.
pub open spec fn owned_metadata(
    m: ObjectMetaPlan,
    name: Seq<char>,
    namespace: Seq<char>,
    owner: OwnerReference,
    labels: Map<Seq<char>, Seq<char>>,
) -> bool {
    &&& m.name@ == name
    &&& m.namespace@ == namespace
    &&& m.labels@ == labels
    &&& m.owner_references@ == seq![owner]
}

/// The Deployment of instance `s`.
pub open spec fn deployment_planned(
    d: DeploymentPlan,
    s: Sonarr,
    namespace: Seq<char>,
    owner: OwnerReference,
    labels: Map<Seq<char>, Seq<char>>,
) -> bool {
    &&& owned_metadata(d.metadata, instance_name(s) + "-sonarr"@, namespace, owner, labels)
    &&& d.metadata.annotations is None
    &&& d.replicas == s.spec.replicas
    &&& d.selector_labels@ == labels
    &&& d.template_labels@ == labels
    &&& init_containers_planned(d.init_containers, s)
    &&& d.containers@.len() == 1 && main_container_planned(d.containers@[0], s)
    &&& volumes_planned(d.volumes@, s)
    &&& map_unless_empty(d.node_selector, s.spec.node_selector@)
    &&& if s.spec.tolerations@.len() == 0 {
        d.tolerations is None
    } else {
        d.tolerations is Some && d.tolerations->0@ == s.spec.tolerations@
    }
    &&& d.security_context == s.spec.security_context
}

// ---------------------------------------------------------------------------
// Building it.
// ---------------------------------------------------------------------------

fn plain_env_var(name: &str, value: String) -> (p: EnvVarPlan)
    ensures
        plain_env(p, name@, value@),
{
    EnvVarPlan { name: string_of(name), value: Some(value), value_from: None }
}

fn selector(name: &String, key: &String) -> (p: KeySelectorPlan)
    ensures
        selects(p, *name, *key),
{
    KeySelectorPlan { name: name.clone(), key: key.clone(), optional: Some(false) }
}

/// The plan for one user variable, or nothing when it has neither a value
/// nor a source.
fn user_env_var(e: &EnvVar) -> (r: Option<EnvVarPlan>)
    ensures
        r is Some == env_kept(*e),
        r matches Some(p) ==> env_planned(p, *e),
{
    match &e.value {
        Some(v) => Some(EnvVarPlan { name: e.name.clone(), value: Some(v.clone()), value_from: None }),
        None => match &e.value_from {
            Some(vf) => {
                let value_from = match &vf.secret_key_ref {
                    Some(sk) => Some(EnvVarSourcePlan {
                        secret_key_ref: Some(selector(&sk.name, &sk.key)),
                        config_map_key_ref: None,
                    }),
                    None => match &vf.config_map_key_ref {
                        Some(cm) => Some(EnvVarSourcePlan {
                            secret_key_ref: None,
                            config_map_key_ref: Some(selector(&cm.name, &cm.key)),
                        }),
                        None => None,
                    },
                };
                Some(EnvVarPlan { name: e.name.clone(), value: None, value_from })
            },
            None => None,
        },
    }
}

/// The environment of the Sonarr container.
fn main_env(env: &Vec<EnvVar>) -> (r: Vec<EnvVarPlan>)
    ensures
        main_env_planned(r@, env@),
{
    let mut r: Vec<EnvVarPlan> = Vec::new();
    r.push(plain_env_var("PUID", string_of("1000")));
    r.push(plain_env_var("PGID", string_of("1000")));
    r.push(plain_env_var("TZ", string_of("Etc/UTC")));
    let n = env.len();
    let mut i: usize = 0;
    assert(env@.take(0).filter(|e: EnvVar| env_kept(e)) =~= Seq::<EnvVar>::empty()) by {
        reveal(Seq::filter);
    }
    while i < n
        invariant
            n == env@.len(),
            i <= n,
            r@.len() == 3 + kept_env(env@.take(i as int)).len(),
            plain_env(r@[0], "PUID"@, "1000"@),
            plain_env(r@[1], "PGID"@, "1000"@),
            plain_env(r@[2], "TZ"@, "Etc/UTC"@),
            forall|k: int| 0 <= k < kept_env(env@.take(i as int)).len()
                ==> env_planned(#[trigger] r@[3 + k], kept_env(env@.take(i as int))[k]),
        decreases n - i,
    {
        let ghost before = env@.take(i as int);
        proof {
            assert(env@.take(i + 1) =~= before.push(env@[i as int]));
            before.lemma_filter_push(env@[i as int], |e: EnvVar| env_kept(e));
        }
        match user_env_var(&env[i]) {
            Some(p) => {
                r.push(p);
            },
            None => {},
        }
        i = i + 1;
    }
    assert(env@.take(n as int) =~= env@);
    r
}

fn config_mount_plan() -> (p: VolumeMountPlan)
    ensures
        config_mount(p),
{
    VolumeMountPlan {
        name: string_of("config"),
        mount_path: string_of("/config"),
        sub_path: None,
        read_only: None,
    }
}

/// The mounts of the Sonarr container.
fn main_mounts(ms: &Vec<VolumeMount>) -> (r: Vec<VolumeMountPlan>)
    ensures
        mounts_planned(r@, ms@),
{
    let mut r: Vec<VolumeMountPlan> = Vec::new();
    r.push(config_mount_plan());
    let n = ms.len();
    let mut i: usize = 0;
    while i < n
        invariant
            n == ms@.len(),
            i <= n,
            r@.len() == 1 + i,
            config_mount(r@[0]),
            forall|k: int| 0 <= k < i ==> mount_planned(#[trigger] r@[1 + k], ms@[k]),
        decreases n - i,
    {
        let m = &ms[i];
        r.push(VolumeMountPlan {
            name: m.name.clone(),
            mount_path: m.mount_path.clone(),
            sub_path: clone_opt_string(&m.sub_path),
            read_only: Some(m.read_only),
        });
        i = i + 1;
    }
    r
}

fn volume_plan(v: &Volume) -> (p: VolumePlan)
    ensures
        volume_planned(p, *v),
{
    VolumePlan {
        name: v.name.clone(),
        persistent_volume_claim: match &v.persistent_volume_claim {
            Some(c) => Some(ClaimSourcePlan { claim_name: c.claim_name.clone(), read_only: Some(c.read_only) }),
            None => None,
        },
        host_path: match &v.host_path {
            Some(h) => Some(HostPathPlan { path: h.path.clone(), type_: clone_opt_string(&h.host_path_type) }),
            None => None,
        },
        nfs: match &v.nfs {
            Some(n) => Some(NfsPlan {
                server: n.server.clone(),
                path: n.path.clone(),
                read_only: Some(n.read_only),
            }),
            None => None,
        },
        empty_dir: match &v.empty_dir {
            Some(e) => Some(EmptyDirPlan {
                medium: clone_opt_string(&e.medium),
                size_limit: clone_opt_string(&e.size_limit),
            }),
            None => None,
        },
    }
}

/// The volumes of the pod.
fn pod_volumes(instance: &Sonarr) -> (r: Vec<VolumePlan>)
    ensures
        volumes_planned(r@, *instance),
{
    let claim = match &instance.spec.storage.existing_claim {
        Some(c) => c.clone(),
        None => instance.pvc_name(),
    };
    let mut r: Vec<VolumePlan> = Vec::new();
    r.push(VolumePlan {
        name: string_of("config"),
        persistent_volume_claim: Some(ClaimSourcePlan { claim_name: claim, read_only: Some(false) }),
        host_path: None,
        nfs: None,
        empty_dir: None,
    });
    let vs = &instance.spec.volumes;
    let n = vs.len();
    let mut i: usize = 0;
    while i < n
        invariant
            n == vs@.len(),
            vs == instance.spec.volumes,
            i <= n,
            r@.len() == 1 + i,
            r@[0].name@ == "config"@,
            r@[0].persistent_volume_claim is Some,
            r@[0].persistent_volume_claim->0.claim_name@ == config_claim_of(*instance),
            r@[0].persistent_volume_claim->0.read_only == Some(false),
            r@[0].host_path is None && r@[0].nfs is None && r@[0].empty_dir is None,
            forall|k: int| 0 <= k < i ==> volume_planned(#[trigger] r@[1 + k], vs@[k]),
        decreases n - i,
    {
        r.push(volume_plan(&vs[i]));
        i = i + 1;
    }
    r
}

fn map_or_none(m: &StringMap) -> (r: Option<StringMap>)
    ensures
        map_unless_empty(r, m@),
{
    if m.is_empty() {
        None
    } else {
        Some(m.clone())
    }
}

fn resources_plan(r: &Option<ResourceRequirements>) -> (p: Option<ResourceRequirementsPlan>)
    ensures
        resources_planned(p, *r),
{
    match r {
        Some(r) => Some(ResourceRequirementsPlan { limits: map_or_none(&r.limits), requests: map_or_none(&r.requests) }),
        None => None,
    }
}

fn ping_probe_plan(port: i32, delay: i32, period: i32, failures: Option<i32>) -> (p: ProbePlan)
    ensures
        ping_probe(p, port, delay, period, failures),
{
    ProbePlan {
        path: string_of("/ping"),
        port,
        initial_delay_seconds: delay,
        period_seconds: period,
        failure_threshold: failures,
    }
}

/// The Sonarr container.
fn main_container(instance: &Sonarr) -> (c: ContainerPlan)
    ensures
        main_container_planned(c, *instance),
{
    let port = instance.container_port();
    let mut ports = Vec::new();
    ports.push(ContainerPortPlan { container_port: port, name: string_of("http"), protocol: string_of("TCP") });
    ContainerPlan {
        name: string_of("sonarr"),
        image: instance.spec.image.clone(),
        image_pull_policy: Some(instance.spec.image_pull_policy.clone()),
        command: None,
        args: None,
        ports: Some(ports),
        env: Some(main_env(&instance.spec.env)),
        volume_mounts: main_mounts(&instance.spec.volume_mounts),
        resources: resources_plan(&instance.spec.resources),
        liveness_probe: Some(ping_probe_plan(port, 60, 30, Some(5))),
        readiness_probe: Some(ping_probe_plan(port, 10, 10, None)),
    }
}

/// Appends a plain variable for an optional setting.
fn push_opt(env: &mut Vec<EnvVarPlan>, name: &str, v: &Option<String>, Ghost(es): Ghost<Seq<(Seq<char>, Seq<char>)>>)
    requires
        plain_envs(old(env)@.drop_first(), es),
        old(env)@.len() >= 1,
    ensures
        final(env)@.len() >= 1,
        final(env)@[0] == old(env)@[0],
        plain_envs(final(env)@.drop_first(), es + opt_pair(name@, *v)),
{
    let ghost before = env@;
    match v {
        Some(s) => {
            env.push(plain_env_var(name, s.clone()));
            assert(env@.drop_first() =~= before.drop_first().push(env@.last()));
            assert(es + opt_pair(name@, *v) =~= es.push((name@, s@)));
            assert forall|i: int| 0 <= i < env@.drop_first().len() implies plain_env(
                #[trigger] env@.drop_first()[i], (es + opt_pair(name@, *v))[i].0, (es + opt_pair(name@, *v))[i].1) by {
                if i < es.len() {
                    assert(env@.drop_first()[i] == before.drop_first()[i]);
                }
            }
        },
        None => {
            assert(es + opt_pair(name@, *v) =~= es);
        },
    }
}

/// Appends a "True"/"False" variable for an optional flag.
fn push_flag(env: &mut Vec<EnvVarPlan>, name: &str, v: Option<bool>, Ghost(es): Ghost<Seq<(Seq<char>, Seq<char>)>>)
    requires
        plain_envs(old(env)@.drop_first(), es),
        old(env)@.len() >= 1,
    ensures
        final(env)@.len() >= 1,
        final(env)@[0] == old(env)@[0],
        plain_envs(final(env)@.drop_first(), es + opt_flag(name@, v)),
{
    let ghost before = env@;
    match v {
        Some(b) => {
            let text = string_of(if b { "True" } else { "False" });
            let ghost tv = text@;
            env.push(plain_env_var(name, text));
            assert(env@.drop_first() =~= before.drop_first().push(env@.last()));
            assert(es + opt_flag(name@, v) =~= es.push((name@, tv)));
            assert forall|i: int| 0 <= i < env@.drop_first().len() implies plain_env(
                #[trigger] env@.drop_first()[i], (es + opt_flag(name@, v))[i].0, (es + opt_flag(name@, v))[i].1) by {
                if i < es.len() {
                    assert(env@.drop_first()[i] == before.drop_first()[i]);
                }
            }
        },
        None => {
            assert(es + opt_flag(name@, v) =~= es);
        },
    }
}

/// The environment of the config init container.
fn init_env(instance: &Sonarr) -> (r: Vec<EnvVarPlan>)
    ensures
        init_env_planned(r@, *instance),
{
    let (secret_name, secret_key) = match &instance.spec.api_key_secret_ref {
        Some(r) => (r.name.clone(), r.key.clone()),
        None => (instance.api_key_secret_name(), string_of("api-key")),
    };
    let mut env: Vec<EnvVarPlan> = Vec::new();
    env.push(EnvVarPlan {
        name: string_of("SONARR_API_KEY"),
        value: None,
        value_from: Some(EnvVarSourcePlan {
            secret_key_ref: Some(KeySelectorPlan { name: secret_name, key: secret_key, optional: Some(false) }),
            config_map_key_ref: None,
        }),
    });
    let ghost first = env@[0];
    let ghost mut es: Seq<(Seq<char>, Seq<char>)> = Seq::empty();
    assert(env@.drop_first() =~= Seq::<EnvVarPlan>::empty());
    let port = instance.container_port();
    if port != 8989 {
        let ghost before = env@;
        let text = i32_to_string(port);
        let ghost tv = text@;
        env.push(plain_env_var("SONARR_PORT", text));
        proof {
            assert(env@.drop_first() =~= seq![env@[1]]);
            es = seq![("SONARR_PORT"@, tv)];
        }
    }
    let c = &instance.spec.config;
    push_opt(&mut env, "SONARR_URL_BASE", &c.url_base, Ghost(es));
    proof { es = es + opt_pair("SONARR_URL_BASE"@, c.url_base); }
    push_opt(&mut env, "SONARR_BIND_ADDRESS", &c.bind_address, Ghost(es));
    proof { es = es + opt_pair("SONARR_BIND_ADDRESS"@, c.bind_address); }
    push_opt(&mut env, "SONARR_LOG_LEVEL", &c.log_level, Ghost(es));
    proof { es = es + opt_pair("SONARR_LOG_LEVEL"@, c.log_level); }
    push_opt(&mut env, "SONARR_INSTANCE_NAME", &c.instance_name, Ghost(es));
    proof { es = es + opt_pair("SONARR_INSTANCE_NAME"@, c.instance_name); }
    push_opt(&mut env, "SONARR_AUTH_METHOD", &c.authentication_method, Ghost(es));
    proof { es = es + opt_pair("SONARR_AUTH_METHOD"@, c.authentication_method); }
    push_flag(&mut env, "SONARR_AUTH_REQUIRED", c.authentication_required, Ghost(es));
    proof { es = es + opt_flag("SONARR_AUTH_REQUIRED"@, c.authentication_required); }
    push_flag(&mut env, "SONARR_ANALYTICS", c.analytics_enabled, Ghost(es));
    proof {
        es = es + opt_flag("SONARR_ANALYTICS"@, c.analytics_enabled);
        assert(es =~= config_env(*instance));
    }
    env
}

/// The config init container.
fn config_init_container(instance: &Sonarr) -> (c: ContainerPlan)
    ensures
        config_init_planned(c, *instance),
{
    let image = match &instance.spec.config.init_container_image {
        Some(i) => i.clone(),
        None => string_of("busybox:latest"),
    };
    let mut command = Vec::new();
    command.push(string_of("/bin/sh"));
    command.push(string_of("-c"));
    command.push(string_of(CONFIG_SCRIPT));
    let mut mounts = Vec::new();
    mounts.push(config_mount_plan());
    ContainerPlan {
        name: string_of("init-config"),
        image,
        image_pull_policy: None,
        command: Some(command),
        args: None,
        ports: None,
        env: Some(init_env(instance)),
        volume_mounts: mounts,
        resources: None,
        liveness_probe: None,
        readiness_probe: None,
    }
}

fn strings_or_none(v: &Vec<String>) -> (r: Option<Vec<String>>)
    ensures
        strings_unless_empty(r, v@),
{
    if v.len() == 0 {
        None
    } else {
        Some(clone_strings(v))
    }
}

/// The user's init container.
fn user_init_container(cfg: &InitContainerConfig) -> (c: ContainerPlan)
    ensures
        user_init_planned(c, *cfg),
{
    let mut env: Vec<EnvVarPlan> = Vec::new();
    let n = cfg.env.len();
    let mut i: usize = 0;
    assert(cfg.env@.take(0).filter(|e: EnvVar| e.value is Some) =~= Seq::<EnvVar>::empty()) by {
        reveal(Seq::filter);
    }
    while i < n
        invariant
            n == cfg.env@.len(),
            i <= n,
            env@.len() == valued_env(cfg.env@.take(i as int)).len(),
            forall|k: int| 0 <= k < env@.len() ==> plain_env(#[trigger] env@[k],
                valued_env(cfg.env@.take(i as int))[k].name@, valued_env(cfg.env@.take(i as int))[k].value->0@),
        decreases n - i,
    {
        let ghost before = cfg.env@.take(i as int);
        proof {
            assert(cfg.env@.take(i + 1) =~= before.push(cfg.env@[i as int]));
            before.lemma_filter_push(cfg.env@[i as int], |e: EnvVar| e.value is Some);
        }
        let e = &cfg.env[i];
        match &e.value {
            Some(v) => {
                env.push(EnvVarPlan { name: e.name.clone(), value: Some(v.clone()), value_from: None });
            },
            None => {},
        }
        i = i + 1;
    }
    assert(cfg.env@.take(n as int) =~= cfg.env@);
    let mut mounts = Vec::new();
    mounts.push(config_mount_plan());
    ContainerPlan {
        name: string_of("init-config"),
        image: cfg.image.clone(),
        image_pull_policy: None,
        command: strings_or_none(&cfg.command),
        args: strings_or_none(&cfg.args),
        ports: None,
        env: if env.len() == 0 { None } else { Some(env) },
        volume_mounts: mounts,
        resources: None,
        liveness_probe: None,
        readiness_probe: None,
    }
}

fn clone_tolerations(v: &Vec<Toleration>) -> (r: Vec<Toleration>)
    ensures
        r@ == v@,
{
    let mut r: Vec<Toleration> = Vec::new();
    let n = v.len();
    let mut i: usize = 0;
    while i < n
        invariant
            n == v@.len(),
            i <= n,
            r@ == v@.take(i as int),
        decreases n - i,
    {
        r.push(v[i].clone());
        proof {
            assert(v@.take(i + 1) =~= v@.take(i as int).push(v@[i as int]));
        }
        i = i + 1;
    }
    assert(v@.take(n as int) =~= v@);
    r
}

/// The Deployment for a Sonarr instance in `namespace`, owned through
/// `owner_ref` and labelled with `labels`.
pub fn build_deployment(
    instance: &Sonarr,
    namespace: &str,
    owner_ref: &OwnerReference,
    labels: &StringMap,
) -> (r: Result<DeploymentPlan, Error>)
    ensures
        r is Ok,
        deployment_planned(r->Ok_0, *instance, namespace@, *owner_ref, labels@),
{
    let mut init_containers = Vec::new();
    init_containers.push(config_init_container(instance));
    match &instance.spec.init_container {
        Some(cfg) => {
            init_containers.push(user_init_container(cfg));
        },
        None => {},
    }
    let mut containers = Vec::new();
    containers.push(main_container(instance));
    let mut owners = Vec::new();
    owners.push(owner_ref.clone());
    let tolerations = if instance.spec.tolerations.len() == 0 {
        None
    } else {
        Some(clone_tolerations(&instance.spec.tolerations))
    };
    let d = DeploymentPlan {
        metadata: ObjectMetaPlan {
            name: instance.deployment_name(),
            namespace: string_of(namespace),
            labels: labels.clone(),
            annotations: None,
            owner_references: owners,
        },
        replicas: instance.spec.replicas,
        selector_labels: labels.clone(),
        template_labels: labels.clone(),
        init_containers: Some(init_containers),
        containers,
        volumes: pod_volumes(instance),
        node_selector: map_or_none(&instance.spec.node_selector),
        tolerations,
        security_context: instance.spec.security_context,
    };
    proof {
        assert(d.metadata.owner_references@ =~= seq![*owner_ref]);
    }
    Ok(d)
}

/// The config init container (the first init container) sets `name` to
/// the plain value `value`.
pub open spec fn init_config_sets(d: DeploymentPlan, name: Seq<char>, value: Seq<char>) -> bool {
    let env = d.init_containers->0@[0].env->0@;
    exists|i: int|
        0 <= i < env.len() && #[trigger] env[i].name@ == name && env[i].value is Some && env[i].value->0@ == value
            && env[i].value_from is None
}

proof fn lemma_init_env_at(d: DeploymentPlan, s: Sonarr, k: int)
    requires
        d.init_containers is Some,
        d.init_containers->0@.len() >= 1,
        d.init_containers->0@[0].env is Some,
        init_env_planned(d.init_containers->0@[0].env->0@, s),
        0 <= k < config_env(s).len(),
    ensures
        init_config_sets(d, config_env(s)[k].0, config_env(s)[k].1),
{
    let env = d.init_containers->0@[0].env->0@;
    assert(env.drop_first()[k] == env[k + 1]);
    assert(plain_env(env.drop_first()[k], config_env(s)[k].0, config_env(s)[k].1));
    assert(env[k + 1].name@ == config_env(s)[k].0);
}

/// Every setting the spec's config gives reaches the config init container
/// ("init-config", the first init container, which writes config.xml) as a
/// plain variable under its SONARR_* name; a flag is written "True" or
/// "False", and a container port other than 8989 is passed as SONARR_PORT.
pub proof fn lemma_config_settings_reach_init(
    d: DeploymentPlan,
    s: Sonarr,
    namespace: Seq<char>,
    owner: OwnerReference,
    labels: Map<Seq<char>, Seq<char>>,
)
    requires
        deployment_planned(d, s, namespace, owner, labels),
    ensures
        d.init_containers is Some,
        d.init_containers->0@.len() >= 1,
        d.init_containers->0@[0].name@ == "init-config"@,
        d.init_containers->0@[0].env is Some,
        spec_container_port(s) != 8989 ==> init_config_sets(d, "SONARR_PORT"@, int_to_decimal(spec_container_port(s) as int)),
        s.spec.config.url_base matches Some(v) ==> init_config_sets(d, "SONARR_URL_BASE"@, v@),
        s.spec.config.bind_address matches Some(v) ==> init_config_sets(d, "SONARR_BIND_ADDRESS"@, v@),
        s.spec.config.log_level matches Some(v) ==> init_config_sets(d, "SONARR_LOG_LEVEL"@, v@),
        s.spec.config.instance_name matches Some(v) ==> init_config_sets(d, "SONARR_INSTANCE_NAME"@, v@),
        s.spec.config.authentication_method matches Some(v) ==> init_config_sets(d, "SONARR_AUTH_METHOD"@, v@),
        s.spec.config.authentication_required matches Some(b) ==> init_config_sets(d, "SONARR_AUTH_REQUIRED"@, if b { "True"@ } else { "False"@ }),
        s.spec.config.analytics_enabled matches Some(b) ==> init_config_sets(d, "SONARR_ANALYTICS"@, if b { "True"@ } else { "False"@ }),
{
    let c = s.spec.config;
    let port = spec_container_port(s);
    let p0: Seq<(Seq<char>, Seq<char>)> = if port != 8989 { seq![("SONARR_PORT"@, int_to_decimal(port as int))] } else { Seq::empty() };
    let p1 = p0 + opt_pair("SONARR_URL_BASE"@, c.url_base);
    let p2 = p1 + opt_pair("SONARR_BIND_ADDRESS"@, c.bind_address);
    let p3 = p2 + opt_pair("SONARR_LOG_LEVEL"@, c.log_level);
    let p4 = p3 + opt_pair("SONARR_INSTANCE_NAME"@, c.instance_name);
    let p5 = p4 + opt_pair("SONARR_AUTH_METHOD"@, c.authentication_method);
    let p6 = p5 + opt_flag("SONARR_AUTH_REQUIRED"@, c.authentication_required);
    let p7 = p6 + opt_flag("SONARR_ANALYTICS"@, c.analytics_enabled);
    let cfg = config_env(s);
    assert(cfg == p7);
    if port != 8989 {
        assert(cfg[0] == p0[0]);
        lemma_init_env_at(d, s, 0);
    }
    if c.url_base is Some {
        assert(cfg[p0.len() as int] == p1[p0.len() as int]);
        lemma_init_env_at(d, s, p0.len() as int);
    }
    if c.bind_address is Some {
        assert(cfg[p1.len() as int] == p2[p1.len() as int]);
        lemma_init_env_at(d, s, p1.len() as int);
    }
    if c.log_level is Some {
        assert(cfg[p2.len() as int] == p3[p2.len() as int]);
        lemma_init_env_at(d, s, p2.len() as int);
    }
    if c.instance_name is Some {
        assert(cfg[p3.len() as int] == p4[p3.len() as int]);
        lemma_init_env_at(d, s, p3.len() as int);
    }
    if c.authentication_method is Some {
        assert(cfg[p4.len() as int] == p5[p4.len() as int]);
        lemma_init_env_at(d, s, p4.len() as int);
    }
    if c.authentication_required is Some {
        assert(cfg[p5.len() as int] == p6[p5.len() as int]);
        lemma_init_env_at(d, s, p5.len() as int);
    }
    if c.analytics_enabled is Some {
        assert(cfg[p6.len() as int] == p7[p6.len() as int]);
        lemma_init_env_at(d, s, p6.len() as int);
    }
}

/// How the pod is wired: the Sonarr container runs the spec's image,
/// listens on the spec's container port (8989 when it is zero), and both
/// of its probes ask /ping on that port; it and the config init container
/// mount the pod's first volume, "config", at /config, which is the
/// existing claim when the spec names one and the instance's own claim
/// otherwise; and every variable of the spec's env that has a value
/// reaches the Sonarr container with that value.
pub proof fn lemma_pod_wiring(
    d: DeploymentPlan,
    s: Sonarr,
    namespace: Seq<char>,
    owner: OwnerReference,
    labels: Map<Seq<char>, Seq<char>>,
)
    requires
        deployment_planned(d, s, namespace, owner, labels),
    ensures
        ({
            let c = d.containers@[0];
            let port = if s.spec.service.container_port == 0 { 8989 } else { s.spec.service.container_port };
            let init = d.init_containers->0@[0];
            &&& d.containers@.len() == 1
            &&& c.image == s.spec.image
            &&& c.ports is Some && c.ports->0@.len() == 1 && c.ports->0@[0].container_port == port
            &&& c.liveness_probe is Some && c.liveness_probe->0.port == port
            &&& c.liveness_probe->0.path@ == "/ping"@
            &&& c.readiness_probe is Some && c.readiness_probe->0.port == port
            &&& c.readiness_probe->0.path@ == "/ping"@
            &&& d.volumes@.len() >= 1 && d.volumes@[0].name@ == "config"@
            &&& d.volumes@[0].persistent_volume_claim is Some
            &&& d.volumes@[0].persistent_volume_claim->0.claim_name@ == match s.spec.storage.existing_claim {
                Some(e) => e@,
                None => instance_name(s) + "-sonarr-config"@,
            }
            &&& c.volume_mounts@.len() >= 1 && c.volume_mounts@[0].name@ == d.volumes@[0].name@
            &&& c.volume_mounts@[0].mount_path@ == "/config"@
            &&& d.init_containers is Some && d.init_containers->0@.len() >= 1
            &&& init.volume_mounts@.len() == 1 && init.volume_mounts@[0].name@ == d.volumes@[0].name@
            &&& init.volume_mounts@[0].mount_path@ == "/config"@
            &&& c.env is Some
            &&& forall|j: int| 0 <= j < s.spec.env@.len() && (#[trigger] s.spec.env@[j]).value is Some ==> exists|i: int|
                0 <= i < c.env->0@.len() && c.env->0@[i].name == s.spec.env@[j].name
                    && c.env->0@[i].value == s.spec.env@[j].value
        }),
{
    let c = d.containers@[0];
    let env = s.spec.env@;
    let kept = kept_env(env);
    let pred = |e: EnvVar| env_kept(e);
    broadcast use vstd::seq_lib::group_filter_ensures;
    assert forall|j: int| 0 <= j < env.len() && (#[trigger] env[j]).value is Some implies exists|i: int|
        0 <= i < c.env->0@.len() && c.env->0@[i].name == env[j].name && c.env->0@[i].value == env[j].value by {
        assert(pred(env[j]));
        assert(kept.contains(env[j]));
        let k = choose|k: int| 0 <= k < kept.len() && kept[k] == env[j];
        assert(env_planned(c.env->0@[3 + k], kept[k]));
    }
}

} // verus!
