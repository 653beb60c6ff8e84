//! The Sonarr instance controller: the objects it applies for an instance
//! and the status it reports.

use vstd::prelude::*;
use crate::controllers::traits::{Action, REQUEUE_SECONDS};
use crate::controllers::utils::{
    system_now,
    clone_conditions, conditions_after, progressing_condition_at, ready_condition_at, update_conditions,
};
use crate::controllers::traits::is_ready_condition;
use crate::crds::sonarr::{
    instance_name, spec_api_key_secret_name, spec_container_port, spec_internal_url, spec_service_name,
    spec_service_port, HTTPRouteConfig, IngressConfig, Sonarr, SonarrStatus,
};
use crate::crds::{LABEL_APP, LABEL_INSTANCE, LABEL_MANAGED_BY};
use crate::meta::{spec_name_any, Condition, ObjectMetaPlan, OwnerReference, Time};
use crate::string_map::StringMap;
use crate::text::{clone_opt_string, clone_strings, concat2, concat3, hex_fixed, push_hex_fixed, string_of};
use crate::workload::{
    DeploymentPlan, HttpRoutePlan, IngressPlan, IngressTlsPlan, ParentRefPlan, PvcPlan, SecretPlan, ServicePlan,
};
use crate::controllers::deployment::{deployment_planned, map_unless_empty, owned_metadata};

verus! {

/// The labels of every object the operator creates for instance `name`.
pub open spec fn spec_labels(name: Seq<char>) -> Map<Seq<char>, Seq<char>> {
    Map::<Seq<char>, Seq<char>>::empty()
        .insert(LABEL_APP@, "sonarr"@)
        .insert(LABEL_INSTANCE@, name)
        .insert(LABEL_MANAGED_BY@, "sonarr-operator"@)
}

/// The labels of every object the operator creates for instance `name`.
pub fn create_labels(name: &str) -> (m: StringMap)
    ensures
        m@ == spec_labels(name@),
{
    let mut labels = StringMap::new();
    labels.insert(string_of(LABEL_APP), string_of("sonarr"));
    labels.insert(string_of(LABEL_INSTANCE), string_of(name));
    labels.insert(string_of(LABEL_MANAGED_BY), string_of("sonarr-operator"));
    labels
}

fn owned_meta(name: String, namespace: &str, owner_ref: &OwnerReference, labels: &StringMap) -> (m: ObjectMetaPlan)
    ensures
        owned_metadata(m, name@, namespace@, *owner_ref, labels@),
        m.annotations is None,
{
    let mut owners = Vec::new();
    owners.push(owner_ref.clone());
    let m = ObjectMetaPlan {
        name,
        namespace: string_of(namespace),
        labels: labels.clone(),
        annotations: None,
        owner_references: owners,
    };
    assert(m.owner_references@ =~= seq![*owner_ref]);
    m
}

/// The claim for the config directory, unless the instance uses an existing
/// one: the configured size and access modes, "1Gi" and "ReadWriteOnce"
/// when they are empty.
pub fn pvc_plan(
    namespace: &str,
    instance: &Sonarr,
    owner_ref: &OwnerReference,
    labels: &StringMap,
) -> (r: Option<PvcPlan>)
    ensures
        r is Some == instance.spec.storage.existing_claim is None,
        r matches Some(p) ==> {
            &&& owned_metadata(p.metadata, instance_name(*instance) + "-sonarr-config"@, namespace@, *owner_ref, labels@)
            &&& p.metadata.annotations is None
            &&& p.storage_request@ == (if instance.spec.storage.size@.len() == 0 { "1Gi"@ } else {
                instance.spec.storage.size@
            })
            &&& if instance.spec.storage.access_modes@.len() == 0 {
                p.access_modes@.len() == 1 && p.access_modes@[0]@ == "ReadWriteOnce"@
            } else {
                p.access_modes@ == instance.spec.storage.access_modes@
            }
            &&& p.storage_class_name == instance.spec.storage.storage_class
        },
{
    if instance.spec.storage.existing_claim.is_some() {
        return None;
    }
    let storage = &instance.spec.storage;
    let size = if storage.size.as_str().unicode_len() == 0 {
        string_of("1Gi")
    } else {
        storage.size.clone()
    };
    let access_modes = if storage.access_modes.len() == 0 {
        let mut v = Vec::new();
        v.push(string_of("ReadWriteOnce"));
        v
    } else {
        clone_strings(&storage.access_modes)
    };
    Some(PvcPlan {
        metadata: owned_meta(instance.pvc_name(), namespace, owner_ref, labels),
        access_modes,
        storage_class_name: clone_opt_string(&storage.storage_class),
        storage_request: size,
    })
}

/// The time elapsed from the Unix epoch to `t`
/// (`SystemTime::duration_since(UNIX_EPOCH)`), or nothing when `t` is
/// earlier. Nothing is stated of the duration, since the system time is
/// opaque here.
#[verifier::external_body]
fn since_unix_epoch(t: std::time::SystemTime) -> Option<std::time::Duration> {
    match t.duration_since(std::time::UNIX_EPOCH) {
        Ok(d) => Some(d),
        Err(_) => None,
    }
}

/// A duration in whole nanoseconds (`Duration::as_nanos`). Nothing is
/// stated of the value, since the duration is opaque here.
#[verifier::external_body]
fn duration_nanos(d: std::time::Duration) -> u128 {
    d.as_nanos()
}

/// The current time in nanoseconds since the Unix epoch, or nothing when
/// the clock is set before the epoch.
fn unix_time_nanos() -> Option<u128> {
    match since_unix_epoch(system_now()) {
        Some(d) => Some(duration_nanos(d)),
        None => None,
    }
}

/// The API key derived from a timestamp: its 32 lower-case hexadecimal
/// digits, zero padded (`format!("{:032x}", nanos)`).
pub fn api_key_from_timestamp(nanos: u128) -> (k: String)
    ensures
        k@ == hex_fixed(nanos as nat, 32),
        k@.len() == 32,
{
    let mut k = String::new();
    push_hex_fixed(&mut k, nanos, 32);
    proof {
        lemma_hex_fixed_len(nanos as nat, 32);
    }
    k
}

proof fn lemma_hex_fixed_len(n: nat, w: nat)
    ensures
        hex_fixed(n, w).len() == w,
    decreases w,
{
    if w > 0 {
        lemma_hex_fixed_len(n / 16, (w - 1) as nat);
    }
}

/// A new API key made from the current time, or nothing when the clock is
/// set before the Unix epoch.
pub fn generate_api_key() -> (k: Option<String>)
    ensures
        k matches Some(s) ==> s@.len() == 32 && exists|t: u128| s@ == hex_fixed(t as nat, 32),
{
    match unix_time_nanos() {
        Some(t) => Some(api_key_from_timestamp(t)),
        None => None,
    }
}

/// The secret that holds a generated API key, unless the instance refers
/// to a secret of its own: the key under "api-key".
pub fn secret_plan(
    namespace: &str,
    instance: &Sonarr,
    owner_ref: &OwnerReference,
    labels: &StringMap,
    api_key: String,
) -> (r: Option<SecretPlan>)
    ensures
        r is Some == instance.spec.api_key_secret_ref is None,
        r matches Some(p) ==> {
            &&& owned_metadata(p.metadata, spec_api_key_secret_name(*instance), namespace@, *owner_ref, labels@)
            &&& p.metadata.annotations is None
            &&& p.key@ == "api-key"@
            &&& p.value == api_key
        },
{
    if instance.spec.api_key_secret_ref.is_some() {
        return None;
    }
    Some(SecretPlan {
        metadata: owned_meta(instance.api_key_secret_name(), namespace, owner_ref, labels),
        key: string_of("api-key"),
        value: api_key,
    })
}

/// The Service of instance `s`.
pub open spec fn service_planned(
    p: ServicePlan,
    s: Sonarr,
    namespace: Seq<char>,
    owner: OwnerReference,
    labels: Map<Seq<char>, Seq<char>>,
) -> bool {
    &&& owned_metadata(p.metadata, spec_service_name(s), namespace, owner, labels)
    &&& map_unless_empty(p.metadata.annotations, s.spec.service.annotations@)
    &&& p.type_@ == (if s.spec.service.service_type@.len() == 0 { "ClusterIP"@ } else { s.spec.service.service_type@ })
    &&& p.selector@ == labels
    &&& p.port_name@ == "http"@
    &&& p.port == spec_service_port(s)
    &&& p.target_port == spec_container_port(s)
    &&& p.node_port == s.spec.service.node_port
    &&& p.protocol@ == "TCP"@
}

/// The Service of an instance.
pub fn service_plan(
    namespace: &str,
    instance: &Sonarr,
    owner_ref: &OwnerReference,
    labels: &StringMap,
) -> (p: ServicePlan)
    ensures
        service_planned(p, *instance, namespace@, *owner_ref, labels@),
{
    let mut metadata = owned_meta(instance.service_name(), namespace, owner_ref, labels);
    metadata.annotations = if instance.spec.service.annotations.is_empty() {
        None
    } else {
        Some(instance.spec.service.annotations.clone())
    };
    ServicePlan {
        metadata,
        type_: instance.service_type(),
        selector: labels.clone(),
        port_name: string_of("http"),
        port: instance.service_port(),
        target_port: instance.container_port(),
        node_port: instance.spec.service.node_port,
        protocol: string_of("TCP"),
    }
}

/// The Ingress of an instance: one rule for the host and path, to the
/// instance's service; TLS for the configured hosts, or the ingress host
/// when none are listed.
pub fn ingress_plan(
    namespace: &str,
    instance: &Sonarr,
    ingress_config: &IngressConfig,
    owner_ref: &OwnerReference,
    labels: &StringMap,
) -> (p: IngressPlan)
    ensures
        owned_metadata(p.metadata, spec_name_any(instance.metadata) + "-sonarr"@, namespace@, *owner_ref, labels@),
        map_unless_empty(p.metadata.annotations, ingress_config.annotations@),
        p.ingress_class_name == ingress_config.ingress_class_name,
        match ingress_config.tls {
            Some(t) => p.tls is Some && p.tls->0@.len() == 1 && p.tls->0@[0].secret_name == t.secret_name
                && (if t.hosts@.len() == 0 {
                    p.tls->0@[0].hosts@ == seq![ingress_config.host]
                } else {
                    p.tls->0@[0].hosts@ == t.hosts@
                }),
            None => p.tls is None,
        },
        p.host == ingress_config.host,
        p.path == ingress_config.path,
        p.path_type == ingress_config.path_type,
        p.service_name@ == spec_service_name(*instance),
        p.service_port == spec_service_port(*instance),
{
    let name = concat2(instance.metadata.name_any().as_str(), "-sonarr");
    let mut metadata = owned_meta(name, namespace, owner_ref, labels);
    metadata.annotations = if ingress_config.annotations.is_empty() {
        None
    } else {
        Some(ingress_config.annotations.clone())
    };
    let tls = match &ingress_config.tls {
        Some(t) => {
            let hosts = if t.hosts.len() == 0 {
                let mut v = Vec::new();
                v.push(ingress_config.host.clone());
                assert(v@ =~= seq![ingress_config.host]);
                v
            } else {
                clone_strings(&t.hosts)
            };
            let mut v = Vec::new();
            v.push(IngressTlsPlan { hosts, secret_name: t.secret_name.clone() });
            Some(v)
        },
        None => None,
    };
    IngressPlan {
        metadata,
        ingress_class_name: clone_opt_string(&ingress_config.ingress_class_name),
        tls,
        host: ingress_config.host.clone(),
        path: ingress_config.path.clone(),
        path_type: ingress_config.path_type.clone(),
        service_name: instance.service_name(),
        service_port: instance.service_port(),
    }
}

/// The Gateway API HTTPRoute of an instance: the instance labels with the
/// route's own labels over them, one rule matching the path, to the
/// instance's service.
pub fn http_route_plan(
    namespace: &str,
    instance: &Sonarr,
    http_route_config: &HTTPRouteConfig,
    owner_ref: &OwnerReference,
    labels: &StringMap,
) -> (p: HttpRoutePlan)
    ensures
        owned_metadata(
            p.metadata,
            spec_name_any(instance.metadata) + "-sonarr"@,
            namespace@,
            *owner_ref,
            labels@.union_prefer_right(http_route_config.labels@),
        ),
        map_unless_empty(p.metadata.annotations, http_route_config.annotations@),
        p.group@ == "gateway.networking.k8s.io"@,
        p.version@ == "v1"@,
        p.plural@ == "httproutes"@,
        p.api_version@ == "gateway.networking.k8s.io/v1"@,
        p.kind@ == "HTTPRoute"@,
        p.parent_ref.group@ == "gateway.networking.k8s.io"@,
        p.parent_ref.kind@ == "Gateway"@,
        p.parent_ref.name == http_route_config.gateway_ref.name,
        p.parent_ref.namespace == http_route_config.gateway_ref.namespace,
        p.parent_ref.section_name == http_route_config.gateway_ref.section_name,
        if http_route_config.hostnames@.len() == 0 {
            p.hostnames is None
        } else {
            p.hostnames is Some && p.hostnames->0@ == http_route_config.hostnames@
        },
        p.path_match_type == http_route_config.path_type,
        p.path_match_value == http_route_config.path,
        p.backend_kind@ == "Service"@,
        p.backend_name@ == spec_service_name(*instance),
        p.backend_port == spec_service_port(*instance),
{
    let name = concat2(instance.metadata.name_any().as_str(), "-sonarr");
    let mut route_labels = labels.clone();
    route_labels.extend_from(&http_route_config.labels);
    let mut metadata = owned_meta(name, namespace, owner_ref, &route_labels);
    metadata.annotations = if http_route_config.annotations.is_empty() {
        None
    } else {
        Some(http_route_config.annotations.clone())
    };
    let gw = &http_route_config.gateway_ref;
    HttpRoutePlan {
        group: string_of("gateway.networking.k8s.io"),
        version: string_of("v1"),
        plural: string_of("httproutes"),
        api_version: string_of("gateway.networking.k8s.io/v1"),
        kind: string_of("HTTPRoute"),
        metadata,
        parent_ref: ParentRefPlan {
            group: string_of("gateway.networking.k8s.io"),
            kind: string_of("Gateway"),
            name: gw.name.clone(),
            namespace: clone_opt_string(&gw.namespace),
            section_name: clone_opt_string(&gw.section_name),
        },
        hostnames: if http_route_config.hostnames.len() == 0 {
            None
        } else {
            Some(clone_strings(&http_route_config.hostnames))
        },
        path_match_type: http_route_config.path_type.clone(),
        path_match_value: http_route_config.path.clone(),
        backend_kind: string_of("Service"),
        backend_name: instance.service_name(),
        backend_port: instance.service_port(),
    }
}

/// Whether the instance has an enabled ingress.
pub open spec fn ingress_enabled(s: Sonarr) -> bool {
    s.spec.ingress is Some && s.spec.ingress->0.enabled
}

/// Whether the instance has an enabled HTTPRoute.
pub open spec fn http_route_enabled(s: Sonarr) -> bool {
    s.spec.http_route is Some && s.spec.http_route->0.enabled
}

/// The objects the instance controller applies, in order.
#[derive(Clone, Copy, Debug, PartialEq, Eq, Structural)]
pub enum ApplyStep {
    Pvc,
    Secret,
    Deployment,
    Service,
    Ingress,
    HttpRoute,
    Status,
}

/// The steps of applying an instance: claim, secret, deployment, service,
/// the ingress and the route when enabled, then the status.
pub open spec fn spec_apply_steps(s: Sonarr) -> Seq<ApplyStep> {
    seq![ApplyStep::Pvc, ApplyStep::Secret, ApplyStep::Deployment, ApplyStep::Service]
        + (if ingress_enabled(s) { seq![ApplyStep::Ingress] } else { Seq::empty() })
        + (if http_route_enabled(s) { seq![ApplyStep::HttpRoute] } else { Seq::empty() })
        + seq![ApplyStep::Status]
}

/// The steps of applying an instance, in order.
pub fn apply_steps(instance: &Sonarr) -> (v: Vec<ApplyStep>)
    ensures
        v@ == spec_apply_steps(*instance),
{
    let mut v = Vec::new();
    v.push(ApplyStep::Pvc);
    v.push(ApplyStep::Secret);
    v.push(ApplyStep::Deployment);
    v.push(ApplyStep::Service);
    let ingress = match &instance.spec.ingress {
        Some(i) => i.enabled,
        None => false,
    };
    if ingress {
        v.push(ApplyStep::Ingress);
    }
    let route = match &instance.spec.http_route {
        Some(r) => r.enabled,
        None => false,
    };
    if route {
        v.push(ApplyStep::HttpRoute);
    }
    v.push(ApplyStep::Status);
    assert(v@ =~= spec_apply_steps(*instance));
    v
}

/// What follows a successful apply: look again after five minutes.
pub fn apply_done() -> (a: Action)
    ensures
        a == Action::Requeue(REQUEUE_SECONDS),
{
    Action::Requeue(REQUEUE_SECONDS)
}

/// What follows the cleanup of an instance: nothing to do in Sonarr (the
/// owned objects go with their owner), wait for changes.
pub fn cleanup_done() -> (a: Action)
    ensures
        a == Action::AwaitChange,
{
    Action::AwaitChange
}

/// The replica counts of the instance's Deployment as last observed.
pub struct DeploymentObservation {
    pub ready_replicas: Option<i32>,
    pub replicas: Option<i32>,
}

/// Whether the Deployment is ready: it wants at least one replica and has
/// at least that many ready.
pub open spec fn deployment_ready(d: Option<DeploymentObservation>) -> bool {
    match d {
        Some(o) => {
            let ready = match o.ready_replicas { Some(r) => r, None => 0 };
            let desired = match o.replicas { Some(r) => r, None => 0 };
            ready >= desired && desired > 0
        },
        None => false,
    }
}

/// The number of ready replicas observed (0 when there is no Deployment).
pub open spec fn observed_ready_replicas(d: Option<DeploymentObservation>) -> i32 {
    match d {
        Some(o) => match o.ready_replicas { Some(r) => r, None => 0 },
        None => 0,
    }
}

/// The URL reported for an instance: the ingress URL when an ingress is
/// enabled (https when it has TLS), else the in-cluster URL.
pub open spec fn status_url(s: Sonarr, namespace: Seq<char>) -> Seq<char> {
    if ingress_enabled(s) {
        let i = s.spec.ingress->0;
        (if i.tls is Some { "https"@ } else { "http"@ }) + "://"@ + i.host@ + i.path@
    } else {
        spec_internal_url(s, namespace)
    }
}

/// The conditions an instance's status held, none without a status.
pub open spec fn instance_conditions(s: Sonarr) -> Seq<Condition> {
    match s.status {
        Some(p) => p.conditions@,
        None => Seq::empty(),
    }
}

/// The status the instance controller reports.
pub open spec fn status_reported(
    st: SonarrStatus,
    s: Sonarr,
    namespace: Seq<char>,
    d: Option<DeploymentObservation>,
    time: Time,
) -> bool {
    let previous = instance_conditions(s);
    &&& st.url is Some && st.url->0@ == status_url(s, namespace)
    &&& st.api_key_secret is Some && st.api_key_secret->0@ == match s.spec.api_key_secret_ref {
        Some(r) => r.name@,
        None => spec_api_key_secret_name(s),
    }
    &&& st.observed_generation == match s.metadata.generation { Some(g) => g, None => 0 }
    &&& st.ready_replicas == observed_ready_replicas(d)
    &&& st.version is None
    &&& if deployment_ready(d) {
        exists|c: Condition| is_ready_condition(c, true, "Ready"@, "Sonarr instance is ready"@, time)
            && st.conditions@ == #[trigger] conditions_after(previous, c)
    } else {
        exists|c1: Condition, c2: Condition|
            is_ready_condition(c1, false, "NotReady"@, "Sonarr instance is not ready"@, time)
            && c2.type_@ == "Progressing"@ && c2.status@ == "True"@ && c2.reason@ == "Deploying"@
            && c2.message@ == "Deployment is in progress"@ && c2.last_transition_time == time
            && c2.observed_generation is None && st.conditions@ == #[trigger] conditions_after(conditions_after(previous, c1), c2)
    }
}

/// The status of an instance given what was observed of its Deployment;
/// the conditions it folds in changed at `time`.
pub fn build_status(
    instance: &Sonarr,
    namespace: &str,
    deployment: Option<DeploymentObservation>,
    time: Time,
) -> (st: SonarrStatus)
    ensures
        status_reported(st, *instance, namespace@, deployment, time),
{
    let (ready, ready_replicas) = match &deployment {
        Some(o) => {
            let r = match o.ready_replicas { Some(r) => r, None => 0 };
            let d = match o.replicas { Some(d) => d, None => 0 };
            (r >= d && d > 0, r)
        },
        None => (false, 0),
    };
    let url = match &instance.spec.ingress {
        Some(ingress) => {
            if ingress.enabled {
                let scheme = if ingress.tls.is_some() { "https" } else { "http" };
                let head = concat2(scheme, "://");
                Some(concat3(head.as_str(), ingress.host.as_str(), ingress.path.as_str()))
            } else {
                Some(instance.internal_url(namespace))
            }
        },
        None => Some(instance.internal_url(namespace)),
    };
    let mut conditions: Vec<Condition> = match &instance.status {
        Some(s) => clone_conditions(&s.conditions),
        None => Vec::new(),
    };
    let ghost previous = conditions@;
    if ready {
        let c = ready_condition_at(true, "Ready", "Sonarr instance is ready", time);
        let ghost gc = c;
        update_conditions(&mut conditions, c);
        assert(conditions@ == conditions_after(previous, gc));
    } else {
        let c1 = ready_condition_at(false, "NotReady", "Sonarr instance is not ready", time);
        let ghost g1 = c1;
        update_conditions(&mut conditions, c1);
        let c2 = progressing_condition_at(true, "Deploying", "Deployment is in progress", time);
        let ghost g2 = c2;
        update_conditions(&mut conditions, c2);
        assert(conditions@ == conditions_after(conditions_after(previous, g1), g2));
    }
    assert(previous == instance_conditions(*instance));
    assert(url is Some && url->0@ == status_url(*instance, namespace@));
    let api_key_secret = match &instance.spec.api_key_secret_ref {
        Some(r) => Some(r.name.clone()),
        None => Some(instance.api_key_secret_name()),
    };
    SonarrStatus {
        conditions,
        url,
        api_key_secret,
        observed_generation: match instance.metadata.generation {
            Some(g) => g,
            None => 0,
        },
        ready_replicas,
        version: None,
    }
}

/// The URL an instance reports: with an enabled ingress, its host and path
/// behind "https://" exactly when the ingress has TLS and behind "http://"
/// when it has none; without one, the in-cluster URL of its Service.
pub proof fn lemma_status_url_scheme(
    st: SonarrStatus,
    s: Sonarr,
    namespace: Seq<char>,
    d: Option<DeploymentObservation>,
    time: Time,
)
    requires
        status_reported(st, s, namespace, d, time),
    ensures
        st.url is Some,
        s.spec.ingress is Some && s.spec.ingress->0.enabled && s.spec.ingress->0.tls is Some
            ==> st.url->0@ == "https://"@ + s.spec.ingress->0.host@ + s.spec.ingress->0.path@,
        s.spec.ingress is Some && s.spec.ingress->0.enabled && s.spec.ingress->0.tls is None
            ==> st.url->0@ == "http://"@ + s.spec.ingress->0.host@ + s.spec.ingress->0.path@,
        !(s.spec.ingress is Some && s.spec.ingress->0.enabled) ==> st.url->0@ == spec_internal_url(s, namespace),
{
    reveal_strlit("https");
    reveal_strlit("http");
    reveal_strlit("://");
    reveal_strlit("https://");
    reveal_strlit("http://");
    assert("https"@ + "://"@ =~= "https://"@);
    assert("http"@ + "://"@ =~= "http://"@);
}

/// Applying an instance starts with its claim, secret, Deployment and
/// Service, ends with its status, and applies the ingress exactly when one
/// is given and enabled and the HTTPRoute exactly when one is given and
/// enabled, each before the status.
pub proof fn lemma_apply_steps_cover_the_spec(s: Sonarr)
    ensures
        ({
            let steps = spec_apply_steps(s);
            &&& steps.len() >= 5
            &&& steps[0] == ApplyStep::Pvc
            &&& steps[1] == ApplyStep::Secret
            &&& steps[2] == ApplyStep::Deployment
            &&& steps[3] == ApplyStep::Service
            &&& steps.last() == ApplyStep::Status
            &&& steps.contains(ApplyStep::Ingress) <==> (s.spec.ingress is Some && s.spec.ingress->0.enabled)
            &&& steps.contains(ApplyStep::HttpRoute) <==> (s.spec.http_route is Some && s.spec.http_route->0.enabled)
            &&& forall|i: int| 0 <= i < steps.len() - 1 ==> steps[i] != ApplyStep::Status
        }),
{
    let steps = spec_apply_steps(s);
    let ing = s.spec.ingress is Some && s.spec.ingress->0.enabled;
    let route = s.spec.http_route is Some && s.spec.http_route->0.enabled;
    let base = seq![ApplyStep::Pvc, ApplyStep::Secret, ApplyStep::Deployment, ApplyStep::Service];
    if ing && route {
        assert(steps =~= base.push(ApplyStep::Ingress).push(ApplyStep::HttpRoute).push(ApplyStep::Status));
        assert(steps[4] == ApplyStep::Ingress);
        assert(steps[5] == ApplyStep::HttpRoute);
    } else if ing {
        assert(steps =~= base.push(ApplyStep::Ingress).push(ApplyStep::Status));
        assert(steps[4] == ApplyStep::Ingress);
        assert(!steps.contains(ApplyStep::HttpRoute));
    } else if route {
        assert(steps =~= base.push(ApplyStep::HttpRoute).push(ApplyStep::Status));
        assert(steps[4] == ApplyStep::HttpRoute);
        assert(!steps.contains(ApplyStep::Ingress));
    } else {
        assert(steps =~= base.push(ApplyStep::Status));
        assert(!steps.contains(ApplyStep::Ingress));
        assert(!steps.contains(ApplyStep::HttpRoute));
    }
}

/// The Service of an instance reaches Sonarr: it selects exactly the pods
/// of the instance's Deployment and forwards to the port its Sonarr
/// container listens on.
pub proof fn lemma_service_reaches_sonarr(
    p: ServicePlan,
    d: DeploymentPlan,
    s: Sonarr,
    namespace: Seq<char>,
    owner: OwnerReference,
    labels: Map<Seq<char>, Seq<char>>,
)
    requires
        service_planned(p, s, namespace, owner, labels),
        deployment_planned(d, s, namespace, owner, labels),
    ensures
        p.selector@ == d.template_labels@,
        p.selector@ == d.selector_labels@,
        d.containers@[0].ports is Some,
        p.target_port == d.containers@[0].ports->0@[0].container_port,
{
}

} // verus!
