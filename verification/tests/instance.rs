use sonarr_operator::controllers::sonarr::{
    api_key_from_timestamp, apply_done, apply_steps, build_status, cleanup_done, create_labels, generate_api_key,
    ingress_plan, pvc_plan, secret_plan, service_plan, ApplyStep, DeploymentObservation,
};
use sonarr_operator::controllers::traits::Action;
use sonarr_operator::controllers::deployment::build_deployment;
use sonarr_operator::crds::sonarr::{IngressConfig, IngressTLS, Sonarr, SonarrSpec, SonarrStatus};
use sonarr_operator::crds::SecretKeySelector;
use sonarr_operator::meta::{Condition, ObjectMeta, OwnerReference, Time};
use sonarr_operator::string_map::StringMap;

fn meta(name: Option<&str>) -> ObjectMeta {
    ObjectMeta {
        name: name.map(|n| n.to_string()),
        generate_name: None,
        namespace: Some("media".to_string()),
        generation: Some(4),
        uid: Some("uid-1".to_string()),
    }
}

fn instance(name: Option<&str>) -> Sonarr {
    Sonarr { metadata: meta(name), spec: SonarrSpec::default(), status: None }
}

fn owner() -> OwnerReference {
    OwnerReference {
        api_version: "devopsarr.io/v1alpha1".to_string(),
        kind: "Sonarr".to_string(),
        name: "tv".to_string(),
        uid: "uid-1".to_string(),
        controller: Some(true),
        block_owner_deletion: Some(true),
    }
}

fn get(m: &StringMap, k: &str) -> Option<String> {
    m.get(&k.to_string()).cloned()
}

fn cond(t: &str, s: &str, r: &str) -> Condition {
    Condition {
        type_: t.to_string(),
        status: s.to_string(),
        reason: r.to_string(),
        message: String::new(),
        last_transition_time: Time { nanos: 0 },
        observed_generation: None,
    }
}

#[test]
fn names_derive_from_the_instance_name() {
    let s = instance(Some("tv"));
    assert_eq!(s.service_name(), "tv-sonarr");
    assert_eq!(s.deployment_name(), "tv-sonarr");
    assert_eq!(s.pvc_name(), "tv-sonarr-config");
    assert_eq!(s.api_key_secret_name(), "tv-sonarr-apikey");
    assert_eq!(s.internal_url("media"), "http://tv-sonarr.media.svc.cluster.local:8989");
}

#[test]
fn unnamed_instance_is_called_unknown() {
    let s = instance(None);
    assert_eq!(s.service_name(), "unknown-sonarr");
    assert_eq!(s.pvc_name(), "unknown-sonarr-config");
}

#[test]
fn ports_and_service_type_default_when_unset() {
    let mut s = instance(Some("tv"));
    assert_eq!(s.service_port(), 8989);
    assert_eq!(s.container_port(), 8989);
    assert_eq!(s.service_type(), "ClusterIP");
    s.spec.service.port = 80;
    s.spec.service.container_port = 9000;
    s.spec.service.service_type = "NodePort".to_string();
    assert_eq!(s.service_port(), 80);
    assert_eq!(s.container_port(), 9000);
    assert_eq!(s.service_type(), "NodePort");
    assert_eq!(s.internal_url("ns"), "http://tv-sonarr.ns.svc.cluster.local:80");
}

#[test]
fn labels_name_app_instance_and_manager() {
    let l = create_labels("tv");
    assert_eq!(get(&l, "app.kubernetes.io/name").as_deref(), Some("sonarr"));
    assert_eq!(get(&l, "app.kubernetes.io/instance").as_deref(), Some("tv"));
    assert_eq!(get(&l, "app.kubernetes.io/managed-by").as_deref(), Some("sonarr-operator"));
    assert_eq!(l.entries().len(), 3);
}

#[test]
fn pvc_uses_defaults_for_empty_size_and_modes() {
    let s = instance(Some("tv"));
    let l = create_labels("tv");
    let p = pvc_plan("media", &s, &owner(), &l).unwrap();
    assert_eq!(p.metadata.name, "tv-sonarr-config");
    assert_eq!(p.metadata.namespace, "media");
    assert_eq!(p.storage_request, "1Gi");
    assert_eq!(p.access_modes, vec!["ReadWriteOnce".to_string()]);
    assert_eq!(p.metadata.owner_references.len(), 1);
}

#[test]
fn pvc_keeps_configured_size_and_is_skipped_for_existing_claim() {
    let mut s = instance(Some("tv"));
    s.spec.storage.size = "5Gi".to_string();
    s.spec.storage.access_modes = vec!["ReadWriteMany".to_string()];
    let l = create_labels("tv");
    let p = pvc_plan("media", &s, &owner(), &l).unwrap();
    assert_eq!(p.storage_request, "5Gi");
    assert_eq!(p.access_modes, vec!["ReadWriteMany".to_string()]);
    s.spec.storage.existing_claim = Some("shared".to_string());
    assert!(pvc_plan("media", &s, &owner(), &l).is_none());
}

#[test]
fn api_key_is_32_zero_padded_hex_digits() {
    assert_eq!(api_key_from_timestamp(0), "00000000000000000000000000000000");
    assert_eq!(api_key_from_timestamp(255), "000000000000000000000000000000ff");
    assert_eq!(api_key_from_timestamp(0x1234_abcd), "0000000000000000000000001234abcd");
    let k = generate_api_key().unwrap();
    assert_eq!(k.len(), 32);
    assert!(k.chars().all(|c| c.is_ascii_hexdigit() && !c.is_ascii_uppercase()));
    assert_ne!(k, "00000000000000000000000000000000");
}

#[test]
fn secret_holds_the_key_unless_one_is_referenced() {
    let mut s = instance(Some("tv"));
    let l = create_labels("tv");
    let p = secret_plan("media", &s, &owner(), &l, "abc".to_string()).unwrap();
    assert_eq!(p.metadata.name, "tv-sonarr-apikey");
    assert_eq!(p.key, "api-key");
    assert_eq!(p.value, "abc");
    s.spec.api_key_secret_ref = Some(SecretKeySelector { name: "mine".to_string(), key: "k".to_string() });
    assert!(secret_plan("media", &s, &owner(), &l, "abc".to_string()).is_none());
}

#[test]
fn service_targets_the_container_port() {
    let mut s = instance(Some("tv"));
    s.spec.service.port = 80;
    let l = create_labels("tv");
    let p = service_plan("media", &s, &owner(), &l);
    assert_eq!(p.metadata.name, "tv-sonarr");
    assert_eq!(p.port, 80);
    assert_eq!(p.target_port, 8989);
    assert_eq!(p.type_, "ClusterIP");
    assert_eq!(p.port_name, "http");
    assert_eq!(p.protocol, "TCP");
    assert!(p.metadata.annotations.is_none());
}

#[test]
fn ingress_points_at_the_service() {
    let s = instance(Some("tv"));
    let l = create_labels("tv");
    let cfg = IngressConfig {
        enabled: true,
        ingress_class_name: Some("nginx".to_string()),
        host: "tv.example.com".to_string(),
        path: "/".to_string(),
        path_type: "Prefix".to_string(),
        tls: Some(IngressTLS { secret_name: "tls".to_string(), hosts: vec![] }),
        annotations: StringMap::new(),
    };
    let p = ingress_plan("media", &s, &cfg, &owner(), &l);
    assert_eq!(p.metadata.name, "tv-sonarr");
    assert_eq!(p.service_name, "tv-sonarr");
    assert_eq!(p.service_port, 8989);
    assert_eq!(p.host, "tv.example.com");
    let tls = p.tls.unwrap();
    assert_eq!(tls.len(), 1);
    assert_eq!(tls[0].secret_name, "tls");
    assert_eq!(tls[0].hosts, vec!["tv.example.com".to_string()]);
}

#[test]
fn apply_steps_include_enabled_ingress_only() {
    let mut s = instance(Some("tv"));
    assert_eq!(
        apply_steps(&s),
        vec![ApplyStep::Pvc, ApplyStep::Secret, ApplyStep::Deployment, ApplyStep::Service, ApplyStep::Status]
    );
    s.spec.ingress = Some(IngressConfig {
        enabled: true,
        ingress_class_name: None,
        host: "h".to_string(),
        path: "/".to_string(),
        path_type: "Prefix".to_string(),
        tls: None,
        annotations: StringMap::new(),
    });
    assert_eq!(apply_steps(&s)[4], ApplyStep::Ingress);
    assert_eq!(apply_done(), Action::Requeue(300));
    assert_eq!(cleanup_done(), Action::AwaitChange);
}

#[test]
fn status_reports_ready_deployment() {
    let s = instance(Some("tv"));
    let st: SonarrStatus = build_status(&s, "media", Some(DeploymentObservation { ready_replicas: Some(1), replicas: Some(1) }), Time { nanos: 5 });
    assert_eq!(st.url.as_deref(), Some("http://tv-sonarr.media.svc.cluster.local:8989"));
    assert_eq!(st.api_key_secret.as_deref(), Some("tv-sonarr-apikey"));
    assert_eq!(st.observed_generation, 4);
    assert_eq!(st.ready_replicas, 1);
    assert_eq!(st.conditions.len(), 1);
    assert_eq!(st.conditions[0].type_, "Ready");
    assert_eq!(st.conditions[0].status, "True");
    assert_eq!(st.conditions[0].reason, "Ready");
}

#[test]
fn status_reports_progress_while_not_ready() {
    let mut s = instance(Some("tv"));
    s.status = Some(SonarrStatus {
        conditions: vec![cond("Ready", "True", "Ready")],
        url: None,
        api_key_secret: None,
        observed_generation: 1,
        ready_replicas: 1,
        version: None,
    });
    let st = build_status(&s, "media", Some(DeploymentObservation { ready_replicas: None, replicas: Some(1) }), Time { nanos: 5 });
    assert_eq!(st.ready_replicas, 0);
    assert_eq!(st.conditions.len(), 2);
    assert_eq!(st.conditions[0].type_, "Ready");
    assert_eq!(st.conditions[0].status, "False");
    assert_eq!(st.conditions[0].reason, "NotReady");
    assert_eq!(st.conditions[1].type_, "Progressing");
    assert_eq!(st.conditions[1].reason, "Deploying");
    let none = build_status(&instance(Some("tv")), "media", None, Time { nanos: 5 });
    assert_eq!(none.conditions[0].status, "False");
}

#[test]
fn status_uses_ingress_url_when_enabled() {
    let mut s = instance(Some("tv"));
    s.spec.ingress = Some(IngressConfig {
        enabled: true,
        ingress_class_name: None,
        host: "tv.example.com".to_string(),
        path: "/app".to_string(),
        path_type: "Prefix".to_string(),
        tls: Some(IngressTLS { secret_name: "t".to_string(), hosts: vec![] }),
        annotations: StringMap::new(),
    });
    let st = build_status(&s, "media", None, Time { nanos: 5 });
    assert_eq!(st.url.as_deref(), Some("https://tv.example.com/app"));
}

#[test]
fn deployment_runs_one_sonarr_container() {
    let s = instance(Some("tv"));
    let l = create_labels("tv");
    let d = build_deployment(&s, "media", &owner(), &l).ok().unwrap();
    assert_eq!(d.metadata.name, "tv-sonarr");
    assert_eq!(d.replicas, 1);
    assert_eq!(d.containers.len(), 1);
    let c = &d.containers[0];
    assert_eq!(c.name, "sonarr");
    assert_eq!(c.image, "lscr.io/linuxserver/sonarr:latest");
    let ports = c.ports.as_ref().unwrap();
    assert_eq!(ports[0].container_port, 8989);
    assert_eq!(c.volume_mounts[0].mount_path, "/config");
    assert_eq!(d.volumes[0].persistent_volume_claim.as_ref().unwrap().claim_name, "tv-sonarr-config");
}

#[test]
fn default_storage_and_service_follow_the_documented_values() {
    let spec = SonarrSpec::default();
    assert_eq!(spec.storage.size, "1Gi");
    assert_eq!(spec.storage.access_modes, vec!["ReadWriteOnce".to_string()]);
    assert_eq!(spec.service.service_type, "ClusterIP");
    assert_eq!(spec.service.port, 8989);
    assert_eq!(spec.service.container_port, 8989);
}
