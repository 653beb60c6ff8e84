use sonarr_operator::api::SonarrClientFactory;
use sonarr_operator::controllers::indexer::{resolve_secret_value, secret_source, SecretSource};
use sonarr_operator::controllers::tag::{
    api_key_from_secret, api_key_secret, instance_key, instance_namespace, instance_ready, instance_target, instance_url,
    secret_string,
};
use sonarr_operator::crds::sonarr::{Sonarr, SonarrSpec, SonarrStatus};
use sonarr_operator::crds::{SecretKeySelector, SonarrInstanceRef};
use sonarr_operator::error::Error;
use sonarr_operator::meta::{Condition, ObjectMeta, Time};

fn cond(t: &str, s: &str) -> Condition {
    Condition {
        type_: t.to_string(),
        status: s.to_string(),
        reason: String::new(),
        message: String::new(),
        last_transition_time: Time { nanos: 0 },
        observed_generation: None,
    }
}

fn sonarr(conditions: Vec<Condition>, url: Option<&str>) -> Sonarr {
    Sonarr {
        metadata: ObjectMeta {
            name: Some("tv".to_string()),
            generate_name: None,
            namespace: Some("media".to_string()),
            generation: None,
            uid: None,
        },
        spec: SonarrSpec::default(),
        status: Some(SonarrStatus {
            conditions,
            url: url.map(|u| u.to_string()),
            api_key_secret: None,
            observed_generation: 0,
            ready_replicas: 1,
            version: None,
        }),
    }
}

fn r(name: &str, ns: Option<&str>) -> SonarrInstanceRef {
    SonarrInstanceRef { name: name.to_string(), namespace: ns.map(|n| n.to_string()) }
}

#[test]
fn readiness_needs_a_true_ready_condition() {
    assert!(instance_ready(&sonarr(vec![cond("Progressing", "True"), cond("Ready", "True")], None)));
    assert!(!instance_ready(&sonarr(vec![cond("Ready", "False")], None)));
    let mut s = sonarr(vec![], None);
    s.status = None;
    assert!(!instance_ready(&s));
}

#[test]
fn url_needs_a_ready_instance_with_a_url() {
    let ok = sonarr(vec![cond("Ready", "True")], Some("http://x:8989"));
    assert_eq!(instance_url(&r("tv", None), &ok).ok(), Some("http://x:8989".to_string()));
    let no_url = sonarr(vec![cond("Ready", "True")], None);
    assert!(matches!(instance_url(&r("tv", None), &no_url), Err(Error::SonarrInstanceNotReady(n)) if n == "tv"));
    let not_ready = sonarr(vec![cond("Ready", "False")], Some("http://x"));
    assert!(matches!(instance_url(&r("tv", None), &not_ready), Err(Error::SonarrInstanceNotReady(_))));
}

#[test]
fn target_of_a_missing_instance_is_not_found() {
    assert!(matches!(instance_target(&r("tv", None), None), Err(Error::SonarrInstanceNotFound(n)) if n == "tv"));
    let ok = sonarr(vec![cond("Ready", "True")], Some("http://x"));
    let (url, secret, key) = instance_target(&r("tv", None), Some(&ok)).ok().unwrap();
    assert_eq!(url, "http://x");
    assert_eq!(secret, "tv-sonarr-apikey");
    assert_eq!(key, "api-key");
}

#[test]
fn api_key_secret_prefers_the_reference() {
    let mut s = sonarr(vec![], None);
    assert_eq!(api_key_secret(&s), ("tv-sonarr-apikey".to_string(), "api-key".to_string()));
    s.spec.api_key_secret_ref = Some(SecretKeySelector { name: "mine".to_string(), key: "token".to_string() });
    assert_eq!(api_key_secret(&s), ("mine".to_string(), "token".to_string()));
}

#[test]
fn namespace_and_key_of_the_instance() {
    assert_eq!(instance_namespace(&r("tv", Some("other")), "media"), "other");
    assert_eq!(instance_namespace(&r("tv", None), "media"), "media");
    assert_eq!(instance_key("media", "tv"), "media/tv");
}

#[test]
fn secret_value_is_read_as_utf8() {
    let data = Some(vec![("a".to_string(), b"x".to_vec()), ("api-key".to_string(), b"s3cr3t".to_vec())]);
    assert_eq!(secret_string(&data, &"api-key".to_string()).ok(), Some("s3cr3t".to_string()));
    assert!(matches!(secret_string(&data, &"nope".to_string()), Err(Error::MissingApiCredentials)));
    assert!(matches!(secret_string(&None, &"api-key".to_string()), Err(Error::MissingApiCredentials)));
    let bad = Some(vec![("api-key".to_string(), vec![0xff, 0xfe])]);
    assert!(matches!(secret_string(&bad, &"api-key".to_string()), Err(Error::MissingApiCredentials)));
    let multi = Some(vec![("k".to_string(), "héllo".as_bytes().to_vec())]);
    assert_eq!(secret_string(&multi, &"k".to_string()).ok(), Some("héllo".to_string()));
}

#[test]
fn unreadable_secret_means_missing_credentials() {
    assert!(matches!(api_key_from_secret(&None, &"api-key".to_string()), Err(Error::MissingApiCredentials)));
    let fetched = Some(Some(vec![("api-key".to_string(), b"k".to_vec())]));
    assert_eq!(api_key_from_secret(&fetched, &"api-key".to_string()).ok(), Some("k".to_string()));
}

#[test]
fn secret_values_come_direct_first() {
    let sel = Some(SecretKeySelector { name: "s".to_string(), key: "k".to_string() });
    assert!(matches!(secret_source(&Some("v".to_string()), &sel), SecretSource::Direct(v) if v == "v"));
    assert!(matches!(secret_source(&None, &sel), SecretSource::Secret(s) if s.name == "s" && s.key == "k"));
    assert!(matches!(secret_source(&None, &None), SecretSource::Absent));
    let fetched = Some(Some(vec![("k".to_string(), b"val".to_vec())]));
    assert_eq!(resolve_secret_value(&fetched, &"k".to_string()).ok(), Some(Some("val".to_string())));
    assert!(matches!(resolve_secret_value(&Some(None), &"k".to_string()), Err(Error::MissingApiCredentials)));
}

#[test]
fn client_settings_are_cached_per_instance() {
    let mut f = SonarrClientFactory::new();
    let a = f.get_config("http://a:8989/", "key-a", "media/tv");
    assert_eq!(a.base_path, "http://a:8989");
    assert_eq!(a.api_key, "key-a");
    let again = f.get_config("http://changed", "other", "media/tv");
    assert_eq!(again.base_path, "http://a:8989");
    assert_eq!(again.api_key, "key-a");
    let b = f.get_config("http://b//", "key-b", "media/anime");
    assert_eq!(b.base_path, "http://b");
    f.invalidate("media/tv");
    let rebuilt = f.get_config("http://changed", "other", "media/tv");
    assert_eq!(rebuilt.base_path, "http://changed");
    assert_eq!(rebuilt.api_key, "other");
    assert_eq!(f.get_config("x", "y", "media/anime").api_key, "key-b");
}
