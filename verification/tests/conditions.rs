use sonarr_operator::controllers::traits::{error_policy, failed_conditions, require_namespace, synced_status, Action};
use sonarr_operator::controllers::utils::{
    progressing_condition, progressing_condition_at, ready_condition, ready_condition_at, update_conditions,
};
use sonarr_operator::error::Error;
use sonarr_operator::meta::{Condition, ObjectMeta, Time};

fn cond(t: &str, s: &str, r: &str, m: &str) -> Condition {
    Condition {
        type_: t.to_string(),
        status: s.to_string(),
        reason: r.to_string(),
        message: m.to_string(),
        last_transition_time: Time { nanos: 7 },
        observed_generation: None,
    }
}

#[test]
fn ready_condition_fields() {
    let c = ready_condition(true, "Synced", "all good").expect("clock in range");
    assert_eq!(c.type_, "Ready");
    assert_eq!(c.status, "True");
    assert_eq!(c.reason, "Synced");
    assert_eq!(c.message, "all good");
    assert!(c.observed_generation.is_none());
    assert!(c.last_transition_time.nanos > 0);
    assert_eq!(ready_condition(false, "Error", "x").unwrap().status, "False");
    let p = progressing_condition(true, "Deploying", "in progress").unwrap();
    assert_eq!(p.type_, "Progressing");
    assert_eq!(p.status, "True");
}

#[test]
fn update_appends_a_new_type() {
    let mut cs = vec![cond("Progressing", "True", "Deploying", "")];
    update_conditions(&mut cs, cond("Ready", "True", "Synced", "m"));
    assert_eq!(cs.len(), 2);
    assert_eq!(cs[1].type_, "Ready");
}

#[test]
fn update_replaces_a_changed_condition_of_the_same_type() {
    let mut cs = vec![cond("Ready", "False", "Error", "old"), cond("Other", "True", "X", "")];
    update_conditions(&mut cs, cond("Ready", "True", "Synced", "new"));
    assert_eq!(cs.len(), 2);
    assert_eq!(cs[0].status, "True");
    assert_eq!(cs[0].message, "new");
    assert_eq!(cs[1].type_, "Other");
}

#[test]
fn update_keeps_a_condition_with_same_status_and_reason() {
    let mut cs = vec![cond("Ready", "True", "Synced", "old message")];
    update_conditions(&mut cs, cond("Ready", "True", "Synced", "new message"));
    assert_eq!(cs.len(), 1);
    assert_eq!(cs[0].message, "old message");
}

#[test]
fn update_twice_is_update_once() {
    let mut once = vec![cond("Ready", "False", "Error", "")];
    update_conditions(&mut once, cond("Ready", "True", "Synced", "m"));
    let mut twice = once.clone();
    update_conditions(&mut twice, cond("Ready", "True", "Synced", "m"));
    assert_eq!(once.len(), twice.len());
    assert_eq!(once[0].status, twice[0].status);
    assert_eq!(once[0].message, twice[0].message);
}

#[test]
fn synced_status_folds_in_a_ready_condition() {
    let prev = vec![cond("Ready", "False", "Error", "boom")];
    let st = synced_status(Some(&prev), Some(12), Some(3), "Tag synchronized with Sonarr", Time { nanos: 5 });
    assert_eq!(st.id, Some(12));
    assert_eq!(st.observed_generation, 3);
    assert_eq!(st.conditions.len(), 1);
    assert_eq!(st.conditions[0].status, "True");
    assert_eq!(st.conditions[0].reason, "Synced");
    assert_eq!(st.conditions[0].message, "Tag synchronized with Sonarr");
    assert_eq!(st.conditions[0].last_transition_time, Time { nanos: 5 });
    let fresh = synced_status(None, None, None, "m", Time { nanos: 5 });
    assert_eq!(fresh.observed_generation, 0);
    assert_eq!(fresh.conditions.len(), 1);
}

#[test]
fn failed_conditions_mark_the_error() {
    let cs = failed_conditions(&vec![], "it broke", Time { nanos: 5 });
    assert_eq!(cs.len(), 1);
    assert_eq!(cs[0].status, "False");
    assert_eq!(cs[0].reason, "Error");
    assert_eq!(cs[0].message, "it broke");
    assert_eq!(cs[0].last_transition_time, Time { nanos: 5 });
}

#[test]
fn namespace_is_required() {
    let mut m = ObjectMeta { name: None, generate_name: None, namespace: None, generation: None, uid: None };
    assert!(matches!(require_namespace(&m), Err(Error::MissingObjectKey(".metadata.namespace"))));
    m.namespace = Some("media".to_string());
    assert_eq!(require_namespace(&m).ok(), Some("media".to_string()));
}

#[test]
fn errors_are_retried_after_a_minute() {
    assert_eq!(error_policy(), Action::Requeue(60));
}

#[test]
fn error_messages() {
    assert_eq!(Error::MissingApiCredentials.message(), "Missing Sonarr API credentials");
    assert_eq!(Error::SonarrInstanceNotReady("tv".to_string()).message(), "Sonarr instance not ready: tv");
    assert_eq!(Error::missing_object_key("k").message(), "Missing object key: k");
    assert_eq!(Error::Other("plain".to_string()).message(), "plain");
    assert_eq!(Error::SonarrApiError("x".to_string()).message(), "Sonarr API error: x");
}

#[test]
fn a_condition_records_the_time_it_changed() {
    let c = ready_condition_at(true, "Synced", "ok", Time { nanos: 42 });
    assert_eq!((c.type_.as_str(), c.status.as_str(), c.reason.as_str(), c.message.as_str()), ("Ready", "True", "Synced", "ok"));
    assert_eq!(c.last_transition_time, Time { nanos: 42 });
    assert_eq!(c.observed_generation, None);
    let p = progressing_condition_at(false, "Waiting", "not yet", Time { nanos: 9 });
    assert_eq!((p.type_.as_str(), p.status.as_str(), p.reason.as_str(), p.message.as_str()), ("Progressing", "False", "Waiting", "not yet"));
    assert_eq!(p.last_transition_time, Time { nanos: 9 });
}
