//! The tag controller, and how every sub-resource controller reaches the
//! Sonarr instance it refers to: the instance must be ready and report a
//! URL, and its API key is read from its secret.

use vstd::prelude::*;
use vstd::utf8::{decode_utf8, valid_utf8};
use crate::api::models::TagResource;
use crate::controllers::deployment::{api_key_secret_key_of, api_key_secret_name_of};
use crate::controllers::utils::{conditions_after, lemma_type_index, lemma_update_keeps_others, type_index, types_distinct};
use crate::controllers::sonarr::{deployment_ready, instance_conditions, status_reported, DeploymentObservation};
use crate::controllers::traits::is_ready_condition;
use crate::crds::sonarr::{Sonarr, SonarrStatus};
use crate::crds::tag::SonarrTagSpec;
use crate::crds::SonarrInstanceRef;
use crate::error::Error;
use crate::meta::{Condition, Time};
use crate::text::{concat3, str_eq, string_of};

verus! {

/// The condition at `i` says "Ready" is "True".
pub open spec fn ready_at(cs: Seq<Condition>, i: int) -> bool {
    cs[i].type_@ == "Ready"@ && cs[i].status@ == "True"@
}

/// Some condition says "Ready" is "True".
pub open spec fn conditions_ready(cs: Seq<Condition>) -> bool {
    exists|i: int| 0 <= i < cs.len() && #[trigger] ready_at(cs, i)
}

/// An instance is ready when its status holds a "Ready" condition that is
/// "True".
pub open spec fn spec_instance_ready(s: Sonarr) -> bool {
    s.status is Some && conditions_ready(s.status->0.conditions@)
}

/// Whether some condition of a list says "Ready" is "True".
fn any_ready(cs: &Vec<Condition>) -> (r: bool)
    ensures
        r == conditions_ready(cs@),
{
    let n = cs.len();
    let mut i: usize = 0;
    while i < n
        invariant
            n == cs@.len(),
            i <= n,
            forall|j: int| 0 <= j < i ==> !#[trigger] ready_at(cs@, j),
        decreases n - i,
    {
        if str_eq(cs[i].type_.as_str(), "Ready") && str_eq(cs[i].status.as_str(), "True") {
            assert(ready_at(cs@, i as int));
            return true;
        }
        i = i + 1;
    }
    false
}

/// Whether an instance is ready.
pub fn instance_ready(instance: &Sonarr) -> (r: bool)
    ensures
        r == spec_instance_ready(*instance),
{
    match &instance.status {
        Some(s) => any_ready(&s.conditions),
        None => false,
    }
}

/// The namespace of the referenced instance: the reference's, else the
/// referring resource's.
pub fn instance_namespace(instance_ref: &SonarrInstanceRef, namespace: &str) -> (ns: String)
    ensures
        ns@ == match instance_ref.namespace {
            Some(n) => n@,
            None => namespace@,
        },
{
    match &instance_ref.namespace {
        Some(n) => n.clone(),
        None => string_of(namespace),
    }
}

/// The URL of the referenced instance, which must be ready and report one.
pub fn instance_url(instance_ref: &SonarrInstanceRef, instance: &Sonarr) -> (r: Result<String, Error>)
    ensures
        !spec_instance_ready(*instance) ==> r == Err::<String, Error>(Error::SonarrInstanceNotReady(instance_ref.name)),
        spec_instance_ready(*instance) ==> match instance.status->0.url {
            Some(u) => r == Ok::<String, Error>(u),
            None => r == Err::<String, Error>(Error::SonarrInstanceNotReady(instance_ref.name)),
        },
{
    if !instance_ready(instance) {
        return Err(Error::SonarrInstanceNotReady(instance_ref.name.clone()));
    }
    match &instance.status {
        Some(s) => match &s.url {
            Some(u) => Ok(u.clone()),
            None => Err(Error::SonarrInstanceNotReady(instance_ref.name.clone())),
        },
        None => Err(Error::SonarrInstanceNotReady(instance_ref.name.clone())),
    }
}

/// The secret and key that hold an instance's API key: the referenced ones,
/// else the generated secret under "api-key".
pub fn api_key_secret(instance: &Sonarr) -> (r: (String, String))
    ensures
        r.0@ == api_key_secret_name_of(*instance),
        r.1@ == api_key_secret_key_of(*instance),
{
    match &instance.spec.api_key_secret_ref {
        Some(s) => (s.name.clone(), s.key.clone()),
        None => (instance.api_key_secret_name(), string_of("api-key")),
    }
}

/// Text from bytes (`String::from_utf8`): present exactly when the bytes
/// are valid UTF-8, and then their decoding.
#[verifier::external_body]
fn utf8_to_string(bytes: Vec<u8>) -> (r: Option<String>)
    ensures
        r is Some == valid_utf8(bytes@),
        r matches Some(s) ==> s@ == decode_utf8(bytes@),
{
    String::from_utf8(bytes).ok()
}

fn clone_bytes(v: &Vec<u8>) -> (r: Vec<u8>)
    ensures
        r@ == v@,
{
    let mut r: Vec<u8> = Vec::new();
    let n = v.len();
    let mut i: usize = 0;
    while i < n
        invariant
            n == v@.len(),
            i <= n,
            r@ == v@.take(i as int),
        decreases n - i,
    {
        r.push(v[i]);
        proof {
            assert(v@.take(i + 1) =~= v@.take(i as int).push(v@[i as int]));
        }
        i = i + 1;
    }
    assert(v@.take(n as int) =~= v@);
    r
}

/// Index of the first entry with key `key`, or the length when none has.
pub open spec fn first_key(data: Seq<(String, Vec<u8>)>, key: Seq<char>) -> int
    decreases data.len(),
{
    if data.len() == 0 {
        0
    } else if data[0].0@ == key {
        0
    } else {
        1 + first_key(data.drop_first(), key)
    }
}

proof fn lemma_first_key(data: Seq<(String, Vec<u8>)>, key: Seq<char>)
    ensures
        0 <= first_key(data, key) <= data.len(),
        first_key(data, key) < data.len() ==> data[first_key(data, key)].0@ == key,
        forall|j: int| 0 <= j < first_key(data, key) ==> #[trigger] data[j].0@ != key,
    decreases data.len(),
{
    if data.len() > 0 && data[0].0@ != key {
        lemma_first_key(data.drop_first(), key);
        assert forall|j: int| 0 <= j < first_key(data, key) implies #[trigger] data[j].0@ != key by {
            if j > 0 {
                assert(data[j] == data.drop_first()[j - 1]);
            }
        }
    }
}

/// The text of the first value stored under `key`, when there is one and
/// it is valid UTF-8.
pub open spec fn secret_text(d: Seq<(String, Vec<u8>)>, key: Seq<char>) -> Option<Seq<char>> {
    let i = first_key(d, key);
    if 0 <= i < d.len() && valid_utf8(d[i].1@) {
        Some(decode_utf8(d[i].1@))
    } else {
        None
    }
}

/// The text stored under `key` in a secret's data: the secret must have
/// data, hold the key, and its value must be valid UTF-8.
pub fn secret_string(data: &Option<Vec<(String, Vec<u8>)>>, key: &String) -> (r: Result<String, Error>)
    ensures
        match *data {
            Some(d) => match secret_text(d@, key@) {
                Some(t) => r is Ok && r->Ok_0@ == t,
                None => r == Err::<String, Error>(Error::MissingApiCredentials),
            },
            None => r == Err::<String, Error>(Error::MissingApiCredentials),
        },
{
    match data {
        None => Err(Error::MissingApiCredentials),
        Some(d) => {
            proof {
                lemma_first_key(d@, key@);
            }
            let n = d.len();
            let mut i: usize = 0;
            while i < n
                invariant
                    *data == Some(*d),
                    n == d@.len(),
                    i <= n,
                    forall|j: int| 0 <= j < i ==> #[trigger] d@[j].0@ != key@,
                    0 <= first_key(d@, key@) <= d@.len(),
                    first_key(d@, key@) < d@.len() ==> d@[first_key(d@, key@)].0@ == key@,
                    forall|j: int| 0 <= j < first_key(d@, key@) ==> #[trigger] d@[j].0@ != key@,
                decreases n - i,
            {
                if d[i].0 == *key {
                    assert(first_key(d@, key@) == i);
                    let bytes = clone_bytes(&d[i].1);
                    assert(bytes@ == d@[i as int].1@);
                    let text = utf8_to_string(bytes);
                    let res: Result<String, Error> = match text {
                        Some(s) => Ok(s),
                        None => Err(Error::MissingApiCredentials),
                    };
                    return res;
                }
                i = i + 1;
            }
            assert(first_key(d@, key@) == n);
            Err(Error::MissingApiCredentials)
        },
    }
}

/// The API key read from the instance's secret. `fetched` is the secret's
/// data when the secret could be read, and `None` when it could not. A
/// secret that cannot be read, has no data, lacks the key or holds text
/// that is not UTF-8 gives `MissingApiCredentials`.
pub fn api_key_from_secret(fetched: &Option<Option<Vec<(String, Vec<u8>)>>>, key: &String) -> (r: Result<String, Error>)
    ensures
        match *fetched {
            Some(Some(d)) => match secret_text(d@, key@) {
                Some(t) => r is Ok && r->Ok_0@ == t,
                None => r == Err::<String, Error>(Error::MissingApiCredentials),
            },
            _ => r == Err::<String, Error>(Error::MissingApiCredentials),
        },
{
    match fetched {
        None => Err(Error::MissingApiCredentials),
        Some(data) => secret_string(data, key),
    }
}

/// Where to reach a referenced instance, once it was looked up (`None`
/// when it could not be read): its URL and the secret and key holding its
/// API key. An instance that could not be read is not found; one that is
/// not ready or reports no URL is not ready.
pub fn instance_target(instance_ref: &SonarrInstanceRef, fetched: Option<&Sonarr>) -> (r: Result<(String, String, String), Error>)
    ensures
        match fetched {
            None => r == Err::<(String, String, String), Error>(Error::SonarrInstanceNotFound(instance_ref.name)),
            Some(instance) => if !spec_instance_ready(*instance) || instance.status->0.url is None {
                r == Err::<(String, String, String), Error>(Error::SonarrInstanceNotReady(instance_ref.name))
            } else {
                r is Ok && r->Ok_0.0 == instance.status->0.url->0
                    && r->Ok_0.1@ == api_key_secret_name_of(*instance)
                    && r->Ok_0.2@ == api_key_secret_key_of(*instance)
            },
        },
{
    match fetched {
        None => Err(Error::SonarrInstanceNotFound(instance_ref.name.clone())),
        Some(instance) => match instance_url(instance_ref, instance) {
            Ok(url) => {
                let (name, key) = api_key_secret(instance);
                Ok((url, name, key))
            },
            Err(e) => Err(e),
        },
    }
}

/// The cache key of an instance: "namespace/name".
pub fn instance_key(namespace: &str, name: &str) -> (k: String)
    ensures
        k@ == namespace@ + "/"@ + name@,
{
    concat3(namespace, "/", name)
}

/// The tag to send: the spec's label, with the recorded id for an update.
pub fn tag_payload(spec: &SonarrTagSpec, id: Option<i32>) -> (t: TagResource)
    ensures
        t.id == id,
        t.label == spec.label,
{
    TagResource { id, label: spec.label.clone() }
}

/// Folding a condition into a list without repeated types leaves, for its
/// type, only conditions with its status.
proof fn lemma_type_carries_status(cs: Seq<Condition>, c: Condition)
    requires
        types_distinct(cs),
    ensures
        forall|j: int| 0 <= j < conditions_after(cs, c).len() && conditions_after(cs, c)[j].type_@ == c.type_@
            ==> #[trigger] conditions_after(cs, c)[j].status@ == c.status@,
{
    lemma_type_index(cs, c.type_@);
    let i = type_index(cs, c.type_@);
    let r = conditions_after(cs, c);
    assert forall|j: int| 0 <= j < r.len() && r[j].type_@ == c.type_@ implies #[trigger] r[j].status@ == c.status@ by {
        if i < cs.len() {
            if j != i {
                assert(r[j] == cs[j]);
                if j < i {
                } else {
                    assert(cs[i].type_@ != cs[j].type_@);
                }
            }
        } else {
            if j < cs.len() {
                assert(r[j] == cs[j]);
            }
        }
    }
}

/// The readiness that sub-resource controllers see of an instance is the
/// readiness of its Deployment that the instance controller last reported
/// (for a status whose conditions do not repeat a type).
pub proof fn lemma_reported_readiness(
    st: SonarrStatus,
    s: Sonarr,
    namespace: Seq<char>,
    d: Option<DeploymentObservation>,
    time: Time,
)
    requires
        status_reported(st, s, namespace, d, time),
        types_distinct(instance_conditions(s)),
    ensures
        conditions_ready(st.conditions@) == deployment_ready(d),
{
    let prev = instance_conditions(s);
    if deployment_ready(d) {
        let c = choose|c: Condition| is_ready_condition(c, true, "Ready"@, "Sonarr instance is ready"@, time)
            && st.conditions@ == #[trigger] conditions_after(prev, c);
        lemma_type_index(prev, c.type_@);
        let i = type_index(prev, c.type_@);
        let r = conditions_after(prev, c);
        if i < prev.len() {
            assert(ready_at(r, i));
        } else {
            assert(r[prev.len() as int] == c);
            assert(ready_at(r, prev.len() as int));
        }
    } else {
        let (c1, c2) = choose|c1: Condition, c2: Condition|
            is_ready_condition(c1, false, "NotReady"@, "Sonarr instance is not ready"@, time)
            && c2.type_@ == "Progressing"@ && c2.status@ == "True"@ && c2.reason@ == "Deploying"@
            && c2.message@ == "Deployment is in progress"@ && c2.last_transition_time == time
            && c2.observed_generation is None && st.conditions@ == #[trigger] conditions_after(conditions_after(prev, c1), c2);
        let r1 = conditions_after(prev, c1);
        lemma_type_carries_status(prev, c1);
        lemma_update_keeps_others(prev, c1);
        lemma_update_keeps_others(r1, c2);
        let r2 = conditions_after(r1, c2);
        lemma_type_index(r1, c2.type_@);
        assert("Ready"@ != "Progressing"@) by {
            reveal_strlit("Ready");
            reveal_strlit("Progressing");
            assert("Ready"@.len() != "Progressing"@.len());
        }
        assert("True"@ != "False"@) by {
            reveal_strlit("True");
            reveal_strlit("False");
            assert("True"@.len() != "False"@.len());
        }
        assert forall|j: int| 0 <= j < r2.len() implies !#[trigger] ready_at(r2, j) by {
            if j < r1.len() {
                assert(r1[j].type_@ != c2.type_@ ==> r2[j] == r1[j]);
                let k = type_index(r1, c2.type_@);
                if j == k && k < r1.len() {
                    assert(r1[j].type_@ == c2.type_@);
                }
            } else {
                assert(r2[j] == c2);
            }
        }
    }
}

} // verus!
