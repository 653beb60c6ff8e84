//! Global settings of a Sonarr instance (naming, indexers, download
//! clients, media management) are configured by resources of which only
//! one may exist per instance. A second one is refused with a "Conflict"
//! status; the first is merged into Sonarr's settings, where each setting
//! the spec leaves out keeps its current value.

use vstd::prelude::*;
use crate::controllers::traits::{is_ready_condition, prior_conditions};
use crate::controllers::utils::{clone_conditions, conditions_after, ready_condition_at, update_conditions};
use crate::error::Error;
use crate::meta::{Condition, Time};
use crate::text::{concat3, str_eq};

verus! {

/// A configuration resource of the same kind, as listed in the namespace:
/// its name, the instance it refers to, and whether it has a creation
/// time.
pub struct ConfigEntry {
    pub name: String,
    pub ref_name: String,
    pub ref_namespace: Option<String>,
    pub created: bool,
}

/// The namespace of the instance a reference points at: the one it names,
/// else `namespace`, that of the referring resource.
pub open spec fn target_namespace(ref_namespace: Option<Seq<char>>, namespace: Seq<char>) -> Seq<char> {
    match ref_namespace {
        Some(n) => n,
        None => namespace,
    }
}

/// Whether an entry conflicts with the resource `current` referring to
/// instance `ref_name` in `ref_namespace`, all of them listed in
/// `namespace`: another resource referring to the same instance, which,
/// where `require_created` is set, has a creation time. A reference that
/// names no namespace points into `namespace`.
pub open spec fn conflicts(
    e: ConfigEntry,
    namespace: Seq<char>,
    current: Seq<char>,
    ref_name: Seq<char>,
    ref_namespace: Option<Seq<char>>,
    require_created: bool,
) -> bool {
    &&& e.name@ != current
    &&& e.ref_name@ == ref_name
    &&& target_namespace(opt_view(e.ref_namespace), namespace) == target_namespace(ref_namespace, namespace)
    &&& (require_created ==> e.created)
}

/// The view of an optional text.
pub open spec fn opt_view(o: Option<String>) -> Option<Seq<char>> {
    match o {
        Some(s) => Some(s@),
        None => None,
    }
}

/// Index of the first conflicting entry, or the length when none
/// conflicts.
pub open spec fn first_conflict(
    es: Seq<ConfigEntry>,
    namespace: Seq<char>,
    current: Seq<char>,
    ref_name: Seq<char>,
    ref_namespace: Option<Seq<char>>,
    require_created: bool,
) -> int
    decreases es.len(),
{
    if es.len() == 0 {
        0
    } else if conflicts(es[0], namespace, current, ref_name, ref_namespace, require_created) {
        0
    } else {
        1 + first_conflict(es.drop_first(), namespace, current, ref_name, ref_namespace, require_created)
    }
}

proof fn lemma_first_conflict(
    es: Seq<ConfigEntry>,
    namespace: Seq<char>,
    current: Seq<char>,
    ref_name: Seq<char>,
    ref_namespace: Option<Seq<char>>,
    require_created: bool,
)
    ensures
        0 <= first_conflict(es, namespace, current, ref_name, ref_namespace, require_created) <= es.len(),
        first_conflict(es, namespace, current, ref_name, ref_namespace, require_created) < es.len() ==> conflicts(
            es[first_conflict(es, namespace, current, ref_name, ref_namespace, require_created)],
            namespace,
            current,
            ref_name,
            ref_namespace,
            require_created,
        ),
        forall|j: int|
            0 <= j < first_conflict(es, namespace, current, ref_name, ref_namespace, require_created) ==> !conflicts(
                #[trigger] es[j],
                namespace,
                current,
                ref_name,
                ref_namespace,
                require_created,
            ),
    decreases es.len(),
{
    if es.len() > 0 && !conflicts(es[0], namespace, current, ref_name, ref_namespace, require_created) {
        lemma_first_conflict(es.drop_first(), namespace, current, ref_name, ref_namespace, require_created);
        assert forall|j: int| 0 <= j < first_conflict(es, namespace, current, ref_name, ref_namespace, require_created) implies !conflicts(
            #[trigger] es[j],
            namespace,
            current,
            ref_name,
            ref_namespace,
            require_created,
        ) by {
            if j > 0 {
                assert(es[j] == es.drop_first()[j - 1]);
            }
        }
    }
}

fn same_target(a: &Option<String>, b: &Option<String>, namespace: &str) -> (r: bool)
    ensures
        r == (target_namespace(opt_view(*a), namespace@) == target_namespace(opt_view(*b), namespace@)),
{
    let x = match a {
        Some(x) => x.as_str(),
        None => namespace,
    };
    let y = match b {
        Some(y) => y.as_str(),
        None => namespace,
    };
    str_eq(x, y)
}

/// The name of another resource of the same kind in `namespace` that
/// configures the same instance, if there is one: the first in the
/// listing. A reference that names no namespace points into `namespace`.
/// For media management settings (`require_created`), only a resource
/// with a creation time counts.
pub fn check_singleton(
    configs: &Vec<ConfigEntry>,
    namespace: &str,
    current_name: &str,
    ref_name: &str,
    ref_namespace: &Option<String>,
    require_created: bool,
) -> (r: Option<String>)
    ensures
        ({
            let i = first_conflict(configs@, namespace@, current_name@, ref_name@, opt_view(*ref_namespace), require_created);
            if i < configs@.len() {
                r == Some(configs@[i].name)
            } else {
                r is None
            }
        }),
{
    let ghost ns = opt_view(*ref_namespace);
    let ghost home = namespace@;
    proof {
        lemma_first_conflict(configs@, home, current_name@, ref_name@, ns, require_created);
    }
    let n = configs.len();
    let mut i: usize = 0;
    while i < n
        invariant
            n == configs@.len(),
            i <= n,
            ns == opt_view(*ref_namespace),
            home == namespace@,
            forall|j: int| 0 <= j < i ==> !conflicts(#[trigger] configs@[j], home, current_name@, ref_name@, ns, require_created),
            0 <= first_conflict(configs@, home, current_name@, ref_name@, ns, require_created) <= configs@.len(),
            first_conflict(configs@, home, current_name@, ref_name@, ns, require_created) < configs@.len() ==> conflicts(
                configs@[first_conflict(configs@, home, current_name@, ref_name@, ns, require_created)],
                home,
                current_name@,
                ref_name@,
                ns,
                require_created,
            ),
            forall|j: int|
                0 <= j < first_conflict(configs@, home, current_name@, ref_name@, ns, require_created) ==> !conflicts(
                    #[trigger] configs@[j],
                    home,
                    current_name@,
                    ref_name@,
                    ns,
                    require_created,
                ),
        decreases n - i,
    {
        let e = &configs[i];
        let hit = !str_eq(e.name.as_str(), current_name) && str_eq(e.ref_name.as_str(), ref_name)
            && same_target(&e.ref_namespace, ref_namespace, namespace) && (!require_created || e.created);
        if hit {
            assert(conflicts(configs@[i as int], home, current_name@, ref_name@, ns, require_created));
            assert(first_conflict(configs@, home, current_name@, ref_name@, ns, require_created) == i);
            return Some(e.name.clone());
        }
        i = i + 1;
    }
    None
}

/// Where the reconciliation of a configuration resource stands.
#[derive(Clone, Copy, Debug, PartialEq, Eq, Structural)]
pub enum ConfigPhase {
    Start,
    Checking,
    Applying,
    Reporting,
    Done,
    Failed,
}

/// What came back from the last command.
pub enum ConfigEvent {
    /// The reconciliation begins
    Begin,
    /// The resources of the kind in the namespace
    Listed(Vec<ConfigEntry>),
    /// The settings were merged into Sonarr's
    Applied,
    /// The status was written
    Reported,
}

/// What to do next.
#[derive(Clone, Debug, PartialEq, Eq)]
pub enum ConfigCommand {
    /// List the resources of the kind in the namespace
    List,
    /// Merge the spec into Sonarr's settings
    Apply,
    /// Write the status: refused because of the named resource, or synced
    Report(Option<String>),
    /// Done: look again later
    Finish,
    /// Give up with the error of the last call
    Abort,
}

/// One step of the reconciliation of the resource `current` in `namespace`
/// that refers to instance `ref_name` in `ref_namespace`: list its kind;
/// when another resource configures the same instance, report the
/// conflict and apply nothing; else apply the settings and report them
/// synced.
pub open spec fn config_next(
    namespace: Seq<char>,
    current: Seq<char>,
    ref_name: Seq<char>,
    ref_namespace: Option<Seq<char>>,
    require_created: bool,
    phase: ConfigPhase,
    event: ConfigEvent,
) -> (ConfigPhase, ConfigCommand) {
    match (phase, event) {
        (ConfigPhase::Start, ConfigEvent::Begin) => (ConfigPhase::Checking, ConfigCommand::List),
        (ConfigPhase::Checking, ConfigEvent::Listed(es)) => {
            let i = first_conflict(es@, namespace, current, ref_name, ref_namespace, require_created);
            if i < es@.len() {
                (ConfigPhase::Reporting, ConfigCommand::Report(Some(es@[i].name)))
            } else {
                (ConfigPhase::Applying, ConfigCommand::Apply)
            }
        },
        (ConfigPhase::Applying, ConfigEvent::Applied) => (ConfigPhase::Reporting, ConfigCommand::Report(None)),
        (ConfigPhase::Reporting, ConfigEvent::Reported) => (ConfigPhase::Done, ConfigCommand::Finish),
        _ => (ConfigPhase::Failed, ConfigCommand::Abort),
    }
}

/// One step of the reconciliation of a configuration resource.
pub fn config_step(
    namespace: &str,
    current_name: &str,
    ref_name: &str,
    ref_namespace: &Option<String>,
    require_created: bool,
    phase: ConfigPhase,
    event: &ConfigEvent,
) -> (r: (ConfigPhase, ConfigCommand))
    ensures
        (r.0, r.1) == config_next(
            namespace@,
            current_name@,
            ref_name@,
            opt_view(*ref_namespace),
            require_created,
            phase,
            *event,
        ),
{
    match (phase, event) {
        (ConfigPhase::Start, ConfigEvent::Begin) => (ConfigPhase::Checking, ConfigCommand::List),
        (ConfigPhase::Checking, ConfigEvent::Listed(es)) => {
            let found = check_singleton(es, namespace, current_name, ref_name, ref_namespace, require_created);
            match found {
                Some(other) => (ConfigPhase::Reporting, ConfigCommand::Report(Some(other))),
                None => (ConfigPhase::Applying, ConfigCommand::Apply),
            }
        },
        (ConfigPhase::Applying, ConfigEvent::Applied) => (ConfigPhase::Reporting, ConfigCommand::Report(None)),
        (ConfigPhase::Reporting, ConfigEvent::Reported) => (ConfigPhase::Done, ConfigCommand::Finish),
        _ => (ConfigPhase::Failed, ConfigCommand::Abort),
    }
}

/// A resource is applied only when no other resource in its namespace
/// configures the same instance: the step after a listing applies exactly
/// when the listing holds no conflict.
pub proof fn lemma_applied_only_without_conflict(
    namespace: Seq<char>,
    current: Seq<char>,
    ref_name: Seq<char>,
    ref_namespace: Option<Seq<char>>,
    require_created: bool,
    phase: ConfigPhase,
    event: ConfigEvent,
)
    requires
        config_next(namespace, current, ref_name, ref_namespace, require_created, phase, event).1
            == ConfigCommand::Apply,
    ensures
        phase == ConfigPhase::Checking,
        event matches ConfigEvent::Listed(es) && forall|j: int|
            0 <= j < es@.len() ==> !conflicts(#[trigger] es@[j], namespace, current, ref_name, ref_namespace, require_created),
{
    if let ConfigEvent::Listed(es) = event {
        lemma_first_conflict(es@, namespace, current, ref_name, ref_namespace, require_created);
    }
}

/// The message of the status of a refused resource.
pub open spec fn conflict_message(existing: Seq<char>) -> Seq<char> {
    "Another config '"@ + existing + "' already exists for this Sonarr instance"@
}

/// The status of a configuration resource.
pub struct ConfigStatus {
    pub conditions: Vec<Condition>,
    pub observed_generation: i64,
}

/// The status of a configuration resource: its previous conditions with a
/// "Ready" condition folded in (false, "Conflict", when another resource
/// configures the same instance; true, "Synced", with `message` when the
/// settings were applied, changed at `time`), and its generation (0 when
/// unknown).
pub fn config_status(
    previous: Option<&Vec<Condition>>,
    generation: Option<i64>,
    conflict: &Option<String>,
    message: &str,
    time: Time,
) -> (r: ConfigStatus)
    ensures
        r.observed_generation == match generation {
            Some(g) => g,
            None => 0,
        },
        exists|c: Condition|
            #[trigger] conditions_after(prior_conditions(previous), c) == r.conditions@ && match *conflict {
                Some(other) => is_ready_condition(c, false, "Conflict"@, conflict_message(other@), time),
                None => is_ready_condition(c, true, "Synced"@, message@, time),
            },
{
    let mut conditions: Vec<Condition> = match previous {
        Some(p) => clone_conditions(p),
        None => Vec::new(),
    };
    let c = match conflict {
        Some(other) => {
            let m = concat3("Another config '", other.as_str(), "' already exists for this Sonarr instance");
            ready_condition_at(false, "Conflict", m.as_str(), time)
        },
        None => ready_condition_at(true, "Synced", message, time),
    };
    let ghost gc = c;
    let ghost before = conditions@;
    update_conditions(&mut conditions, c);
    assert(before =~= prior_conditions(previous));
    assert(conditions_after(prior_conditions(previous), gc) == conditions@);
    ConfigStatus {
        conditions,
        observed_generation: match generation {
            Some(g) => g,
            None => 0,
        },
    }
}

/// The id of Sonarr's settings object, which an update needs; its absence
/// is a missing key named `key`.
pub fn settings_id(id: Option<i32>, key: &'static str) -> (r: Result<i32, Error>)
    ensures
        match id {
            Some(i) => r == Ok::<i32, Error>(i),
            None => r == Err::<i32, Error>(Error::MissingObjectKey(key)),
        },
{
    match id {
        Some(i) => Ok(i),
        None => Err(Error::MissingObjectKey(key)),
    }
}

/// A setting after a merge: the spec's when it sets one, else the current.
pub open spec fn pick<T>(spec: Option<T>, current: Option<T>) -> Option<T> {
    match spec {
        Some(v) => Some(v),
        None => current,
    }
}

/// A text setting after a merge: the spec's when it sets one, else the
/// current (which Sonarr may report as explicitly empty).
pub open spec fn pick_text(spec: Option<String>, current: Option<Option<String>>) -> Option<Option<String>> {
    match spec {
        Some(v) => Some(Some(v)),
        None => current,
    }
}

/// A text setting after a merge.
pub fn merge_text(spec: &Option<String>, current: &Option<Option<String>>) -> (r: Option<Option<String>>)
    ensures
        r == pick_text(*spec, *current),
{
    match spec {
        Some(v) => Some(Some(v.clone())),
        None => match current {
            Some(Some(s)) => Some(Some(s.clone())),
            Some(None) => Some(None),
            None => None,
        },
    }
}

/// Merging twice with the same spec changes nothing more.
pub proof fn lemma_pick_idempotent<T>(spec: Option<T>, current: Option<T>)
    ensures
        pick(spec, pick(spec, current)) == pick(spec, current),
{
}

/// Merging a text setting twice with the same spec changes nothing more.
pub proof fn lemma_pick_text_idempotent(spec: Option<String>, current: Option<Option<String>>)
    ensures
        pick_text(spec, pick_text(spec, current)) == pick_text(spec, current),
{
}

} // verus!
