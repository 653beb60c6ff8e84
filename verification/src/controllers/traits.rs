//! What all controllers share: the outcome of a reconciliation, the
//! namespace check, and the status written after a successful sync.

use vstd::prelude::*;
use crate::controllers::utils::{clone_conditions, conditions_after, ready_condition_at, status_text, update_conditions};
use crate::api::models::ListedItem;
use crate::crds::SonarrInstanceRef;
use crate::error::Error;
use crate::meta::{Condition, ObjectMeta, Time};

verus! {

/// Seconds after which a successfully reconciled resource is looked at again.
pub const REQUEUE_SECONDS: u64 = 300;

/// Seconds after which a resource whose reconciliation failed is retried.
pub const ERROR_REQUEUE_SECONDS: u64 = 60;

/// What the controller runtime should do after a reconciliation.
#[derive(Clone, Copy, Debug, PartialEq, Eq, Structural)]
pub enum Action {
    /// Reconcile again after this many seconds
    Requeue(u64),
    /// Wait until the resource changes
    AwaitChange,
}

/// Resource specs that reference a Sonarr instance.
pub trait HasSonarrInstanceRef {
    fn sonarr_instance_ref(&self) -> &SonarrInstanceRef;
}

/// The namespace of a resource, which every namespaced resource has.
pub fn require_namespace(meta: &ObjectMeta) -> (r: Result<String, Error>)
    ensures
        match meta.namespace {
            Some(ns) => r == Ok::<String, Error>(ns),
            None => r == Err::<String, Error>(Error::MissingObjectKey(".metadata.namespace")),
        },
{
    match &meta.namespace {
        Some(ns) => Ok(ns.clone()),
        None => Err(Error::MissingObjectKey(".metadata.namespace")),
    }
}

/// What the retry policy does after a failed reconciliation.
pub fn error_policy() -> (a: Action)
    ensures
        a == Action::Requeue(ERROR_REQUEUE_SECONDS),
{
    Action::Requeue(ERROR_REQUEUE_SECONDS)
}

/// The conditions, id and observed generation a sub-resource's status gets
/// after it was synced with Sonarr.
pub struct SyncedStatus {
    pub conditions: Vec<Condition>,
    pub id: Option<i32>,
    pub observed_generation: i64,
}

/// A condition is the "Ready" condition with the given status, reason and
/// message, changed at `time`.
pub open spec fn is_ready_condition(c: Condition, status: bool, reason: Seq<char>, message: Seq<char>, time: Time) -> bool {
    c.type_@ == "Ready"@ && c.status@ == status_text(status) && c.reason@ == reason && c.message@ == message
        && c.last_transition_time == time && c.observed_generation is None
}

/// The conditions a resource had, none when it had no status.
pub open spec fn prior_conditions(previous: Option<&Vec<Condition>>) -> Seq<Condition> {
    match previous {
        Some(p) => p@,
        None => Seq::empty(),
    }
}

/// The status of a synced sub-resource: the previous conditions with a
/// ready "Synced" condition folded in, the Sonarr id, and the generation
/// (0 when unknown); the condition changed at `time`.
pub fn synced_status(
    previous: Option<&Vec<Condition>>,
    id: Option<i32>,
    generation: Option<i64>,
    message: &str,
    time: Time,
) -> (r: SyncedStatus)
    ensures
        r.id == id,
        r.observed_generation == match generation { Some(g) => g, None => 0 },
        exists|c: Condition| is_ready_condition(c, true, "Synced"@, message@, time)
            && r.conditions@ == #[trigger] conditions_after(prior_conditions(previous), c),
{
    let mut conditions: Vec<Condition> = match previous {
        Some(p) => clone_conditions(p),
        None => Vec::new(),
    };
    let c = ready_condition_at(true, "Synced", message, time);
    let ghost gc = c;
    let ghost before = conditions@;
    update_conditions(&mut conditions, c);
    assert(before =~= prior_conditions(previous));
    assert(conditions@ == conditions_after(prior_conditions(previous), gc));
    SyncedStatus {
        conditions,
        id,
        observed_generation: match generation {
            Some(g) => g,
            None => 0,
        },
    }
}

/// The conditions of a resource whose sync failed: its conditions with a
/// "Ready" condition that is false, reason "Error", and the error's
/// message folded in, changed at `time`.
pub fn failed_conditions(existing: &Vec<Condition>, message: &str, time: Time) -> (r: Vec<Condition>)
    ensures
        exists|c: Condition| is_ready_condition(c, false, "Error"@, message@, time)
            && r@ == #[trigger] conditions_after(existing@, c),
{
    let mut conditions = clone_conditions(existing);
    let c = ready_condition_at(false, "Error", message, time);
    let ghost gc = c;
    update_conditions(&mut conditions, c);
    assert(conditions@ == conditions_after(existing@, gc));
    conditions
}

} // verus!

verus! {

/// How a recorded Sonarr id is refreshed: by updating the object, or by
/// reading it back.
#[derive(Clone, Copy, Debug, PartialEq, Eq, Structural)]
pub enum RefreshMode {
    Update,
    Fetch,
}

/// Where the sync of a sub-resource with Sonarr stands.
#[derive(Clone, Copy, Debug, PartialEq, Eq, Structural)]
pub enum SyncPhase {
    Start,
    Refreshing,
    Listing,
    Creating,
    Synced,
    Failed,
}

/// What Sonarr answered to the last command.
pub enum SyncEvent {
    /// The sync begins
    Begin,
    /// The call succeeded; the object it returned has this id
    Succeeded(Option<i32>),
    /// The call failed
    Failed,
    /// The list call succeeded with these items
    Listed(Vec<ListedItem>),
}

/// What to do next.
#[derive(Clone, Copy, Debug, PartialEq, Eq, Structural)]
pub enum SyncCommand {
    /// Update the object with this id (the payload carries the id)
    Update(i32),
    /// Read the object with this id
    Fetch(i32),
    /// List the existing objects
    List,
    /// Create the object (the payload carries no id)
    Create,
    /// Done: record this id
    Finish(Option<i32>),
    /// Give up with the error of the last call
    Abort,
}

/// An item is named `wanted`.
pub open spec fn named(item: ListedItem, wanted: Seq<char>) -> bool {
    item.name is Some && item.name->0 is Some && item.name->0->0@ == wanted
}

/// Index of the first item named `wanted`, or the length when none is.
pub open spec fn first_named(items: Seq<ListedItem>, wanted: Seq<char>) -> int
    decreases items.len(),
{
    if items.len() == 0 {
        0
    } else if named(items[0], wanted) {
        0
    } else {
        1 + first_named(items.drop_first(), wanted)
    }
}

pub proof fn lemma_first_named(items: Seq<ListedItem>, wanted: Seq<char>)
    ensures
        0 <= first_named(items, wanted) <= items.len(),
        first_named(items, wanted) < items.len() ==> named(items[first_named(items, wanted)], wanted),
        forall|j: int| 0 <= j < first_named(items, wanted) ==> !named(#[trigger] items[j], wanted),
    decreases items.len(),
{
    if items.len() > 0 && !named(items[0], wanted) {
        lemma_first_named(items.drop_first(), wanted);
        assert forall|j: int| 0 <= j < first_named(items, wanted) implies !named(#[trigger] items[j], wanted) by {
            if j > 0 {
                assert(items[j] == items.drop_first()[j - 1]);
            }
        }
    }
}

/// The first item named `wanted`.
pub fn find_by_name(items: &Vec<ListedItem>, wanted: &String) -> (r: Option<usize>)
    ensures
        match r {
            Some(i) => i == first_named(items@, wanted@) && i < items@.len(),
            None => first_named(items@, wanted@) == items@.len(),
        },
{
    let n = items.len();
    let mut i: usize = 0;
    while i < n
        invariant
            n == items@.len(),
            i <= n,
            forall|j: int| 0 <= j < i ==> !named(#[trigger] items@[j], wanted@),
        decreases n - i,
    {
        let hit = match &items[i].name {
            Some(Some(name)) => *name == *wanted,
            _ => false,
        };
        if hit {
            proof {
                lemma_first_named(items@, wanted@);
                let k = first_named(items@, wanted@);
                if k < i {
                    assert(!named(items@[k], wanted@));
                }
            }
            return Some(i);
        }
        i = i + 1;
    }
    proof {
        lemma_first_named(items@, wanted@);
        let k = first_named(items@, wanted@);
        if k < n {
            assert(!named(items@[k], wanted@));
        }
    }
    None
}

/// One step of syncing a sub-resource with Sonarr: from where it stands and
/// what Sonarr answered, where it goes and what to do.
///
/// A recorded id is refreshed first (updated or read back); when that
/// fails, the object is created anew. Without a recorded id, an existing
/// object with the wanted name is adopted when `lookup_by_name` is set,
/// and only when there is none is one created.
pub fn sync_step(
    mode: RefreshMode,
    lookup_by_name: bool,
    wanted: &String,
    status_id: Option<i32>,
    phase: SyncPhase,
    event: &SyncEvent,
) -> (r: (SyncPhase, SyncCommand))
    ensures
        match (phase, event) {
            (SyncPhase::Start, SyncEvent::Begin) => match status_id {
                Some(id) => r == (SyncPhase::Refreshing, match mode {
                    RefreshMode::Update => SyncCommand::Update(id),
                    RefreshMode::Fetch => SyncCommand::Fetch(id),
                }),
                None => r == if lookup_by_name {
                    (SyncPhase::Listing, SyncCommand::List)
                } else {
                    (SyncPhase::Creating, SyncCommand::Create)
                },
            },
            (SyncPhase::Refreshing, SyncEvent::Succeeded(id)) => r == (SyncPhase::Synced, SyncCommand::Finish(*id)),
            (SyncPhase::Refreshing, SyncEvent::Failed) => r == (SyncPhase::Creating, SyncCommand::Create),
            (SyncPhase::Listing, SyncEvent::Listed(items)) => {
                let i = first_named(items@, wanted@);
                if i < items@.len() {
                    r == (SyncPhase::Synced, SyncCommand::Finish(items@[i].id))
                } else {
                    r == (SyncPhase::Creating, SyncCommand::Create)
                }
            },
            (SyncPhase::Creating, SyncEvent::Succeeded(id)) => r == (SyncPhase::Synced, SyncCommand::Finish(*id)),
            _ => r == (SyncPhase::Failed, SyncCommand::Abort),
        },
{
    match (phase, event) {
        (SyncPhase::Start, SyncEvent::Begin) => match status_id {
            Some(id) => (SyncPhase::Refreshing, match mode {
                RefreshMode::Update => SyncCommand::Update(id),
                RefreshMode::Fetch => SyncCommand::Fetch(id),
            }),
            None => if lookup_by_name {
                (SyncPhase::Listing, SyncCommand::List)
            } else {
                (SyncPhase::Creating, SyncCommand::Create)
            },
        },
        (SyncPhase::Refreshing, SyncEvent::Succeeded(id)) => (SyncPhase::Synced, SyncCommand::Finish(*id)),
        (SyncPhase::Refreshing, SyncEvent::Failed) => (SyncPhase::Creating, SyncCommand::Create),
        (SyncPhase::Listing, SyncEvent::Listed(items)) => match find_by_name(items, wanted) {
            Some(i) => (SyncPhase::Synced, SyncCommand::Finish(items[i].id)),
            None => (SyncPhase::Creating, SyncCommand::Create),
        },
        (SyncPhase::Creating, SyncEvent::Succeeded(id)) => (SyncPhase::Synced, SyncCommand::Finish(*id)),
        _ => (SyncPhase::Failed, SyncCommand::Abort),
    }
}

/// The id a payload carries for a command: the recorded id for an update,
/// none otherwise.
pub fn payload_id(command: SyncCommand) -> (id: Option<i32>)
    ensures
        id == match command {
            SyncCommand::Update(i) => Some(i),
            _ => None,
        },
{
    match command {
        SyncCommand::Update(i) => Some(i),
        _ => None,
    }
}

/// When a listing holds an object with the wanted name, the sync adopts
/// the first one and creates nothing.
pub proof fn lemma_sync_adopts_existing(items: Seq<ListedItem>, wanted: Seq<char>, k: int)
    requires
        0 <= k < items.len(),
        named(items[k], wanted),
    ensures
        first_named(items, wanted) <= k,
        named(items[first_named(items, wanted)], wanted),
{
    lemma_first_named(items, wanted);
}

/// Where the removal of a deleted sub-resource from Sonarr stands.
#[derive(Clone, Copy, Debug, PartialEq, Eq, Structural)]
pub enum CleanupPhase {
    Start,
    Resolving,
    Deleting,
    Done,
}

/// What came back from the last command of a cleanup.
#[derive(Clone, Copy, Debug, PartialEq, Eq, Structural)]
pub enum CleanupEvent {
    /// The cleanup begins
    Begin,
    /// The Sonarr instance was found and can be called
    Resolved,
    /// The Sonarr instance could not be found or read
    Unreachable,
    /// The delete call returned (whatever Sonarr answered)
    Deleted,
}

/// What to do next in a cleanup.
#[derive(Clone, Copy, Debug, PartialEq, Eq, Structural)]
pub enum CleanupCommand {
    /// Find the Sonarr instance the resource refers to
    Resolve,
    /// Delete the object with this id from Sonarr
    Delete(i32),
    /// Done: let the resource go
    Finish,
}

/// The cleanup of a sub-resource whose status recorded `status_id`: with an
/// id, find the instance and delete that object from it; without one, or
/// when the instance cannot be reached, there is nothing to delete. A
/// failed delete does not hold the resource back.
pub open spec fn cleanup_next(status_id: Option<i32>, phase: CleanupPhase, event: CleanupEvent) -> (
    CleanupPhase,
    CleanupCommand,
) {
    match (phase, event) {
        (CleanupPhase::Start, CleanupEvent::Begin) => match status_id {
            Some(_) => (CleanupPhase::Resolving, CleanupCommand::Resolve),
            None => (CleanupPhase::Done, CleanupCommand::Finish),
        },
        (CleanupPhase::Resolving, CleanupEvent::Resolved) => match status_id {
            Some(id) => (CleanupPhase::Deleting, CleanupCommand::Delete(id)),
            None => (CleanupPhase::Done, CleanupCommand::Finish),
        },
        _ => (CleanupPhase::Done, CleanupCommand::Finish),
    }
}

/// One step of the cleanup of a deleted sub-resource.
pub fn cleanup_step(status_id: Option<i32>, phase: CleanupPhase, event: CleanupEvent) -> (r: (
    CleanupPhase,
    CleanupCommand,
))
    ensures
        r == cleanup_next(status_id, phase, event),
{
    match (phase, event) {
        (CleanupPhase::Start, CleanupEvent::Begin) => match status_id {
            Some(_) => (CleanupPhase::Resolving, CleanupCommand::Resolve),
            None => (CleanupPhase::Done, CleanupCommand::Finish),
        },
        (CleanupPhase::Resolving, CleanupEvent::Resolved) => match status_id {
            Some(id) => (CleanupPhase::Deleting, CleanupCommand::Delete(id)),
            None => (CleanupPhase::Done, CleanupCommand::Finish),
        },
        _ => (CleanupPhase::Done, CleanupCommand::Finish),
    }
}

/// A cleanup deletes from Sonarr only the object whose id the status
/// recorded, and only once the instance has been found.
pub proof fn lemma_cleanup_deletes_recorded(
    status_id: Option<i32>,
    phase: CleanupPhase,
    event: CleanupEvent,
    id: i32,
)
    requires
        cleanup_next(status_id, phase, event).1 == CleanupCommand::Delete(id),
    ensures
        status_id == Some(id),
        phase == CleanupPhase::Resolving,
        event == CleanupEvent::Resolved,
{
}

/// With an id recorded, a cleanup that finds the instance deletes that
/// object: begin, resolve, delete, finish.
pub proof fn lemma_cleanup_removes_from_sonarr(id: i32)
    ensures
        cleanup_next(Some(id), CleanupPhase::Start, CleanupEvent::Begin) == (
            CleanupPhase::Resolving,
            CleanupCommand::Resolve,
        ),
        cleanup_next(Some(id), CleanupPhase::Resolving, CleanupEvent::Resolved) == (
            CleanupPhase::Deleting,
            CleanupCommand::Delete(id),
        ),
        cleanup_next(Some(id), CleanupPhase::Deleting, CleanupEvent::Deleted) == (
            CleanupPhase::Done,
            CleanupCommand::Finish,
        ),
{
}

} // verus!
