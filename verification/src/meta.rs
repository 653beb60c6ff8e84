//! The parts of Kubernetes object metadata that the operator reads and
//! writes, as plain values.

use vstd::prelude::*;
use crate::string_map::StringMap;

verus! {

/// An instant, in nanoseconds since the Unix epoch.
#[derive(Clone, Copy, Debug, PartialEq, Eq, Structural)]
pub struct Time {
    pub nanos: i128,
}

/// A status condition (`type`, `status`, `reason`, `message`, when it last
/// changed, and the generation it was observed at).
pub struct Condition {
    pub type_: String,
    pub status: String,
    pub reason: String,
    pub message: String,
    pub last_transition_time: Time,
    pub observed_generation: Option<i64>,
}

impl Clone for Condition {
    fn clone(&self) -> (r: Condition)
        ensures
            r == *self,
    {
        Condition {
            type_: self.type_.clone(),
            status: self.status.clone(),
            reason: self.reason.clone(),
            message: self.message.clone(),
            last_transition_time: self.last_transition_time,
            observed_generation: self.observed_generation,
        }
    }
}

/// A reference from an owned object to its owner.
pub struct OwnerReference {
    pub api_version: String,
    pub kind: String,
    pub name: String,
    pub uid: String,
    pub controller: Option<bool>,
    pub block_owner_deletion: Option<bool>,
}

impl Clone for OwnerReference {
    fn clone(&self) -> (r: OwnerReference)
        ensures
            r == *self,
    {
        OwnerReference {
            api_version: self.api_version.clone(),
            kind: self.kind.clone(),
            name: self.name.clone(),
            uid: self.uid.clone(),
            controller: self.controller,
            block_owner_deletion: self.block_owner_deletion,
        }
    }
}

/// Metadata of a namespaced object as the operator writes it: name,
/// namespace, labels, annotations and owner references.
pub struct ObjectMetaPlan {
    pub name: String,
    pub namespace: String,
    pub labels: StringMap,
    pub annotations: Option<StringMap>,
    pub owner_references: Vec<OwnerReference>,
}

/// Metadata of a custom resource as the operator reads it.
pub struct ObjectMeta {
    pub name: Option<String>,
    pub generate_name: Option<String>,
    pub namespace: Option<String>,
    pub generation: Option<i64>,
    pub uid: Option<String>,
}

/// The name of an object, else its generate-name prefix, else empty.
pub open spec fn spec_name_any(m: ObjectMeta) -> Seq<char> {
    match m.name {
        Some(n) => n@,
        None => match m.generate_name {
            Some(g) => g@,
            None => Seq::empty(),
        },
    }
}

impl ObjectMeta {
    /// The name of the object, else its generate-name prefix, else empty
    /// (kube's `ResourceExt::name_any`).
    pub fn name_any(&self) -> (s: String)
        ensures
            s@ == spec_name_any(*self),
    {
        match &self.name {
            Some(n) => n.clone(),
            None => match &self.generate_name {
                Some(g) => g.clone(),
                None => String::new(),
            },
        }
    }
}

} // verus!
