//! Spec and status of the first `Sonarr` resource version.

use vstd::prelude::*;

verus! {

/// Desired state: a message and a replica count.
pub struct SonarrSpec {
    pub message: String,
    pub replica_count: Option<i32>,
}

/// Observed state.
pub struct SonarrStatus {
    pub conditions: Vec<SonarrCondition>,
    pub observed_generation: Option<i64>,
    pub ready: Option<bool>,
}

/// A condition of the first resource version.
pub struct SonarrCondition {
    pub condition_type: String,
    pub status: String,
    pub reason: String,
    pub message: String,
}

} // verus!
