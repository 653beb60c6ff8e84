//! The `SonarrQualityProfile` resource: a quality profile in Sonarr.

use vstd::prelude::*;
use crate::crds::SonarrInstanceRef;
use crate::meta::Condition;

verus! {

/// Desired state of a quality profile.
pub struct SonarrQualityProfileSpec {
    pub sonarr_instance_ref: SonarrInstanceRef,
    /// Quality profile name
    pub name: String,
    /// Whether upgrades are allowed
    pub upgrade_allowed: bool,
    /// Quality ID to use as cutoff
    pub cutoff: i32,
    pub cutoff_format_score: Option<i32>,
    pub min_format_score: Option<i32>,
    pub min_upgrade_format_score: Option<i32>,
    /// Ordered list of allowed quality groups
    pub quality_groups: Vec<QualityGroup>,
    /// Custom formats with scores
    pub format_items: Vec<FormatItem>,
}

/// A group of qualities (or a single quality).
pub struct QualityGroup {
    pub id: Option<i32>,
    pub name: Option<String>,
    pub qualities: Vec<Quality>,
}

/// A quality of a group.
pub struct Quality {
    pub id: Option<i32>,
    pub name: Option<String>,
    pub source: Option<String>,
    pub resolution: Option<i32>,
}

/// A custom format and its score.
pub struct FormatItem {
    pub format: Option<i32>,
    pub name: Option<String>,
    pub score: i32,
}

/// Observed state of a quality profile.
pub struct SonarrQualityProfileStatus {
    pub conditions: Vec<Condition>,
    pub id: Option<i32>,
    pub observed_generation: i64,
}

impl Default for SonarrQualityProfileStatus {
    /// Every setting unset: empty, absent, false or zero.
    fn default() -> (r: SonarrQualityProfileStatus)
        ensures
            r.conditions@.len() == 0,
            r.id is None,
            r.observed_generation == 0,
    {
        SonarrQualityProfileStatus {
            conditions: Vec::new(),
            id: None,
            observed_generation: 0,
        }
    }
}

} // verus!
