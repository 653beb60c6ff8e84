//! The `SonarrAutoTag` resource: an auto-tagging rule in Sonarr.

use vstd::prelude::*;
use crate::crds::SonarrInstanceRef;
use crate::meta::Condition;

verus! {

/// Desired state of an auto-tagging rule.
pub struct SonarrAutoTagSpec {
    /// Reference to the Sonarr instance
    pub sonarr_instance_ref: SonarrInstanceRef,
    /// Auto-tag rule name
    pub name: String,
    /// Remove tags automatically when conditions no longer match
    pub remove_tags_automatically: bool,
    /// Tags to apply when conditions match
    pub tags: Vec<i32>,
    /// Specifications (conditions) for this auto-tag rule
    pub specifications: Vec<AutoTagSpecification>,
}

/// A condition of an auto-tagging rule.
pub struct AutoTagSpecification {
    /// Specification name
    pub name: String,
    /// Specification type/implementation
    pub implementation: AutoTagImplementation,
    /// Negate this condition
    pub negate: bool,
    /// This condition is required
    pub required: bool,
    /// Fields/values for this specification
    pub fields: AutoTagFields,
}

/// Whether a condition is required when not said otherwise.
pub fn default_true() -> (b: bool)
    ensures
        b,
{
    true
}

/// Kinds of auto-tagging conditions.
#[derive(Clone, Copy, Debug, PartialEq, Eq, Structural)]
pub enum AutoTagImplementation {
    RootFolderSpecification,
    GenreSpecification,
    YearSpecification,
    SeriesTypeSpecification,
    QualityProfileSpecification,
    NetworkSpecification,
    OriginalLanguageSpecification,
    TagSpecification,
}

impl Default for AutoTagImplementation {
    fn default() -> (r: AutoTagImplementation)
        ensures
            r == AutoTagImplementation::RootFolderSpecification,
    {
        AutoTagImplementation::RootFolderSpecification
    }
}

/// Values of an auto-tagging condition.
pub struct AutoTagFields {
    /// Value for the specification (path, genre, network, etc.)
    pub value: Option<String>,
    /// Minimum value (for year specifications)
    pub min: Option<i32>,
    /// Maximum value (for year specifications)
    pub max: Option<i32>,
}

/// Observed state of an auto-tagging rule.
pub struct SonarrAutoTagStatus {
    pub conditions: Vec<Condition>,
    pub id: Option<i32>,
    pub observed_generation: i64,
}

impl Default for AutoTagFields {
    /// Every setting unset: empty, absent, false or zero.
    fn default() -> (r: AutoTagFields)
        ensures
            r.value is None,
            r.min is None,
            r.max is None,
    {
        AutoTagFields {
            value: None,
            min: None,
            max: None,
        }
    }
}

impl Default for SonarrAutoTagStatus {
    /// Every setting unset: empty, absent, false or zero.
    fn default() -> (r: SonarrAutoTagStatus)
        ensures
            r.conditions@.len() == 0,
            r.id is None,
            r.observed_generation == 0,
    {
        SonarrAutoTagStatus {
            conditions: Vec::new(),
            id: None,
            observed_generation: 0,
        }
    }
}

} // verus!
