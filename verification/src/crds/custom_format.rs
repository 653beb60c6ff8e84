//! The `SonarrCustomFormat` resource: a custom format in Sonarr.

use vstd::prelude::*;
use crate::crds::SonarrInstanceRef;
use crate::meta::Condition;

verus! {

/// Desired state of a custom format.
pub struct SonarrCustomFormatSpec {
    /// Reference to the Sonarr instance
    pub sonarr_instance_ref: SonarrInstanceRef,
    /// Custom format name
    pub name: String,
    /// Include custom format name when renaming files
    pub include_custom_format_when_renaming: bool,
    /// Specifications (conditions) for this custom format
    pub specifications: Vec<CustomFormatSpecification>,
}

/// A condition of a custom format. The values of a condition (a pattern
/// and size bounds) are not sent to Sonarr and are not held here.
pub struct CustomFormatSpecification {
    /// Specification name
    pub name: String,
    /// Specification type/implementation
    pub implementation: CustomFormatImplementation,
    /// Negate this condition
    pub negate: bool,
    /// This condition is required
    pub required: bool,
}

/// Whether a condition is required when not said otherwise.
pub fn default_true() -> (b: bool)
    ensures
        b,
{
    true
}

/// Kinds of custom format conditions.
#[derive(Clone, Copy, Debug, PartialEq, Eq, Structural)]
pub enum CustomFormatImplementation {
    ReleaseTitleSpecification,
    SourceSpecification,
    ResolutionSpecification,
    QualityModifierSpecification,
    SizeSpecification,
    IndexerFlagSpecification,
    LanguageSpecification,
    ReleaseGroupSpecification,
    EditionSpecification,
}

impl Default for CustomFormatImplementation {
    fn default() -> (r: CustomFormatImplementation)
        ensures
            r == CustomFormatImplementation::ReleaseTitleSpecification,
    {
        CustomFormatImplementation::ReleaseTitleSpecification
    }
}

/// Observed state of a custom format.
pub struct SonarrCustomFormatStatus {
    pub conditions: Vec<Condition>,
    pub id: Option<i32>,
    pub observed_generation: i64,
}

impl Default for SonarrCustomFormatStatus {
    /// Every setting unset: empty, absent, false or zero.
    fn default() -> (r: SonarrCustomFormatStatus)
        ensures
            r.conditions@.len() == 0,
            r.id is None,
            r.observed_generation == 0,
    {
        SonarrCustomFormatStatus {
            conditions: Vec::new(),
            id: None,
            observed_generation: 0,
        }
    }
}

} // verus!
