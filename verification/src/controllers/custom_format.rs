//! The custom format controller: the custom format it sends to Sonarr.

use vstd::prelude::*;
use crate::api::models::{CustomFormatResource, CustomFormatSpecificationSchema};
use crate::crds::custom_format::{CustomFormatImplementation, CustomFormatSpecification, SonarrCustomFormatSpec};
use crate::text::string_of;

verus! {

/// Sonarr's name for a condition type.
pub open spec fn implementation_text(t: CustomFormatImplementation) -> Seq<char> {
    match t {
        CustomFormatImplementation::ReleaseTitleSpecification => "ReleaseTitleSpecification"@,
        CustomFormatImplementation::SourceSpecification => "SourceSpecification"@,
        CustomFormatImplementation::ResolutionSpecification => "ResolutionSpecification"@,
        CustomFormatImplementation::QualityModifierSpecification => "QualityModifierSpecification"@,
        CustomFormatImplementation::SizeSpecification => "SizeSpecification"@,
        CustomFormatImplementation::IndexerFlagSpecification => "IndexerFlagSpecification"@,
        CustomFormatImplementation::LanguageSpecification => "LanguageSpecification"@,
        CustomFormatImplementation::ReleaseGroupSpecification => "ReleaseGroupSpecification"@,
        CustomFormatImplementation::EditionSpecification => "EditionSpecification"@,
    }
}

/// A number that tells the names of `implementation_text` apart: the length and the
/// characters at a few positions.
spec fn implementation_text_key(n: Seq<char>) -> int {
    (n.len()) * 65536 + if n.len() > 7 { n[7] as int } else { 0 }
}

proof fn lemma_implementation_text_key(t: CustomFormatImplementation)
    ensures
        implementation_text_key(implementation_text(t)) == match t {
            CustomFormatImplementation::ReleaseTitleSpecification => 1638484int,
            CustomFormatImplementation::SourceSpecification => 1245296int,
            CustomFormatImplementation::ResolutionSpecification => 1507433int,
            CustomFormatImplementation::QualityModifierSpecification => 1835085int,
            CustomFormatImplementation::SizeSpecification => 1114211int,
            CustomFormatImplementation::IndexerFlagSpecification => 1572934int,
            CustomFormatImplementation::LanguageSpecification => 1376357int,
            CustomFormatImplementation::ReleaseGroupSpecification => 1638471int,
            CustomFormatImplementation::EditionSpecification => 1310803int,
        },
{
    match t {
            CustomFormatImplementation::ReleaseTitleSpecification => { reveal_strlit("ReleaseTitleSpecification"); },
            CustomFormatImplementation::SourceSpecification => { reveal_strlit("SourceSpecification"); },
            CustomFormatImplementation::ResolutionSpecification => { reveal_strlit("ResolutionSpecification"); },
            CustomFormatImplementation::QualityModifierSpecification => { reveal_strlit("QualityModifierSpecification"); },
            CustomFormatImplementation::SizeSpecification => { reveal_strlit("SizeSpecification"); },
            CustomFormatImplementation::IndexerFlagSpecification => { reveal_strlit("IndexerFlagSpecification"); },
            CustomFormatImplementation::LanguageSpecification => { reveal_strlit("LanguageSpecification"); },
            CustomFormatImplementation::ReleaseGroupSpecification => { reveal_strlit("ReleaseGroupSpecification"); },
            CustomFormatImplementation::EditionSpecification => { reveal_strlit("EditionSpecification"); },
    }
}

/// Sonarr's implementation names: each kind maps to this name.
pub proof fn lemma_implementation_names(t: CustomFormatImplementation)
    ensures
        match t {
            CustomFormatImplementation::ReleaseTitleSpecification => implementation_text(t) == "ReleaseTitleSpecification"@,
            CustomFormatImplementation::SourceSpecification => implementation_text(t) == "SourceSpecification"@,
            CustomFormatImplementation::ResolutionSpecification => implementation_text(t) == "ResolutionSpecification"@,
            CustomFormatImplementation::QualityModifierSpecification => implementation_text(t) == "QualityModifierSpecification"@,
            CustomFormatImplementation::SizeSpecification => implementation_text(t) == "SizeSpecification"@,
            CustomFormatImplementation::IndexerFlagSpecification => implementation_text(t) == "IndexerFlagSpecification"@,
            CustomFormatImplementation::LanguageSpecification => implementation_text(t) == "LanguageSpecification"@,
            CustomFormatImplementation::ReleaseGroupSpecification => implementation_text(t) == "ReleaseGroupSpecification"@,
            CustomFormatImplementation::EditionSpecification => implementation_text(t) == "EditionSpecification"@,
        },
{
}

/// Distinct kinds get distinct names, so the name Sonarr receives tells
/// which kind the spec asked for.
pub proof fn lemma_implementation_names_distinct(a: CustomFormatImplementation, b: CustomFormatImplementation)
    requires
        implementation_text(a) == implementation_text(b),
    ensures
        a == b,
{
    lemma_implementation_text_key(a);
    lemma_implementation_text_key(b);
}

/// Sonarr's name for a condition type.
pub fn get_implementation_name(t: &CustomFormatImplementation) -> (s: String)
    ensures
        s@ == implementation_text(*t),
{
    match t {
        CustomFormatImplementation::ReleaseTitleSpecification => string_of("ReleaseTitleSpecification"),
        CustomFormatImplementation::SourceSpecification => string_of("SourceSpecification"),
        CustomFormatImplementation::ResolutionSpecification => string_of("ResolutionSpecification"),
        CustomFormatImplementation::QualityModifierSpecification => string_of("QualityModifierSpecification"),
        CustomFormatImplementation::SizeSpecification => string_of("SizeSpecification"),
        CustomFormatImplementation::IndexerFlagSpecification => string_of("IndexerFlagSpecification"),
        CustomFormatImplementation::LanguageSpecification => string_of("LanguageSpecification"),
        CustomFormatImplementation::ReleaseGroupSpecification => string_of("ReleaseGroupSpecification"),
        CustomFormatImplementation::EditionSpecification => string_of("EditionSpecification"),
    }
}

/// A condition as sent: its name, type and flags.
pub open spec fn specification_planned(s: CustomFormatSpecificationSchema, spec: CustomFormatSpecification) -> bool {
    &&& s.name == spec.name
    &&& s.implementation@ == implementation_text(spec.implementation)
    &&& s.negate == spec.negate
    &&& s.required == spec.required
}

/// The condition sent for a condition of the spec.
pub fn convert_specification(spec: &CustomFormatSpecification) -> (s: CustomFormatSpecificationSchema)
    ensures
        specification_planned(s, *spec),
{
    CustomFormatSpecificationSchema {
        name: spec.name.clone(),
        implementation: get_implementation_name(&spec.implementation),
        negate: spec.negate,
        required: spec.required,
    }
}

/// The custom format to send: the spec's name, renaming setting and
/// conditions in order, and the recorded id for an update.
pub fn custom_format_payload(spec: &SonarrCustomFormatSpec, id: Option<i32>) -> (p: CustomFormatResource)
    ensures
        p.id == id,
        p.name == spec.name,
        p.include_custom_format_when_renaming == spec.include_custom_format_when_renaming,
        p.specifications@.len() == spec.specifications@.len(),
        forall|i: int| 0 <= i < spec.specifications@.len()
            ==> specification_planned(p.specifications@[i], #[trigger] spec.specifications@[i]),
{
    let mut specs: Vec<CustomFormatSpecificationSchema> = Vec::new();
    let n = spec.specifications.len();
    let mut i: usize = 0;
    while i < n
        invariant
            n == spec.specifications@.len(),
            i <= n,
            specs@.len() == i,
            forall|j: int| 0 <= j < i ==> specification_planned(specs@[j], #[trigger] spec.specifications@[j]),
        decreases n - i,
    {
        specs.push(convert_specification(&spec.specifications[i]));
        i = i + 1;
    }
    CustomFormatResource {
        id,
        name: spec.name.clone(),
        include_custom_format_when_renaming: spec.include_custom_format_when_renaming,
        specifications: specs,
    }
}

} // verus!
