//! The auto-tagging controller: the rule it sends to Sonarr, whose
//! conditions carry their values as named fields.

use vstd::prelude::*;
use crate::api::models::{AutoTaggingResource, AutoTaggingSpecificationSchema, Field, FieldValue};
use crate::controllers::utils::clone_ids;
use crate::crds::auto_tag::{AutoTagFields, AutoTagImplementation, AutoTagSpecification, SonarrAutoTagSpec};
use crate::text::{clone_opt_string, string_of};

verus! {

/// Sonarr's name for a condition type.
pub open spec fn implementation_text(t: AutoTagImplementation) -> Seq<char> {
    match t {
        AutoTagImplementation::RootFolderSpecification => "RootFolderSpecification"@,
        AutoTagImplementation::GenreSpecification => "GenreSpecification"@,
        AutoTagImplementation::YearSpecification => "YearSpecification"@,
        AutoTagImplementation::SeriesTypeSpecification => "SeriesTypeSpecification"@,
        AutoTagImplementation::QualityProfileSpecification => "QualityProfileSpecification"@,
        AutoTagImplementation::NetworkSpecification => "NetworkSpecification"@,
        AutoTagImplementation::OriginalLanguageSpecification => "OriginalLanguageSpecification"@,
        AutoTagImplementation::TagSpecification => "TagSpecification"@,
    }
}

/// A number that tells the names of `implementation_text` apart: the length and the
/// characters at a few positions.
spec fn implementation_text_key(n: Seq<char>) -> int {
    (n.len()) * 65536 + if n.len() > 0 { n[0] as int } else { 0 }
}

proof fn lemma_implementation_text_key(t: AutoTagImplementation)
    ensures
        implementation_text_key(implementation_text(t)) == match t {
            AutoTagImplementation::RootFolderSpecification => 1507410int,
            AutoTagImplementation::GenreSpecification => 1179719int,
            AutoTagImplementation::YearSpecification => 1114201int,
            AutoTagImplementation::SeriesTypeSpecification => 1507411int,
            AutoTagImplementation::QualityProfileSpecification => 1769553int,
            AutoTagImplementation::NetworkSpecification => 1310798int,
            AutoTagImplementation::OriginalLanguageSpecification => 1900623int,
            AutoTagImplementation::TagSpecification => 1048660int,
        },
{
    match t {
            AutoTagImplementation::RootFolderSpecification => { reveal_strlit("RootFolderSpecification"); },
            AutoTagImplementation::GenreSpecification => { reveal_strlit("GenreSpecification"); },
            AutoTagImplementation::YearSpecification => { reveal_strlit("YearSpecification"); },
            AutoTagImplementation::SeriesTypeSpecification => { reveal_strlit("SeriesTypeSpecification"); },
            AutoTagImplementation::QualityProfileSpecification => { reveal_strlit("QualityProfileSpecification"); },
            AutoTagImplementation::NetworkSpecification => { reveal_strlit("NetworkSpecification"); },
            AutoTagImplementation::OriginalLanguageSpecification => { reveal_strlit("OriginalLanguageSpecification"); },
            AutoTagImplementation::TagSpecification => { reveal_strlit("TagSpecification"); },
    }
}

/// Sonarr's implementation names: each kind maps to this name.
pub proof fn lemma_implementation_names(t: AutoTagImplementation)
    ensures
        match t {
            AutoTagImplementation::RootFolderSpecification => implementation_text(t) == "RootFolderSpecification"@,
            AutoTagImplementation::GenreSpecification => implementation_text(t) == "GenreSpecification"@,
            AutoTagImplementation::YearSpecification => implementation_text(t) == "YearSpecification"@,
            AutoTagImplementation::SeriesTypeSpecification => implementation_text(t) == "SeriesTypeSpecification"@,
            AutoTagImplementation::QualityProfileSpecification => implementation_text(t) == "QualityProfileSpecification"@,
            AutoTagImplementation::NetworkSpecification => implementation_text(t) == "NetworkSpecification"@,
            AutoTagImplementation::OriginalLanguageSpecification => implementation_text(t) == "OriginalLanguageSpecification"@,
            AutoTagImplementation::TagSpecification => implementation_text(t) == "TagSpecification"@,
        },
{
}

/// Distinct kinds get distinct names, so the name Sonarr receives tells
/// which kind the spec asked for.
pub proof fn lemma_implementation_names_distinct(a: AutoTagImplementation, b: AutoTagImplementation)
    requires
        implementation_text(a) == implementation_text(b),
    ensures
        a == b,
{
    lemma_implementation_text_key(a);
    lemma_implementation_text_key(b);
}

/// Sonarr's name for a condition type.
pub fn get_implementation_name(t: &AutoTagImplementation) -> (s: String)
    ensures
        s@ == implementation_text(*t),
{
    match t {
        AutoTagImplementation::RootFolderSpecification => string_of("RootFolderSpecification"),
        AutoTagImplementation::GenreSpecification => string_of("GenreSpecification"),
        AutoTagImplementation::YearSpecification => string_of("YearSpecification"),
        AutoTagImplementation::SeriesTypeSpecification => string_of("SeriesTypeSpecification"),
        AutoTagImplementation::QualityProfileSpecification => string_of("QualityProfileSpecification"),
        AutoTagImplementation::NetworkSpecification => string_of("NetworkSpecification"),
        AutoTagImplementation::OriginalLanguageSpecification => string_of("OriginalLanguageSpecification"),
        AutoTagImplementation::TagSpecification => string_of("TagSpecification"),
    }
}

/// The fields sent for a condition's values: "value" as text, then "min"
/// and "max" as numbers, each only when set.
pub open spec fn fields_planned(f: Seq<Field>, v: AutoTagFields) -> bool {
    let a = if v.value is Some { 1int } else { 0int };
    let b = if v.min is Some { 1int } else { 0int };
    &&& f.len() == a + b + if v.max is Some { 1int } else { 0int }
    &&& v.value is Some ==> f[0].name@ == "value"@ && f[0].value == FieldValue::Text(v.value->0)
    &&& v.min is Some ==> f[a].name@ == "min"@ && f[a].value == FieldValue::Number(v.min->0)
    &&& v.max is Some ==> f[a + b].name@ == "max"@ && f[a + b].value == FieldValue::Number(v.max->0)
}

/// A condition as sent: its name, type, flags, and its values as fields,
/// which are left out when there is none.
pub open spec fn specification_planned(s: AutoTaggingSpecificationSchema, spec: AutoTagSpecification) -> bool {
    &&& s.name == spec.name
    &&& s.implementation@ == implementation_text(spec.implementation)
    &&& s.negate == spec.negate
    &&& s.required == spec.required
    &&& if spec.fields.value is None && spec.fields.min is None && spec.fields.max is None {
        s.fields is None
    } else {
        s.fields is Some && fields_planned(s.fields->0@, spec.fields)
    }
}

/// The condition sent for a condition of the spec.
pub fn convert_specification(spec: &AutoTagSpecification) -> (s: AutoTaggingSpecificationSchema)
    ensures
        specification_planned(s, *spec),
{
    let mut fields: Vec<Field> = Vec::new();
    match &spec.fields.value {
        Some(v) => fields.push(Field { name: string_of("value"), value: FieldValue::Text(v.clone()) }),
        None => {},
    }
    match spec.fields.min {
        Some(m) => fields.push(Field { name: string_of("min"), value: FieldValue::Number(m) }),
        None => {},
    }
    match spec.fields.max {
        Some(m) => fields.push(Field { name: string_of("max"), value: FieldValue::Number(m) }),
        None => {},
    }
    let has_fields = fields.len() > 0;
    AutoTaggingSpecificationSchema {
        name: spec.name.clone(),
        implementation: get_implementation_name(&spec.implementation),
        negate: spec.negate,
        required: spec.required,
        fields: if has_fields { Some(fields) } else { None },
    }
}

/// The rule to send: the spec's name, tags, removal setting and
/// conditions in order, and the recorded id for an update.
pub fn auto_tag_payload(spec: &SonarrAutoTagSpec, id: Option<i32>) -> (p: AutoTaggingResource)
    ensures
        p.id == id,
        p.name == spec.name,
        p.remove_tags_automatically == spec.remove_tags_automatically,
        p.tags@ == spec.tags@,
        p.specifications@.len() == spec.specifications@.len(),
        forall|i: int| 0 <= i < spec.specifications@.len()
            ==> specification_planned(p.specifications@[i], #[trigger] spec.specifications@[i]),
{
    let mut specs: Vec<AutoTaggingSpecificationSchema> = Vec::new();
    let n = spec.specifications.len();
    let mut i: usize = 0;
    while i < n
        invariant
            n == spec.specifications@.len(),
            i <= n,
            specs@.len() == i,
            forall|j: int| 0 <= j < i ==> specification_planned(specs@[j], #[trigger] spec.specifications@[j]),
        decreases n - i,
    {
        specs.push(convert_specification(&spec.specifications[i]));
        i = i + 1;
    }
    AutoTaggingResource {
        id,
        name: spec.name.clone(),
        remove_tags_automatically: spec.remove_tags_automatically,
        tags: clone_ids(&spec.tags),
        specifications: specs,
    }
}

} // verus!
