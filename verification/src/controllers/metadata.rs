//! The metadata controller: the metadata consumer it sends to Sonarr.

use vstd::prelude::*;
use crate::api::models::MetadataResource;
use crate::controllers::utils::clone_ids;
use crate::crds::metadata::{MetadataType, SonarrMetadataSpec};
use crate::text::string_of;

verus! {

/// Sonarr's implementation name for a metadata type.
pub open spec fn implementation_text(t: MetadataType) -> Seq<char> {
    match t {
        MetadataType::XbmcMetadata => "XbmcMetadata"@,
        MetadataType::RoksboxMetadata => "RoksboxMetadata"@,
        MetadataType::WdtvMetadata => "WdtvMetadata"@,
    }
}

/// A number that tells the names of `implementation_text` apart: the length and the
/// characters at a few positions.
spec fn implementation_text_key(n: Seq<char>) -> int {
    (n.len()) * 65536 + if n.len() > 0 { n[0] as int } else { 0 }
}

proof fn lemma_implementation_text_key(t: MetadataType)
    ensures
        implementation_text_key(implementation_text(t)) == match t {
            MetadataType::XbmcMetadata => 786520int,
            MetadataType::RoksboxMetadata => 983122int,
            MetadataType::WdtvMetadata => 786519int,
        },
{
    match t {
            MetadataType::XbmcMetadata => { reveal_strlit("XbmcMetadata"); },
            MetadataType::RoksboxMetadata => { reveal_strlit("RoksboxMetadata"); },
            MetadataType::WdtvMetadata => { reveal_strlit("WdtvMetadata"); },
    }
}

/// Sonarr's implementation names: each kind maps to this name.
pub proof fn lemma_implementation_names(t: MetadataType)
    ensures
        match t {
            MetadataType::XbmcMetadata => implementation_text(t) == "XbmcMetadata"@,
            MetadataType::RoksboxMetadata => implementation_text(t) == "RoksboxMetadata"@,
            MetadataType::WdtvMetadata => implementation_text(t) == "WdtvMetadata"@,
        },
{
}

/// Distinct kinds get distinct names, so the name Sonarr receives tells
/// which kind the spec asked for.
pub proof fn lemma_implementation_names_distinct(a: MetadataType, b: MetadataType)
    requires
        implementation_text(a) == implementation_text(b),
    ensures
        a == b,
{
    lemma_implementation_text_key(a);
    lemma_implementation_text_key(b);
}

/// Sonarr's implementation name for a metadata type.
pub fn get_implementation_name(t: &MetadataType) -> (s: String)
    ensures
        s@ == implementation_text(*t),
{
    match t {
        MetadataType::XbmcMetadata => string_of("XbmcMetadata"),
        MetadataType::RoksboxMetadata => string_of("RoksboxMetadata"),
        MetadataType::WdtvMetadata => string_of("WdtvMetadata"),
    }
}
/// The settings contract of a metadata type.
pub open spec fn config_contract_text(t: MetadataType) -> Seq<char> {
    match t {
        MetadataType::XbmcMetadata => "XbmcMetadataSettings"@,
        MetadataType::RoksboxMetadata => "RoksboxMetadataSettings"@,
        MetadataType::WdtvMetadata => "WdtvMetadataSettings"@,
    }
}

/// A number that tells the names of `config_contract_text` apart: the length and the
/// characters at a few positions.
spec fn config_contract_text_key(n: Seq<char>) -> int {
    (n.len()) * 65536 + if n.len() > 0 { n[0] as int } else { 0 }
}

proof fn lemma_config_contract_text_key(t: MetadataType)
    ensures
        config_contract_text_key(config_contract_text(t)) == match t {
            MetadataType::XbmcMetadata => 1310808int,
            MetadataType::RoksboxMetadata => 1507410int,
            MetadataType::WdtvMetadata => 1310807int,
        },
{
    match t {
            MetadataType::XbmcMetadata => { reveal_strlit("XbmcMetadataSettings"); },
            MetadataType::RoksboxMetadata => { reveal_strlit("RoksboxMetadataSettings"); },
            MetadataType::WdtvMetadata => { reveal_strlit("WdtvMetadataSettings"); },
    }
}

/// Sonarr's settings contract names: each kind maps to this name.
pub proof fn lemma_config_contract_names(t: MetadataType)
    ensures
        match t {
            MetadataType::XbmcMetadata => config_contract_text(t) == "XbmcMetadataSettings"@,
            MetadataType::RoksboxMetadata => config_contract_text(t) == "RoksboxMetadataSettings"@,
            MetadataType::WdtvMetadata => config_contract_text(t) == "WdtvMetadataSettings"@,
        },
{
}

/// Distinct kinds get distinct names, so the name Sonarr receives tells
/// which kind the spec asked for.
pub proof fn lemma_config_contract_names_distinct(a: MetadataType, b: MetadataType)
    requires
        config_contract_text(a) == config_contract_text(b),
    ensures
        a == b,
{
    lemma_config_contract_text_key(a);
    lemma_config_contract_text_key(b);
}

/// The settings contract of a metadata type.
pub fn get_config_contract(t: &MetadataType) -> (s: String)
    ensures
        s@ == config_contract_text(*t),
{
    match t {
        MetadataType::XbmcMetadata => string_of("XbmcMetadataSettings"),
        MetadataType::RoksboxMetadata => string_of("RoksboxMetadataSettings"),
        MetadataType::WdtvMetadata => string_of("WdtvMetadataSettings"),
    }
}

/// The consumer to send: the spec's name, implementation and contract,
/// whether it is on, and its tags, with the recorded id for an update.
pub fn metadata_payload(spec: &SonarrMetadataSpec, id: Option<i32>) -> (p: MetadataResource)
    ensures
        p.id == id,
        p.name == spec.name,
        p.implementation@ == implementation_text(spec.metadata_type),
        p.config_contract@ == config_contract_text(spec.metadata_type),
        p.enable == spec.enable,
        p.tags@ == spec.tags@,
{
    MetadataResource {
        id,
        name: spec.name.clone(),
        implementation: get_implementation_name(&spec.metadata_type),
        config_contract: get_config_contract(&spec.metadata_type),
        enable: spec.enable,
        tags: clone_ids(&spec.tags),
    }
}

} // verus!
