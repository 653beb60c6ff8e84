//! The `SonarrLanguageProfile` resource: a language profile in Sonarr.

use vstd::prelude::*;
use crate::crds::SonarrInstanceRef;
use crate::meta::Condition;

verus! {

/// Desired state of a language profile.
pub struct SonarrLanguageProfileSpec {
    pub sonarr_instance_ref: SonarrInstanceRef,
    /// Language profile name
    pub name: String,
    /// Whether upgrades are allowed
    pub upgrade_allowed: bool,
    /// Language to stop upgrading at
    pub cutoff_language: LanguageType,
    /// Languages and whether each is allowed
    pub languages: Vec<LanguageItem>,
}

/// A language of a profile.
pub struct LanguageItem {
    pub language: LanguageType,
    pub allowed: bool,
}

/// Whether a language is allowed when not said otherwise.
pub fn default_true() -> (b: bool)
    ensures
        b,
{
    true
}

/// Languages known to Sonarr.
#[derive(Clone, Copy, Debug, PartialEq, Eq, Structural)]
pub enum LanguageType {
    Unknown,
    English,
    French,
    Spanish,
    German,
    Italian,
    Danish,
    Dutch,
    Japanese,
    Icelandic,
    Chinese,
    Russian,
    Polish,
    Vietnamese,
    Swedish,
    Norwegian,
    Finnish,
    Turkish,
    Portuguese,
    Flemish,
    Greek,
    Korean,
    Hungarian,
    Hebrew,
    Lithuanian,
    Czech,
    Hindi,
    Romanian,
    Thai,
    Bulgarian,
    PortugueseBrazil,
    Arabic,
    Ukrainian,
    Persian,
    Bengali,
    Slovak,
    Latvian,
    SpanishLatino,
    Catalan,
    Croatian,
    Serbian,
    Bosnian,
    Estonian,
    Tamil,
    Indonesian,
    Telugu,
    Macedonian,
    Slovenian,
    Malay,
    Original,
    Any,
}

impl Default for LanguageType {
    fn default() -> (r: LanguageType)
        ensures
            r == LanguageType::English,
    {
        LanguageType::English
    }
}

/// Observed state of a language profile.
pub struct SonarrLanguageProfileStatus {
    pub conditions: Vec<Condition>,
    pub id: Option<i32>,
    pub observed_generation: i64,
}

impl Default for SonarrLanguageProfileStatus {
    /// Every setting unset: empty, absent, false or zero.
    fn default() -> (r: SonarrLanguageProfileStatus)
        ensures
            r.conditions@.len() == 0,
            r.id is None,
            r.observed_generation == 0,
    {
        SonarrLanguageProfileStatus {
            conditions: Vec::new(),
            id: None,
            observed_generation: 0,
        }
    }
}

} // verus!
