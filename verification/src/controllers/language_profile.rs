//! The language profile controller: the profile it sends to Sonarr, with
//! each language given by Sonarr's id and name for it.

use vstd::prelude::*;
use crate::api::models::{Language, LanguageProfileItemResource, LanguageProfileResource};
use crate::crds::language_profile::{LanguageItem, LanguageType, SonarrLanguageProfileSpec};
use crate::text::string_of;

verus! {

/// Sonarr's id for a language.
pub open spec fn spec_language_id(lang: LanguageType) -> i32 {
    match lang {
        LanguageType::Unknown => -1i32,
        LanguageType::English => 1,
        LanguageType::French => 2,
        LanguageType::Spanish => 3,
        LanguageType::German => 4,
        LanguageType::Italian => 5,
        LanguageType::Danish => 6,
        LanguageType::Dutch => 7,
        LanguageType::Japanese => 8,
        LanguageType::Icelandic => 9,
        LanguageType::Chinese => 10,
        LanguageType::Russian => 11,
        LanguageType::Polish => 12,
        LanguageType::Vietnamese => 13,
        LanguageType::Swedish => 14,
        LanguageType::Norwegian => 15,
        LanguageType::Finnish => 16,
        LanguageType::Turkish => 17,
        LanguageType::Portuguese => 18,
        LanguageType::Flemish => 19,
        LanguageType::Greek => 20,
        LanguageType::Korean => 21,
        LanguageType::Hungarian => 22,
        LanguageType::Hebrew => 23,
        LanguageType::Lithuanian => 24,
        LanguageType::Czech => 25,
        LanguageType::Hindi => 26,
        LanguageType::Romanian => 27,
        LanguageType::Thai => 28,
        LanguageType::Bulgarian => 29,
        LanguageType::PortugueseBrazil => 30,
        LanguageType::Arabic => 31,
        LanguageType::Ukrainian => 32,
        LanguageType::Persian => 33,
        LanguageType::Bengali => 34,
        LanguageType::Slovak => 35,
        LanguageType::Latvian => 36,
        LanguageType::SpanishLatino => 37,
        LanguageType::Catalan => 38,
        LanguageType::Croatian => 39,
        LanguageType::Serbian => 40,
        LanguageType::Bosnian => 41,
        LanguageType::Estonian => 42,
        LanguageType::Tamil => 43,
        LanguageType::Indonesian => 44,
        LanguageType::Telugu => 45,
        LanguageType::Macedonian => 46,
        LanguageType::Slovenian => 47,
        LanguageType::Malay => 48,
        LanguageType::Original => -2i32,
        LanguageType::Any => 0,
    }
}

/// The language Sonarr knows by an id, if any.
pub open spec fn language_of_id(id: i32) -> Option<LanguageType> {
    if id == -1 { Some(LanguageType::Unknown) }
    else if id == 1 { Some(LanguageType::English) }
    else if id == 2 { Some(LanguageType::French) }
    else if id == 3 { Some(LanguageType::Spanish) }
    else if id == 4 { Some(LanguageType::German) }
    else if id == 5 { Some(LanguageType::Italian) }
    else if id == 6 { Some(LanguageType::Danish) }
    else if id == 7 { Some(LanguageType::Dutch) }
    else if id == 8 { Some(LanguageType::Japanese) }
    else if id == 9 { Some(LanguageType::Icelandic) }
    else if id == 10 { Some(LanguageType::Chinese) }
    else if id == 11 { Some(LanguageType::Russian) }
    else if id == 12 { Some(LanguageType::Polish) }
    else if id == 13 { Some(LanguageType::Vietnamese) }
    else if id == 14 { Some(LanguageType::Swedish) }
    else if id == 15 { Some(LanguageType::Norwegian) }
    else if id == 16 { Some(LanguageType::Finnish) }
    else if id == 17 { Some(LanguageType::Turkish) }
    else if id == 18 { Some(LanguageType::Portuguese) }
    else if id == 19 { Some(LanguageType::Flemish) }
    else if id == 20 { Some(LanguageType::Greek) }
    else if id == 21 { Some(LanguageType::Korean) }
    else if id == 22 { Some(LanguageType::Hungarian) }
    else if id == 23 { Some(LanguageType::Hebrew) }
    else if id == 24 { Some(LanguageType::Lithuanian) }
    else if id == 25 { Some(LanguageType::Czech) }
    else if id == 26 { Some(LanguageType::Hindi) }
    else if id == 27 { Some(LanguageType::Romanian) }
    else if id == 28 { Some(LanguageType::Thai) }
    else if id == 29 { Some(LanguageType::Bulgarian) }
    else if id == 30 { Some(LanguageType::PortugueseBrazil) }
    else if id == 31 { Some(LanguageType::Arabic) }
    else if id == 32 { Some(LanguageType::Ukrainian) }
    else if id == 33 { Some(LanguageType::Persian) }
    else if id == 34 { Some(LanguageType::Bengali) }
    else if id == 35 { Some(LanguageType::Slovak) }
    else if id == 36 { Some(LanguageType::Latvian) }
    else if id == 37 { Some(LanguageType::SpanishLatino) }
    else if id == 38 { Some(LanguageType::Catalan) }
    else if id == 39 { Some(LanguageType::Croatian) }
    else if id == 40 { Some(LanguageType::Serbian) }
    else if id == 41 { Some(LanguageType::Bosnian) }
    else if id == 42 { Some(LanguageType::Estonian) }
    else if id == 43 { Some(LanguageType::Tamil) }
    else if id == 44 { Some(LanguageType::Indonesian) }
    else if id == 45 { Some(LanguageType::Telugu) }
    else if id == 46 { Some(LanguageType::Macedonian) }
    else if id == 47 { Some(LanguageType::Slovenian) }
    else if id == 48 { Some(LanguageType::Malay) }
    else if id == -2 { Some(LanguageType::Original) }
    else if id == 0 { Some(LanguageType::Any) }
    else { None }
}

/// The name Sonarr gives a language: the name of the variant.
pub open spec fn spec_language_name(lang: LanguageType) -> Seq<char> {
    match lang {
        LanguageType::Unknown => "Unknown"@,
        LanguageType::English => "English"@,
        LanguageType::French => "French"@,
        LanguageType::Spanish => "Spanish"@,
        LanguageType::German => "German"@,
        LanguageType::Italian => "Italian"@,
        LanguageType::Danish => "Danish"@,
        LanguageType::Dutch => "Dutch"@,
        LanguageType::Japanese => "Japanese"@,
        LanguageType::Icelandic => "Icelandic"@,
        LanguageType::Chinese => "Chinese"@,
        LanguageType::Russian => "Russian"@,
        LanguageType::Polish => "Polish"@,
        LanguageType::Vietnamese => "Vietnamese"@,
        LanguageType::Swedish => "Swedish"@,
        LanguageType::Norwegian => "Norwegian"@,
        LanguageType::Finnish => "Finnish"@,
        LanguageType::Turkish => "Turkish"@,
        LanguageType::Portuguese => "Portuguese"@,
        LanguageType::Flemish => "Flemish"@,
        LanguageType::Greek => "Greek"@,
        LanguageType::Korean => "Korean"@,
        LanguageType::Hungarian => "Hungarian"@,
        LanguageType::Hebrew => "Hebrew"@,
        LanguageType::Lithuanian => "Lithuanian"@,
        LanguageType::Czech => "Czech"@,
        LanguageType::Hindi => "Hindi"@,
        LanguageType::Romanian => "Romanian"@,
        LanguageType::Thai => "Thai"@,
        LanguageType::Bulgarian => "Bulgarian"@,
        LanguageType::PortugueseBrazil => "PortugueseBrazil"@,
        LanguageType::Arabic => "Arabic"@,
        LanguageType::Ukrainian => "Ukrainian"@,
        LanguageType::Persian => "Persian"@,
        LanguageType::Bengali => "Bengali"@,
        LanguageType::Slovak => "Slovak"@,
        LanguageType::Latvian => "Latvian"@,
        LanguageType::SpanishLatino => "SpanishLatino"@,
        LanguageType::Catalan => "Catalan"@,
        LanguageType::Croatian => "Croatian"@,
        LanguageType::Serbian => "Serbian"@,
        LanguageType::Bosnian => "Bosnian"@,
        LanguageType::Estonian => "Estonian"@,
        LanguageType::Tamil => "Tamil"@,
        LanguageType::Indonesian => "Indonesian"@,
        LanguageType::Telugu => "Telugu"@,
        LanguageType::Macedonian => "Macedonian"@,
        LanguageType::Slovenian => "Slovenian"@,
        LanguageType::Malay => "Malay"@,
        LanguageType::Original => "Original"@,
        LanguageType::Any => "Any"@,
    }
}

/// Sonarr's id for a language.
pub fn get_language_id(lang: &LanguageType) -> (id: i32)
    ensures
        id == spec_language_id(*lang),
{
    match lang {
        LanguageType::Unknown => -1,
        LanguageType::English => 1,
        LanguageType::French => 2,
        LanguageType::Spanish => 3,
        LanguageType::German => 4,
        LanguageType::Italian => 5,
        LanguageType::Danish => 6,
        LanguageType::Dutch => 7,
        LanguageType::Japanese => 8,
        LanguageType::Icelandic => 9,
        LanguageType::Chinese => 10,
        LanguageType::Russian => 11,
        LanguageType::Polish => 12,
        LanguageType::Vietnamese => 13,
        LanguageType::Swedish => 14,
        LanguageType::Norwegian => 15,
        LanguageType::Finnish => 16,
        LanguageType::Turkish => 17,
        LanguageType::Portuguese => 18,
        LanguageType::Flemish => 19,
        LanguageType::Greek => 20,
        LanguageType::Korean => 21,
        LanguageType::Hungarian => 22,
        LanguageType::Hebrew => 23,
        LanguageType::Lithuanian => 24,
        LanguageType::Czech => 25,
        LanguageType::Hindi => 26,
        LanguageType::Romanian => 27,
        LanguageType::Thai => 28,
        LanguageType::Bulgarian => 29,
        LanguageType::PortugueseBrazil => 30,
        LanguageType::Arabic => 31,
        LanguageType::Ukrainian => 32,
        LanguageType::Persian => 33,
        LanguageType::Bengali => 34,
        LanguageType::Slovak => 35,
        LanguageType::Latvian => 36,
        LanguageType::SpanishLatino => 37,
        LanguageType::Catalan => 38,
        LanguageType::Croatian => 39,
        LanguageType::Serbian => 40,
        LanguageType::Bosnian => 41,
        LanguageType::Estonian => 42,
        LanguageType::Tamil => 43,
        LanguageType::Indonesian => 44,
        LanguageType::Telugu => 45,
        LanguageType::Macedonian => 46,
        LanguageType::Slovenian => 47,
        LanguageType::Malay => 48,
        LanguageType::Original => -2,
        LanguageType::Any => 0,
    }
}

/// The name Sonarr gives a language.
pub fn language_name(lang: &LanguageType) -> (s: String)
    ensures
        s@ == spec_language_name(*lang),
{
    match lang {
        LanguageType::Unknown => string_of("Unknown"),
        LanguageType::English => string_of("English"),
        LanguageType::French => string_of("French"),
        LanguageType::Spanish => string_of("Spanish"),
        LanguageType::German => string_of("German"),
        LanguageType::Italian => string_of("Italian"),
        LanguageType::Danish => string_of("Danish"),
        LanguageType::Dutch => string_of("Dutch"),
        LanguageType::Japanese => string_of("Japanese"),
        LanguageType::Icelandic => string_of("Icelandic"),
        LanguageType::Chinese => string_of("Chinese"),
        LanguageType::Russian => string_of("Russian"),
        LanguageType::Polish => string_of("Polish"),
        LanguageType::Vietnamese => string_of("Vietnamese"),
        LanguageType::Swedish => string_of("Swedish"),
        LanguageType::Norwegian => string_of("Norwegian"),
        LanguageType::Finnish => string_of("Finnish"),
        LanguageType::Turkish => string_of("Turkish"),
        LanguageType::Portuguese => string_of("Portuguese"),
        LanguageType::Flemish => string_of("Flemish"),
        LanguageType::Greek => string_of("Greek"),
        LanguageType::Korean => string_of("Korean"),
        LanguageType::Hungarian => string_of("Hungarian"),
        LanguageType::Hebrew => string_of("Hebrew"),
        LanguageType::Lithuanian => string_of("Lithuanian"),
        LanguageType::Czech => string_of("Czech"),
        LanguageType::Hindi => string_of("Hindi"),
        LanguageType::Romanian => string_of("Romanian"),
        LanguageType::Thai => string_of("Thai"),
        LanguageType::Bulgarian => string_of("Bulgarian"),
        LanguageType::PortugueseBrazil => string_of("PortugueseBrazil"),
        LanguageType::Arabic => string_of("Arabic"),
        LanguageType::Ukrainian => string_of("Ukrainian"),
        LanguageType::Persian => string_of("Persian"),
        LanguageType::Bengali => string_of("Bengali"),
        LanguageType::Slovak => string_of("Slovak"),
        LanguageType::Latvian => string_of("Latvian"),
        LanguageType::SpanishLatino => string_of("SpanishLatino"),
        LanguageType::Catalan => string_of("Catalan"),
        LanguageType::Croatian => string_of("Croatian"),
        LanguageType::Serbian => string_of("Serbian"),
        LanguageType::Bosnian => string_of("Bosnian"),
        LanguageType::Estonian => string_of("Estonian"),
        LanguageType::Tamil => string_of("Tamil"),
        LanguageType::Indonesian => string_of("Indonesian"),
        LanguageType::Telugu => string_of("Telugu"),
        LanguageType::Macedonian => string_of("Macedonian"),
        LanguageType::Slovenian => string_of("Slovenian"),
        LanguageType::Malay => string_of("Malay"),
        LanguageType::Original => string_of("Original"),
        LanguageType::Any => string_of("Any"),
    }
}

/// Each language has an id of its own: the id gives the language back.
pub proof fn lemma_language_id_identifies(lang: LanguageType)
    ensures
        language_of_id(spec_language_id(lang)) == Some(lang),
{
}

/// Two languages with the same id are the same language.
pub proof fn lemma_language_ids_distinct(a: LanguageType, b: LanguageType)
    requires
        spec_language_id(a) == spec_language_id(b),
    ensures
        a == b,
{
    lemma_language_id_identifies(a);
    lemma_language_id_identifies(b);
}

/// The language sent for a language of the spec: its id and its name.
pub fn convert_language(lang: &LanguageType) -> (l: Language)
    ensures
        l.id == spec_language_id(*lang),
        l.name@ == spec_language_name(*lang),
{
    Language { id: get_language_id(lang), name: language_name(lang) }
}

/// A language item as sent.
pub open spec fn language_item_planned(it: LanguageProfileItemResource, item: LanguageItem) -> bool {
    &&& it.language.id == spec_language_id(item.language)
    &&& it.language.name@ == spec_language_name(item.language)
    &&& it.allowed == item.allowed
}

/// The profile to send: the spec's name, upgrade setting, cutoff and
/// languages in order, and the recorded id for an update.
pub fn language_profile_payload(spec: &SonarrLanguageProfileSpec, id: Option<i32>) -> (p: LanguageProfileResource)
    ensures
        p.id == id,
        p.name == spec.name,
        p.upgrade_allowed == spec.upgrade_allowed,
        p.cutoff.id == spec_language_id(spec.cutoff_language),
        p.cutoff.name@ == spec_language_name(spec.cutoff_language),
        p.languages@.len() == spec.languages@.len(),
        forall|i: int| 0 <= i < spec.languages@.len()
            ==> language_item_planned(p.languages@[i], #[trigger] spec.languages@[i]),
{
    let mut languages: Vec<LanguageProfileItemResource> = Vec::new();
    let n = spec.languages.len();
    let mut i: usize = 0;
    while i < n
        invariant
            n == spec.languages@.len(),
            i <= n,
            languages@.len() == i,
            forall|j: int| 0 <= j < i ==> language_item_planned(languages@[j], #[trigger] spec.languages@[j]),
        decreases n - i,
    {
        let item = &spec.languages[i];
        languages.push(LanguageProfileItemResource { language: convert_language(&item.language), allowed: item.allowed });
        i = i + 1;
    }
    LanguageProfileResource {
        id,
        name: spec.name.clone(),
        upgrade_allowed: spec.upgrade_allowed,
        cutoff: convert_language(&spec.cutoff_language),
        languages,
    }
}

} // verus!
