//! The import list controller: the import list it sends to Sonarr, with
//! the spec's monitoring and series settings in Sonarr's terms.

use vstd::prelude::*;
use crate::api::models::ImportListResource;
use crate::api::models::MonitorTypes as ApiMonitorTypes;
use crate::api::models::NewItemMonitorTypes as ApiNewItemMonitorTypes;
use crate::api::models::SeriesTypes as ApiSeriesTypes;
use crate::controllers::utils::clone_ids;
use crate::crds::import_list::{ImportListType, MonitorTypes, NewItemMonitorTypes, SeriesTypes, SonarrImportListSpec};
use crate::text::string_of;

verus! {

/// Sonarr's implementation name for an import list type.
pub open spec fn implementation_text(t: ImportListType) -> Seq<char> {
    match t {
        ImportListType::SonarrImport => "SonarrImport"@,
        ImportListType::TraktListImport => "TraktListImport"@,
        ImportListType::TraktUserImport => "TraktUserImport"@,
        ImportListType::TraktPopularImport => "TraktPopularImport"@,
        ImportListType::PlexImport => "PlexImport"@,
        ImportListType::ImdbListImport => "ImdbListImport"@,
        ImportListType::CustomImport => "CustomImport"@,
        ImportListType::SimklImport => "SimklImport"@,
        ImportListType::AniListImport => "AniListImport"@,
        ImportListType::MyAnimeListImport => "MyAnimeListImport"@,
    }
}

/// A number that tells the names of `implementation_text` apart: the length and the
/// characters at a few positions.
spec fn implementation_text_key(n: Seq<char>) -> int {
    (n.len()) * 65536 + if n.len() > 5 { n[5] as int } else { 0 }
}

proof fn lemma_implementation_text_key(t: ImportListType)
    ensures
        implementation_text_key(implementation_text(t)) == match t {
            ImportListType::SonarrImport => 786546int,
            ImportListType::TraktListImport => 983116int,
            ImportListType::TraktUserImport => 983125int,
            ImportListType::TraktPopularImport => 1179728int,
            ImportListType::PlexImport => 655469int,
            ImportListType::ImdbListImport => 917609int,
            ImportListType::CustomImport => 786541int,
            ImportListType::SimklImport => 720969int,
            ImportListType::AniListImport => 852083int,
            ImportListType::MyAnimeListImport => 1114221int,
        },
{
    match t {
            ImportListType::SonarrImport => { reveal_strlit("SonarrImport"); },
            ImportListType::TraktListImport => { reveal_strlit("TraktListImport"); },
            ImportListType::TraktUserImport => { reveal_strlit("TraktUserImport"); },
            ImportListType::TraktPopularImport => { reveal_strlit("TraktPopularImport"); },
            ImportListType::PlexImport => { reveal_strlit("PlexImport"); },
            ImportListType::ImdbListImport => { reveal_strlit("ImdbListImport"); },
            ImportListType::CustomImport => { reveal_strlit("CustomImport"); },
            ImportListType::SimklImport => { reveal_strlit("SimklImport"); },
            ImportListType::AniListImport => { reveal_strlit("AniListImport"); },
            ImportListType::MyAnimeListImport => { reveal_strlit("MyAnimeListImport"); },
    }
}

/// Sonarr's implementation names: each kind maps to this name.
pub proof fn lemma_implementation_names(t: ImportListType)
    ensures
        match t {
            ImportListType::SonarrImport => implementation_text(t) == "SonarrImport"@,
            ImportListType::TraktListImport => implementation_text(t) == "TraktListImport"@,
            ImportListType::TraktUserImport => implementation_text(t) == "TraktUserImport"@,
            ImportListType::TraktPopularImport => implementation_text(t) == "TraktPopularImport"@,
            ImportListType::PlexImport => implementation_text(t) == "PlexImport"@,
            ImportListType::ImdbListImport => implementation_text(t) == "ImdbListImport"@,
            ImportListType::CustomImport => implementation_text(t) == "CustomImport"@,
            ImportListType::SimklImport => implementation_text(t) == "SimklImport"@,
            ImportListType::AniListImport => implementation_text(t) == "AniListImport"@,
            ImportListType::MyAnimeListImport => implementation_text(t) == "MyAnimeListImport"@,
        },
{
}

/// Distinct kinds get distinct names, so the name Sonarr receives tells
/// which kind the spec asked for.
pub proof fn lemma_implementation_names_distinct(a: ImportListType, b: ImportListType)
    requires
        implementation_text(a) == implementation_text(b),
    ensures
        a == b,
{
    lemma_implementation_text_key(a);
    lemma_implementation_text_key(b);
}

/// Sonarr's implementation name for an import list type.
pub fn get_implementation_name(t: &ImportListType) -> (s: String)
    ensures
        s@ == implementation_text(*t),
{
    match t {
        ImportListType::SonarrImport => string_of("SonarrImport"),
        ImportListType::TraktListImport => string_of("TraktListImport"),
        ImportListType::TraktUserImport => string_of("TraktUserImport"),
        ImportListType::TraktPopularImport => string_of("TraktPopularImport"),
        ImportListType::PlexImport => string_of("PlexImport"),
        ImportListType::ImdbListImport => string_of("ImdbListImport"),
        ImportListType::CustomImport => string_of("CustomImport"),
        ImportListType::SimklImport => string_of("SimklImport"),
        ImportListType::AniListImport => string_of("AniListImport"),
        ImportListType::MyAnimeListImport => string_of("MyAnimeListImport"),
    }
}

/// The monitoring of an import list in Sonarr's terms: the same option.
pub open spec fn spec_monitor_type(mt: MonitorTypes) -> ApiMonitorTypes {
    match mt {
        MonitorTypes::All => ApiMonitorTypes::All,
        MonitorTypes::Future => ApiMonitorTypes::Future,
        MonitorTypes::Missing => ApiMonitorTypes::Missing,
        MonitorTypes::Existing => ApiMonitorTypes::Existing,
        MonitorTypes::FirstSeason => ApiMonitorTypes::FirstSeason,
        MonitorTypes::LatestSeason => ApiMonitorTypes::LatestSeason,
        MonitorTypes::Pilot => ApiMonitorTypes::Pilot,
        MonitorTypes::MonitorSpecials => ApiMonitorTypes::MonitorSpecials,
        MonitorTypes::UnmonitorSpecials => ApiMonitorTypes::UnmonitorSpecials,
        MonitorTypes::NoEpisodes => ApiMonitorTypes::NoEpisodes,
    }
}

/// The monitoring of an import list in Sonarr's terms.
pub fn convert_monitor_type(mt: &MonitorTypes) -> (r: ApiMonitorTypes)
    ensures
        r == spec_monitor_type(*mt),
{
    match mt {
        MonitorTypes::All => ApiMonitorTypes::All,
        MonitorTypes::Future => ApiMonitorTypes::Future,
        MonitorTypes::Missing => ApiMonitorTypes::Missing,
        MonitorTypes::Existing => ApiMonitorTypes::Existing,
        MonitorTypes::FirstSeason => ApiMonitorTypes::FirstSeason,
        MonitorTypes::LatestSeason => ApiMonitorTypes::LatestSeason,
        MonitorTypes::Pilot => ApiMonitorTypes::Pilot,
        MonitorTypes::MonitorSpecials => ApiMonitorTypes::MonitorSpecials,
        MonitorTypes::UnmonitorSpecials => ApiMonitorTypes::UnmonitorSpecials,
        MonitorTypes::NoEpisodes => ApiMonitorTypes::NoEpisodes,
    }
}

/// Whether new items are monitored, in Sonarr's terms.
pub fn convert_new_item_monitor_type(mt: &NewItemMonitorTypes) -> (r: ApiNewItemMonitorTypes)
    ensures
        r == match *mt {
            NewItemMonitorTypes::All => ApiNewItemMonitorTypes::All,
            NewItemMonitorTypes::NoItems => ApiNewItemMonitorTypes::NoItems,
        },
{
    match mt {
        NewItemMonitorTypes::All => ApiNewItemMonitorTypes::All,
        NewItemMonitorTypes::NoItems => ApiNewItemMonitorTypes::NoItems,
    }
}

/// A series type in Sonarr's terms.
pub open spec fn spec_series_type(st: SeriesTypes) -> ApiSeriesTypes {
    match st {
        SeriesTypes::Standard => ApiSeriesTypes::Standard,
        SeriesTypes::Daily => ApiSeriesTypes::Daily,
        SeriesTypes::Anime => ApiSeriesTypes::Anime,
    }
}

/// Distinct settings are sent as distinct values of Sonarr's own type.
pub proof fn lemma_series_type_injective(a: SeriesTypes, b: SeriesTypes)
    requires
        spec_series_type(a) == spec_series_type(b),
    ensures
        a == b,
{
}

/// A series type in Sonarr's terms.
pub fn convert_series_type(st: &SeriesTypes) -> (r: ApiSeriesTypes)
    ensures
        r == spec_series_type(*st),
{
    match st {
        SeriesTypes::Standard => ApiSeriesTypes::Standard,
        SeriesTypes::Daily => ApiSeriesTypes::Daily,
        SeriesTypes::Anime => ApiSeriesTypes::Anime,
    }
}

/// Distinct monitoring options stay distinct in Sonarr's terms.
pub proof fn lemma_monitor_type_injective(a: MonitorTypes, b: MonitorTypes)
    requires
        spec_monitor_type(a) == spec_monitor_type(b),
    ensures
        a == b,
{
}

/// The import list to send: the spec's name, implementation, settings and
/// tags, and the recorded id for an update.
pub fn import_list_payload(spec: &SonarrImportListSpec, id: Option<i32>) -> (p: ImportListResource)
    ensures
        p.id == id,
        p.name == spec.name,
        p.implementation@ == implementation_text(spec.list_type),
        p.enable_automatic_add == spec.enable_automatic_add,
        p.search_for_missing_episodes == spec.search_for_missing_episodes,
        p.should_monitor == spec_monitor_type(spec.should_monitor),
        p.monitor_new_items == match spec.monitor_new_items {
            NewItemMonitorTypes::All => ApiNewItemMonitorTypes::All,
            NewItemMonitorTypes::NoItems => ApiNewItemMonitorTypes::NoItems,
        },
        p.root_folder_path == spec.root_folder_path,
        p.quality_profile_id == spec.quality_profile_id,
        p.series_type == spec_series_type(spec.series_type),
        p.season_folder == spec.season_folder,
        p.list_order == spec.list_order,
        p.tags@ == spec.tags@,
{
    ImportListResource {
        id,
        name: spec.name.clone(),
        implementation: get_implementation_name(&spec.list_type),
        enable_automatic_add: spec.enable_automatic_add,
        search_for_missing_episodes: spec.search_for_missing_episodes,
        should_monitor: convert_monitor_type(&spec.should_monitor),
        monitor_new_items: convert_new_item_monitor_type(&spec.monitor_new_items),
        root_folder_path: spec.root_folder_path.clone(),
        quality_profile_id: spec.quality_profile_id,
        series_type: convert_series_type(&spec.series_type),
        season_folder: spec.season_folder,
        list_order: spec.list_order,
        tags: clone_ids(&spec.tags),
    }
}

} // verus!
