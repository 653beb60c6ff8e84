//! The series controller. A series is found by its recorded id, else by
//! its TVDB id among the series Sonarr holds; a series found is updated
//! with the spec's settings. A series not found is looked up on TVDB and
//! the first match is added with the spec's settings and add options.

use vstd::prelude::*;
use crate::api::models::{SeriesChanges, SeriesTypes};
use crate::api::models::AddSeriesOptions as ApiAddSeriesOptions;
use crate::api::models::MonitorTypes as ApiMonitorTypes;
use crate::controllers::traits::SyncedStatus;
use crate::controllers::utils::clone_ids;
use crate::crds::series::{AddSeriesOptions, MonitorType, SeriesType, SonarrSeriesSpec, SonarrSeriesStatus};
use crate::error::Error;
use crate::text::{concat2, concat3, i32_to_string, int_to_decimal};

verus! {

/// Which episodes of an added series are monitored, in Sonarr's terms.
pub open spec fn spec_monitor_type(m: MonitorType) -> ApiMonitorTypes {
    match m {
        MonitorType::All => ApiMonitorTypes::All,
        MonitorType::Future => ApiMonitorTypes::Future,
        MonitorType::Missing => ApiMonitorTypes::Missing,
        MonitorType::Existing => ApiMonitorTypes::Existing,
        MonitorType::FirstSeason => ApiMonitorTypes::FirstSeason,
        MonitorType::LastSeason => ApiMonitorTypes::LastSeason,
        MonitorType::Recent => ApiMonitorTypes::Recent,
        MonitorType::Pilot => ApiMonitorTypes::Pilot,
        MonitorType::NoEpisodes => ApiMonitorTypes::NoEpisodes,
    }
}

/// Distinct settings are sent as distinct values of Sonarr's own type.
pub proof fn lemma_monitor_type_injective(a: MonitorType, b: MonitorType)
    requires
        spec_monitor_type(a) == spec_monitor_type(b),
    ensures
        a == b,
{
}

/// Which episodes of an added series are monitored, in Sonarr's terms.
pub fn convert_monitor_type(m: &MonitorType) -> (r: ApiMonitorTypes)
    ensures
        r == spec_monitor_type(*m),
{
    match m {
        MonitorType::All => ApiMonitorTypes::All,
        MonitorType::Future => ApiMonitorTypes::Future,
        MonitorType::Missing => ApiMonitorTypes::Missing,
        MonitorType::Existing => ApiMonitorTypes::Existing,
        MonitorType::FirstSeason => ApiMonitorTypes::FirstSeason,
        MonitorType::LastSeason => ApiMonitorTypes::LastSeason,
        MonitorType::Recent => ApiMonitorTypes::Recent,
        MonitorType::Pilot => ApiMonitorTypes::Pilot,
        MonitorType::NoEpisodes => ApiMonitorTypes::NoEpisodes,
    }
}

/// A series type in Sonarr's terms.
pub open spec fn spec_series_type(t: SeriesType) -> SeriesTypes {
    match t {
        SeriesType::Standard => SeriesTypes::Standard,
        SeriesType::Daily => SeriesTypes::Daily,
        SeriesType::Anime => SeriesTypes::Anime,
    }
}

/// Distinct settings are sent as distinct values of Sonarr's own type.
pub proof fn lemma_series_type_injective(a: SeriesType, b: SeriesType)
    requires
        spec_series_type(a) == spec_series_type(b),
    ensures
        a == b,
{
}

/// A series type in Sonarr's terms.
pub fn convert_series_type(t: &SeriesType) -> (r: SeriesTypes)
    ensures
        r == spec_series_type(*t),
{
    match t {
        SeriesType::Standard => SeriesTypes::Standard,
        SeriesType::Daily => SeriesTypes::Daily,
        SeriesType::Anime => SeriesTypes::Anime,
    }
}

/// The settings the spec gives a series, on adding it and on each update.
/// The quality profile is set only when the spec names one by id.
pub fn series_changes(spec: &SonarrSeriesSpec) -> (c: SeriesChanges)
    ensures
        c.monitored == spec.monitored,
        c.quality_profile_id == spec.quality_profile.id,
        c.root_folder_path == spec.root_folder_path,
        c.season_folder == spec.season_folder,
        c.tags@ == spec.tags@,
        c.series_type == spec_series_type(spec.series_type),
{
    SeriesChanges {
        monitored: spec.monitored,
        quality_profile_id: spec.quality_profile.id,
        root_folder_path: spec.root_folder_path.clone(),
        season_folder: spec.season_folder,
        tags: clone_ids(&spec.tags),
        series_type: convert_series_type(&spec.series_type),
    }
}

/// The options a series is added with.
pub fn add_series_options(o: &AddSeriesOptions) -> (r: ApiAddSeriesOptions)
    ensures
        r.monitor == spec_monitor_type(o.monitor),
        r.search_for_missing_episodes == o.search_for_missing_episodes,
        r.search_for_cutoff_unmet_episodes == o.search_for_cutoff_unmet_episodes,
{
    ApiAddSeriesOptions {
        monitor: convert_monitor_type(&o.monitor),
        search_for_missing_episodes: o.search_for_missing_episodes,
        search_for_cutoff_unmet_episodes: o.search_for_cutoff_unmet_episodes,
    }
}

/// The TVDB lookup term of a series: "tvdb:" and its TVDB id.
pub fn lookup_term(tvdb_id: i32) -> (t: String)
    ensures
        t@ == "tvdb:"@ + int_to_decimal(tvdb_id as int),
{
    let id = i32_to_string(tvdb_id);
    concat2("tvdb:", id.as_str())
}

/// The error when TVDB knows no series with the spec's id.
pub fn series_not_found(tvdb_id: i32) -> (e: Error)
    ensures
        e is Other,
        e->Other_0@ == "Series with TVDB ID "@ + int_to_decimal(tvdb_id as int) + " not found"@,
{
    let id = i32_to_string(tvdb_id);
    Error::Other(concat3("Series with TVDB ID ", id.as_str(), " not found"))
}

/// A series as listed by Sonarr: its id and TVDB id.
pub struct ListedSeries {
    pub id: Option<i32>,
    pub tvdb_id: Option<i32>,
}

/// Where the sync of a series stands.
#[derive(Clone, Copy, Debug, PartialEq, Eq, Structural)]
pub enum SeriesPhase {
    Start,
    Fetching,
    Listing,
    LookingUp,
    Saving,
    Synced,
    Failed,
}

/// What Sonarr answered to the last command.
pub enum SeriesEvent {
    /// The sync begins
    Begin,
    /// The series with the recorded id was read; it has this id
    Fetched(Option<i32>),
    /// The series Sonarr holds for the TVDB id
    Listed(Vec<ListedSeries>),
    /// The TVDB lookup found this many series
    LookedUp(usize),
    /// The series was saved; it has this id
    Saved(Option<i32>),
    /// The call failed
    Failed,
}

/// What to do next.
#[derive(Clone, Copy, Debug, PartialEq, Eq, Structural)]
pub enum SeriesCommand {
    /// Read the series with this id
    Fetch(i32),
    /// List the series Sonarr holds for this TVDB id
    List(i32),
    /// Update the series just read, or the listed one at this index, under
    /// this id
    UpdateFetched(i32),
    UpdateListed(usize, i32),
    /// Look the series up on TVDB
    Lookup,
    /// Add the first series the lookup found
    AddFirst,
    /// Done: record this id
    Finish(Option<i32>),
    /// Give up with the error of the last call
    Abort,
    /// Give up: TVDB knows no such series
    NotFound,
}

/// Index of the first listed series with TVDB id `tvdb`, or the length
/// when there is none.
pub open spec fn first_with_tvdb(items: Seq<ListedSeries>, tvdb: i32) -> int
    decreases items.len(),
{
    if items.len() == 0 {
        0
    } else if items[0].tvdb_id == Some(tvdb) {
        0
    } else {
        1 + first_with_tvdb(items.drop_first(), tvdb)
    }
}

proof fn lemma_first_with_tvdb(items: Seq<ListedSeries>, tvdb: i32)
    ensures
        0 <= first_with_tvdb(items, tvdb) <= items.len(),
        first_with_tvdb(items, tvdb) < items.len() ==> items[first_with_tvdb(items, tvdb)].tvdb_id == Some(tvdb),
        forall|j: int| 0 <= j < first_with_tvdb(items, tvdb) ==> #[trigger] items[j].tvdb_id != Some(tvdb),
    decreases items.len(),
{
    if items.len() > 0 && items[0].tvdb_id != Some(tvdb) {
        lemma_first_with_tvdb(items.drop_first(), tvdb);
        assert forall|j: int| 0 <= j < first_with_tvdb(items, tvdb) implies #[trigger] items[j].tvdb_id != Some(tvdb) by {
            if j > 0 {
                assert(items[j] == items.drop_first()[j - 1]);
            }
        }
    }
}

/// The first listed series with TVDB id `tvdb`.
pub fn find_by_tvdb(items: &Vec<ListedSeries>, tvdb: i32) -> (r: Option<usize>)
    ensures
        match r {
            Some(i) => i == first_with_tvdb(items@, tvdb) && i < items@.len(),
            None => first_with_tvdb(items@, tvdb) == items@.len(),
        },
{
    proof {
        lemma_first_with_tvdb(items@, tvdb);
    }
    let n = items.len();
    let mut i: usize = 0;
    while i < n
        invariant
            n == items@.len(),
            i <= n,
            forall|j: int| 0 <= j < i ==> #[trigger] items@[j].tvdb_id != Some(tvdb),
            0 <= first_with_tvdb(items@, tvdb) <= items@.len(),
            first_with_tvdb(items@, tvdb) < items@.len() ==> items@[first_with_tvdb(items@, tvdb)].tvdb_id == Some(tvdb),
            forall|j: int| 0 <= j < first_with_tvdb(items@, tvdb) ==> #[trigger] items@[j].tvdb_id != Some(tvdb),
        decreases n - i,
    {
        if items[i].tvdb_id == Some(tvdb) {
            assert(first_with_tvdb(items@, tvdb) == i);
            return Some(i);
        }
        i = i + 1;
    }
    None
}

/// The id a series is updated under: its own, or 0 when it has none.
pub open spec fn update_id(id: Option<i32>) -> i32 {
    match id {
        Some(i) => i,
        None => 0,
    }
}

/// One step of syncing a series with Sonarr: from where it stands and what
/// Sonarr answered, where it goes and what to do.
///
/// A recorded id is read back; when that fails, the series is looked up as
/// if new. Without a recorded id, the series Sonarr holds for the TVDB id
/// are listed and the first with that id is updated. A series looked up is
/// added when TVDB knows it; a failed listing, lookup or save gives up.
pub fn series_step(status_id: Option<i32>, tvdb_id: i32, phase: SeriesPhase, event: &SeriesEvent) -> (r: (SeriesPhase, SeriesCommand))
    ensures
        match (phase, event) {
            (SeriesPhase::Start, SeriesEvent::Begin) => match status_id {
                Some(id) => r == (SeriesPhase::Fetching, SeriesCommand::Fetch(id)),
                None => r == (SeriesPhase::Listing, SeriesCommand::List(tvdb_id)),
            },
            (SeriesPhase::Fetching, SeriesEvent::Fetched(id)) => r == (SeriesPhase::Saving, SeriesCommand::UpdateFetched(update_id(*id))),
            (SeriesPhase::Fetching, SeriesEvent::Failed) => r == (SeriesPhase::LookingUp, SeriesCommand::Lookup),
            (SeriesPhase::Listing, SeriesEvent::Listed(items)) => {
                let i = first_with_tvdb(items@, tvdb_id);
                if i < items@.len() {
                    r == (SeriesPhase::Saving, SeriesCommand::UpdateListed(i as usize, update_id(items@[i].id)))
                } else {
                    r == (SeriesPhase::LookingUp, SeriesCommand::Lookup)
                }
            },
            (SeriesPhase::LookingUp, SeriesEvent::LookedUp(n)) => if *n == 0 {
                r == (SeriesPhase::Failed, SeriesCommand::NotFound)
            } else {
                r == (SeriesPhase::Saving, SeriesCommand::AddFirst)
            },
            (SeriesPhase::Saving, SeriesEvent::Saved(id)) => r == (SeriesPhase::Synced, SeriesCommand::Finish(*id)),
            _ => r == (SeriesPhase::Failed, SeriesCommand::Abort),
        },
{
    match (phase, event) {
        (SeriesPhase::Start, SeriesEvent::Begin) => match status_id {
            Some(id) => (SeriesPhase::Fetching, SeriesCommand::Fetch(id)),
            None => (SeriesPhase::Listing, SeriesCommand::List(tvdb_id)),
        },
        (SeriesPhase::Fetching, SeriesEvent::Fetched(id)) => (SeriesPhase::Saving, SeriesCommand::UpdateFetched(match id {
            Some(i) => *i,
            None => 0,
        })),
        (SeriesPhase::Fetching, SeriesEvent::Failed) => (SeriesPhase::LookingUp, SeriesCommand::Lookup),
        (SeriesPhase::Listing, SeriesEvent::Listed(items)) => match find_by_tvdb(items, tvdb_id) {
            Some(i) => (SeriesPhase::Saving, SeriesCommand::UpdateListed(i, match items[i].id {
                Some(x) => x,
                None => 0,
            })),
            None => (SeriesPhase::LookingUp, SeriesCommand::Lookup),
        },
        (SeriesPhase::LookingUp, SeriesEvent::LookedUp(n)) => if *n == 0 {
            (SeriesPhase::Failed, SeriesCommand::NotFound)
        } else {
            (SeriesPhase::Saving, SeriesCommand::AddFirst)
        },
        (SeriesPhase::Saving, SeriesEvent::Saved(id)) => (SeriesPhase::Synced, SeriesCommand::Finish(*id)),
        _ => (SeriesPhase::Failed, SeriesCommand::Abort),
    }
}

/// The status of a synced series: the synced conditions, id and
/// generation, with what Sonarr reports of the series.
pub fn series_status(
    synced: SyncedStatus,
    episode_count: Option<i32>,
    episode_file_count: Option<i32>,
    next_airing: Option<String>,
    previous_airing: Option<String>,
    network: Option<Option<String>>,
    state: Option<String>,
) -> (s: SonarrSeriesStatus)
    ensures
        s.conditions == synced.conditions,
        s.id == synced.id,
        s.observed_generation == synced.observed_generation,
        s.episode_count == episode_count,
        s.episode_file_count == episode_file_count,
        s.next_airing == next_airing,
        s.previous_airing == previous_airing,
        s.network == match network {
            Some(Some(n)) => Some(n),
            _ => None::<String>,
        },
        s.series_status == state,
{
    SonarrSeriesStatus {
        conditions: synced.conditions,
        id: synced.id,
        observed_generation: synced.observed_generation,
        episode_count,
        episode_file_count,
        next_airing,
        previous_airing,
        network: match network {
            Some(Some(n)) => Some(n),
            _ => None,
        },
        series_status: state,
    }
}

} // verus!
