use sonarr_operator::meta::Time;
use sonarr_operator::api::models::{ListedItem, MonitorTypes as ApiMonitor, SeriesTypes as ApiSeriesTypes};
use sonarr_operator::controllers::series::{
    add_series_options, lookup_term, series_changes, series_not_found, series_status, series_step, ListedSeries,
    SeriesCommand, SeriesEvent, SeriesPhase,
};
use sonarr_operator::controllers::traits::{
    cleanup_step, find_by_name, payload_id, synced_status, sync_step, CleanupCommand, CleanupEvent, CleanupPhase,
    RefreshMode, SyncCommand, SyncEvent, SyncPhase,
};
use sonarr_operator::crds::series::{AddSeriesOptions, MonitorType, QualityProfileRef, SeriesType, SonarrSeriesSpec};
use sonarr_operator::crds::SonarrInstanceRef;
use sonarr_operator::error::Error;

fn item(id: i32, name: Option<&str>) -> ListedItem {
    ListedItem { id: Some(id), name: Some(name.map(|n| n.to_string())) }
}

#[test]
fn recorded_id_is_updated_or_fetched() {
    let w = "tag".to_string();
    assert_eq!(sync_step(RefreshMode::Update, true, &w, Some(4), SyncPhase::Start, &SyncEvent::Begin), (SyncPhase::Refreshing, SyncCommand::Update(4)));
    assert_eq!(sync_step(RefreshMode::Fetch, true, &w, Some(4), SyncPhase::Start, &SyncEvent::Begin), (SyncPhase::Refreshing, SyncCommand::Fetch(4)));
    assert_eq!(sync_step(RefreshMode::Update, true, &w, Some(4), SyncPhase::Refreshing, &SyncEvent::Succeeded(Some(4))), (SyncPhase::Synced, SyncCommand::Finish(Some(4))));
}

#[test]
fn failed_refresh_creates_anew() {
    let w = "tag".to_string();
    assert_eq!(sync_step(RefreshMode::Update, true, &w, Some(4), SyncPhase::Refreshing, &SyncEvent::Failed), (SyncPhase::Creating, SyncCommand::Create));
    assert_eq!(sync_step(RefreshMode::Update, true, &w, Some(4), SyncPhase::Creating, &SyncEvent::Succeeded(Some(8))), (SyncPhase::Synced, SyncCommand::Finish(Some(8))));
    assert_eq!(sync_step(RefreshMode::Update, true, &w, Some(4), SyncPhase::Creating, &SyncEvent::Failed), (SyncPhase::Failed, SyncCommand::Abort));
}

#[test]
fn existing_object_with_the_name_is_adopted() {
    let w = "4k".to_string();
    assert_eq!(sync_step(RefreshMode::Update, true, &w, None, SyncPhase::Start, &SyncEvent::Begin), (SyncPhase::Listing, SyncCommand::List));
    let listed = SyncEvent::Listed(vec![item(1, Some("hd")), item(2, None), item(3, Some("4k")), item(4, Some("4k"))]);
    assert_eq!(sync_step(RefreshMode::Update, true, &w, None, SyncPhase::Listing, &listed), (SyncPhase::Synced, SyncCommand::Finish(Some(3))));
    let none = SyncEvent::Listed(vec![item(1, Some("hd"))]);
    assert_eq!(sync_step(RefreshMode::Update, true, &w, None, SyncPhase::Listing, &none), (SyncPhase::Creating, SyncCommand::Create));
    assert_eq!(sync_step(RefreshMode::Update, true, &w, None, SyncPhase::Listing, &SyncEvent::Failed), (SyncPhase::Failed, SyncCommand::Abort));
}

#[test]
fn without_lookup_a_new_object_is_created() {
    let w = String::new();
    assert_eq!(sync_step(RefreshMode::Update, false, &w, None, SyncPhase::Start, &SyncEvent::Begin), (SyncPhase::Creating, SyncCommand::Create));
}

#[test]
fn find_by_name_and_payload_ids() {
    let items = vec![item(1, Some("a")), item(2, Some("b")), item(3, Some("b"))];
    assert_eq!(find_by_name(&items, &"b".to_string()), Some(1));
    assert_eq!(find_by_name(&items, &"c".to_string()), None);
    assert_eq!(payload_id(SyncCommand::Update(5)), Some(5));
    assert_eq!(payload_id(SyncCommand::Create), None);
}

fn series_spec() -> SonarrSeriesSpec {
    SonarrSeriesSpec {
        sonarr_instance_ref: SonarrInstanceRef { name: "tv".to_string(), namespace: None },
        title: "Show".to_string(),
        tvdb_id: 81189,
        title_slug: "show".to_string(),
        quality_profile: QualityProfileRef { id: Some(4), name: None },
        root_folder_path: "/tv".to_string(),
        monitored: true,
        season_folder: false,
        use_scene_numbering: false,
        series_type: SeriesType::Anime,
        tags: vec![1],
        path: None,
        add_options: AddSeriesOptions { monitor: MonitorType::NoEpisodes, search_for_missing_episodes: true, search_for_cutoff_unmet_episodes: false },
    }
}

#[test]
fn series_found_by_tvdb_is_updated() {
    assert_eq!(series_step(None, 81189, SeriesPhase::Start, &SeriesEvent::Begin), (SeriesPhase::Listing, SeriesCommand::List(81189)));
    let listed = SeriesEvent::Listed(vec![
        ListedSeries { id: Some(1), tvdb_id: Some(5) },
        ListedSeries { id: None, tvdb_id: Some(81189) },
    ]);
    assert_eq!(series_step(None, 81189, SeriesPhase::Listing, &listed), (SeriesPhase::Saving, SeriesCommand::UpdateListed(1, 0)));
    let other = SeriesEvent::Listed(vec![ListedSeries { id: Some(1), tvdb_id: Some(5) }]);
    assert_eq!(series_step(None, 81189, SeriesPhase::Listing, &other), (SeriesPhase::LookingUp, SeriesCommand::Lookup));
}

#[test]
fn series_with_recorded_id_is_fetched_then_looked_up_on_failure() {
    assert_eq!(series_step(Some(9), 1, SeriesPhase::Start, &SeriesEvent::Begin), (SeriesPhase::Fetching, SeriesCommand::Fetch(9)));
    assert_eq!(series_step(Some(9), 1, SeriesPhase::Fetching, &SeriesEvent::Fetched(Some(9))), (SeriesPhase::Saving, SeriesCommand::UpdateFetched(9)));
    assert_eq!(series_step(Some(9), 1, SeriesPhase::Fetching, &SeriesEvent::Failed), (SeriesPhase::LookingUp, SeriesCommand::Lookup));
    assert_eq!(series_step(Some(9), 1, SeriesPhase::LookingUp, &SeriesEvent::LookedUp(0)), (SeriesPhase::Failed, SeriesCommand::NotFound));
    assert_eq!(series_step(Some(9), 1, SeriesPhase::LookingUp, &SeriesEvent::LookedUp(2)), (SeriesPhase::Saving, SeriesCommand::AddFirst));
    assert_eq!(series_step(Some(9), 1, SeriesPhase::Saving, &SeriesEvent::Saved(Some(12))), (SeriesPhase::Synced, SeriesCommand::Finish(Some(12))));
    assert_eq!(series_step(Some(9), 1, SeriesPhase::Saving, &SeriesEvent::Failed), (SeriesPhase::Failed, SeriesCommand::Abort));
}

#[test]
fn series_settings_and_lookup() {
    let spec = series_spec();
    let c = series_changes(&spec);
    assert!(c.monitored && !c.season_folder);
    assert_eq!(c.quality_profile_id, Some(4));
    assert_eq!(c.series_type, ApiSeriesTypes::Anime);
    assert_eq!(c.root_folder_path, "/tv");
    let o = add_series_options(&spec.add_options);
    assert_eq!(o.monitor, ApiMonitor::NoEpisodes);
    assert!(o.search_for_missing_episodes && !o.search_for_cutoff_unmet_episodes);
    assert_eq!(lookup_term(81189), "tvdb:81189");
    assert_eq!(lookup_term(-7), "tvdb:-7");
    assert!(matches!(series_not_found(81189), Error::Other(m) if m == "Series with TVDB ID 81189 not found"));
}

#[test]
fn series_status_reports_statistics() {
    let synced = synced_status(None, Some(12), Some(1), "Series synchronized with Sonarr", Time { nanos: 5 });
    let st = series_status(synced, Some(10), Some(7), Some("2024-01-01".to_string()), None, Some(Some("HBO".to_string())), Some("Continuing".to_string()));
    assert_eq!(st.id, Some(12));
    assert_eq!(st.episode_count, Some(10));
    assert_eq!(st.episode_file_count, Some(7));
    assert_eq!(st.network.as_deref(), Some("HBO"));
    assert_eq!(st.series_status.as_deref(), Some("Continuing"));
}

#[test]
fn cleanup_deletes_the_recorded_object_once_the_instance_is_found() {
    assert_eq!(cleanup_step(Some(5), CleanupPhase::Start, CleanupEvent::Begin), (CleanupPhase::Resolving, CleanupCommand::Resolve));
    assert_eq!(cleanup_step(Some(5), CleanupPhase::Resolving, CleanupEvent::Resolved), (CleanupPhase::Deleting, CleanupCommand::Delete(5)));
    assert_eq!(cleanup_step(Some(5), CleanupPhase::Deleting, CleanupEvent::Deleted), (CleanupPhase::Done, CleanupCommand::Finish));
    assert_eq!(cleanup_step(Some(5), CleanupPhase::Resolving, CleanupEvent::Unreachable), (CleanupPhase::Done, CleanupCommand::Finish));
    assert_eq!(cleanup_step(None, CleanupPhase::Start, CleanupEvent::Begin), (CleanupPhase::Done, CleanupCommand::Finish));
}
