//! The download client controller: the download client it sends to Sonarr.

use vstd::prelude::*;
use crate::api::models::DownloadClientResource;
use crate::controllers::utils::clone_ids;
use crate::crds::download_client::{DownloadClientType, SonarrDownloadClientSpec};
use crate::text::string_of;

verus! {

/// Sonarr's implementation name for a download client type.
pub open spec fn implementation_text(t: DownloadClientType) -> Seq<char> {
    match t {
        DownloadClientType::Aria2 => "Aria2"@,
        DownloadClientType::Deluge => "Deluge"@,
        DownloadClientType::Flood => "Flood"@,
        DownloadClientType::Hadouken => "Hadouken"@,
        DownloadClientType::NzbGet => "Nzbget"@,
        DownloadClientType::NzbVortex => "NzbVortex"@,
        DownloadClientType::Pneumatic => "Pneumatic"@,
        DownloadClientType::QBittorrent => "QBittorrent"@,
        DownloadClientType::RTorrent => "RTorrent"@,
        DownloadClientType::SABnzbd => "Sabnzbd"@,
        DownloadClientType::TorrentBlackhole => "TorrentBlackhole"@,
        DownloadClientType::TorrentDownloadStation => "TorrentDownloadStation"@,
        DownloadClientType::Transmission => "Transmission"@,
        DownloadClientType::UsenetBlackhole => "UsenetBlackhole"@,
        DownloadClientType::UsenetDownloadStation => "UsenetDownloadStation"@,
        DownloadClientType::UTorrent => "UTorrent"@,
        DownloadClientType::Vuze => "Vuze"@,
    }
}

/// A number that tells the names of `implementation_text` apart: the length and the
/// characters at a few positions.
spec fn implementation_text_key(n: Seq<char>) -> int {
    (n.len()) * 65536 + if n.len() > 0 { n[0] as int } else { 0 }
}

proof fn lemma_implementation_text_key(t: DownloadClientType)
    ensures
        implementation_text_key(implementation_text(t)) == match t {
            DownloadClientType::Aria2 => 327745int,
            DownloadClientType::Deluge => 393284int,
            DownloadClientType::Flood => 327750int,
            DownloadClientType::Hadouken => 524360int,
            DownloadClientType::NzbGet => 393294int,
            DownloadClientType::NzbVortex => 589902int,
            DownloadClientType::Pneumatic => 589904int,
            DownloadClientType::QBittorrent => 720977int,
            DownloadClientType::RTorrent => 524370int,
            DownloadClientType::SABnzbd => 458835int,
            DownloadClientType::TorrentBlackhole => 1048660int,
            DownloadClientType::TorrentDownloadStation => 1441876int,
            DownloadClientType::Transmission => 786516int,
            DownloadClientType::UsenetBlackhole => 983125int,
            DownloadClientType::UsenetDownloadStation => 1376341int,
            DownloadClientType::UTorrent => 524373int,
            DownloadClientType::Vuze => 262230int,
        },
{
    match t {
            DownloadClientType::Aria2 => { reveal_strlit("Aria2"); },
            DownloadClientType::Deluge => { reveal_strlit("Deluge"); },
            DownloadClientType::Flood => { reveal_strlit("Flood"); },
            DownloadClientType::Hadouken => { reveal_strlit("Hadouken"); },
            DownloadClientType::NzbGet => { reveal_strlit("Nzbget"); },
            DownloadClientType::NzbVortex => { reveal_strlit("NzbVortex"); },
            DownloadClientType::Pneumatic => { reveal_strlit("Pneumatic"); },
            DownloadClientType::QBittorrent => { reveal_strlit("QBittorrent"); },
            DownloadClientType::RTorrent => { reveal_strlit("RTorrent"); },
            DownloadClientType::SABnzbd => { reveal_strlit("Sabnzbd"); },
            DownloadClientType::TorrentBlackhole => { reveal_strlit("TorrentBlackhole"); },
            DownloadClientType::TorrentDownloadStation => { reveal_strlit("TorrentDownloadStation"); },
            DownloadClientType::Transmission => { reveal_strlit("Transmission"); },
            DownloadClientType::UsenetBlackhole => { reveal_strlit("UsenetBlackhole"); },
            DownloadClientType::UsenetDownloadStation => { reveal_strlit("UsenetDownloadStation"); },
            DownloadClientType::UTorrent => { reveal_strlit("UTorrent"); },
            DownloadClientType::Vuze => { reveal_strlit("Vuze"); },
    }
}

/// Sonarr's implementation names: each kind maps to this name.
pub proof fn lemma_implementation_names(t: DownloadClientType)
    ensures
        match t {
            DownloadClientType::Aria2 => implementation_text(t) == "Aria2"@,
            DownloadClientType::Deluge => implementation_text(t) == "Deluge"@,
            DownloadClientType::Flood => implementation_text(t) == "Flood"@,
            DownloadClientType::Hadouken => implementation_text(t) == "Hadouken"@,
            DownloadClientType::NzbGet => implementation_text(t) == "Nzbget"@,
            DownloadClientType::NzbVortex => implementation_text(t) == "NzbVortex"@,
            DownloadClientType::Pneumatic => implementation_text(t) == "Pneumatic"@,
            DownloadClientType::QBittorrent => implementation_text(t) == "QBittorrent"@,
            DownloadClientType::RTorrent => implementation_text(t) == "RTorrent"@,
            DownloadClientType::SABnzbd => implementation_text(t) == "Sabnzbd"@,
            DownloadClientType::TorrentBlackhole => implementation_text(t) == "TorrentBlackhole"@,
            DownloadClientType::TorrentDownloadStation => implementation_text(t) == "TorrentDownloadStation"@,
            DownloadClientType::Transmission => implementation_text(t) == "Transmission"@,
            DownloadClientType::UsenetBlackhole => implementation_text(t) == "UsenetBlackhole"@,
            DownloadClientType::UsenetDownloadStation => implementation_text(t) == "UsenetDownloadStation"@,
            DownloadClientType::UTorrent => implementation_text(t) == "UTorrent"@,
            DownloadClientType::Vuze => implementation_text(t) == "Vuze"@,
        },
{
}

/// Distinct kinds get distinct names, so the name Sonarr receives tells
/// which kind the spec asked for.
pub proof fn lemma_implementation_names_distinct(a: DownloadClientType, b: DownloadClientType)
    requires
        implementation_text(a) == implementation_text(b),
    ensures
        a == b,
{
    lemma_implementation_text_key(a);
    lemma_implementation_text_key(b);
}

/// Sonarr's implementation name for a download client type.
pub fn get_implementation_name(t: &DownloadClientType) -> (s: String)
    ensures
        s@ == implementation_text(*t),
{
    match t {
        DownloadClientType::Aria2 => string_of("Aria2"),
        DownloadClientType::Deluge => string_of("Deluge"),
        DownloadClientType::Flood => string_of("Flood"),
        DownloadClientType::Hadouken => string_of("Hadouken"),
        DownloadClientType::NzbGet => string_of("Nzbget"),
        DownloadClientType::NzbVortex => string_of("NzbVortex"),
        DownloadClientType::Pneumatic => string_of("Pneumatic"),
        DownloadClientType::QBittorrent => string_of("QBittorrent"),
        DownloadClientType::RTorrent => string_of("RTorrent"),
        DownloadClientType::SABnzbd => string_of("Sabnzbd"),
        DownloadClientType::TorrentBlackhole => string_of("TorrentBlackhole"),
        DownloadClientType::TorrentDownloadStation => string_of("TorrentDownloadStation"),
        DownloadClientType::Transmission => string_of("Transmission"),
        DownloadClientType::UsenetBlackhole => string_of("UsenetBlackhole"),
        DownloadClientType::UsenetDownloadStation => string_of("UsenetDownloadStation"),
        DownloadClientType::UTorrent => string_of("UTorrent"),
        DownloadClientType::Vuze => string_of("Vuze"),
    }
}

/// The download client to send: the spec's name, implementation, settings
/// and tags, and the recorded id for an update.
pub fn download_client_payload(spec: &SonarrDownloadClientSpec, id: Option<i32>) -> (p: DownloadClientResource)
    ensures
        p.id == id,
        p.name == spec.name,
        p.implementation@ == implementation_text(spec.download_client_type),
        p.enable == spec.enable,
        p.priority == spec.priority,
        p.remove_completed_downloads == spec.remove_completed_downloads,
        p.remove_failed_downloads == spec.remove_failed_downloads,
        p.tags@ == spec.tags@,
{
    DownloadClientResource {
        id,
        name: spec.name.clone(),
        implementation: get_implementation_name(&spec.download_client_type),
        enable: spec.enable,
        priority: spec.priority,
        remove_completed_downloads: spec.remove_completed_downloads,
        remove_failed_downloads: spec.remove_failed_downloads,
        tags: clone_ids(&spec.tags),
    }
}

} // verus!
