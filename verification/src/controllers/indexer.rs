//! The indexer controller: the indexer it sends to Sonarr, and where the
//! indexer's API key comes from.

use vstd::prelude::*;
use crate::api::models::IndexerResource;
use crate::controllers::tag::{api_key_from_secret, secret_text};
use crate::controllers::utils::clone_ids;
use crate::crds::indexer::{IndexerType, SonarrIndexerSpec};
use crate::crds::SecretKeySelector;
use crate::error::Error;
use crate::text::string_of;

verus! {

/// Sonarr's implementation name for an indexer type.
pub open spec fn implementation_text(t: IndexerType) -> Seq<char> {
    match t {
        IndexerType::Newznab => "Newznab"@,
        IndexerType::Torznab => "Torznab"@,
        IndexerType::Fanzub => "Fanzub"@,
        IndexerType::BroadcastheNet => "BroadcastheNet"@,
        IndexerType::FileList => "FileList"@,
        IndexerType::HDBits => "HDBits"@,
        IndexerType::IPTorrents => "IPTorrents"@,
        IndexerType::Nyaa => "Nyaa"@,
        IndexerType::TorrentRss => "TorrentRssIndexer"@,
        IndexerType::TorrentLeech => "TorrentLeech"@,
    }
}

/// A number that tells the names of `implementation_text` apart: the length and the
/// characters at a few positions.
spec fn implementation_text_key(n: Seq<char>) -> int {
    (n.len()) * 65536 + if n.len() > 0 { n[0] as int } else { 0 }
}

proof fn lemma_implementation_text_key(t: IndexerType)
    ensures
        implementation_text_key(implementation_text(t)) == match t {
            IndexerType::Newznab => 458830int,
            IndexerType::Torznab => 458836int,
            IndexerType::Fanzub => 393286int,
            IndexerType::BroadcastheNet => 917570int,
            IndexerType::FileList => 524358int,
            IndexerType::HDBits => 393288int,
            IndexerType::IPTorrents => 655433int,
            IndexerType::Nyaa => 262222int,
            IndexerType::TorrentRss => 1114196int,
            IndexerType::TorrentLeech => 786516int,
        },
{
    match t {
            IndexerType::Newznab => { reveal_strlit("Newznab"); },
            IndexerType::Torznab => { reveal_strlit("Torznab"); },
            IndexerType::Fanzub => { reveal_strlit("Fanzub"); },
            IndexerType::BroadcastheNet => { reveal_strlit("BroadcastheNet"); },
            IndexerType::FileList => { reveal_strlit("FileList"); },
            IndexerType::HDBits => { reveal_strlit("HDBits"); },
            IndexerType::IPTorrents => { reveal_strlit("IPTorrents"); },
            IndexerType::Nyaa => { reveal_strlit("Nyaa"); },
            IndexerType::TorrentRss => { reveal_strlit("TorrentRssIndexer"); },
            IndexerType::TorrentLeech => { reveal_strlit("TorrentLeech"); },
    }
}

/// Sonarr's implementation names: each kind maps to this name.
pub proof fn lemma_implementation_names(t: IndexerType)
    ensures
        match t {
            IndexerType::Newznab => implementation_text(t) == "Newznab"@,
            IndexerType::Torznab => implementation_text(t) == "Torznab"@,
            IndexerType::Fanzub => implementation_text(t) == "Fanzub"@,
            IndexerType::BroadcastheNet => implementation_text(t) == "BroadcastheNet"@,
            IndexerType::FileList => implementation_text(t) == "FileList"@,
            IndexerType::HDBits => implementation_text(t) == "HDBits"@,
            IndexerType::IPTorrents => implementation_text(t) == "IPTorrents"@,
            IndexerType::Nyaa => implementation_text(t) == "Nyaa"@,
            IndexerType::TorrentRss => implementation_text(t) == "TorrentRssIndexer"@,
            IndexerType::TorrentLeech => implementation_text(t) == "TorrentLeech"@,
        },
{
}

/// Distinct kinds get distinct names, so the name Sonarr receives tells
/// which kind the spec asked for.
pub proof fn lemma_implementation_names_distinct(a: IndexerType, b: IndexerType)
    requires
        implementation_text(a) == implementation_text(b),
    ensures
        a == b,
{
    lemma_implementation_text_key(a);
    lemma_implementation_text_key(b);
}

/// Sonarr's implementation name for an indexer type.
pub fn get_implementation_name(t: &IndexerType) -> (s: String)
    ensures
        s@ == implementation_text(*t),
{
    match t {
        IndexerType::Newznab => string_of("Newznab"),
        IndexerType::Torznab => string_of("Torznab"),
        IndexerType::Fanzub => string_of("Fanzub"),
        IndexerType::BroadcastheNet => string_of("BroadcastheNet"),
        IndexerType::FileList => string_of("FileList"),
        IndexerType::HDBits => string_of("HDBits"),
        IndexerType::IPTorrents => string_of("IPTorrents"),
        IndexerType::Nyaa => string_of("Nyaa"),
        IndexerType::TorrentRss => string_of("TorrentRssIndexer"),
        IndexerType::TorrentLeech => string_of("TorrentLeech"),
    }
}

/// The indexer to send: the spec's name, implementation, search settings,
/// priority and tags, and the recorded id for an update.
pub fn indexer_payload(spec: &SonarrIndexerSpec, id: Option<i32>) -> (p: IndexerResource)
    ensures
        p.id == id,
        p.name == spec.name,
        p.implementation@ == implementation_text(spec.indexer_type),
        p.enable_rss == spec.enable_rss,
        p.enable_automatic_search == spec.enable_automatic_search,
        p.enable_interactive_search == spec.enable_interactive_search,
        p.priority == spec.priority,
        p.tags@ == spec.tags@,
{
    IndexerResource {
        id,
        name: spec.name.clone(),
        implementation: get_implementation_name(&spec.indexer_type),
        enable_rss: spec.enable_rss,
        enable_automatic_search: spec.enable_automatic_search,
        enable_interactive_search: spec.enable_interactive_search,
        priority: spec.priority,
        tags: clone_ids(&spec.tags),
    }
}

/// Where a secret value comes from.
pub enum SecretSource {
    /// Given directly
    Direct(String),
    /// Stored in a Kubernetes secret under a key
    Secret(SecretKeySelector),
    /// Not given
    Absent,
}

/// Where a value is taken from: the direct value when given, else the
/// referenced secret, else nowhere.
pub fn secret_source(direct: &Option<String>, secret_ref: &Option<SecretKeySelector>) -> (s: SecretSource)
    ensures
        match *direct {
            Some(v) => s == SecretSource::Direct(v),
            None => match *secret_ref {
                Some(r) => s == SecretSource::Secret(r),
                None => s is Absent,
            },
        },
{
    match direct {
        Some(v) => SecretSource::Direct(v.clone()),
        None => match secret_ref {
            Some(r) => SecretSource::Secret(r.clone()),
            None => SecretSource::Absent,
        },
    }
}

/// The value read from a referenced secret. `fetched` is the secret's data
/// when it could be read, and `None` when it could not. A secret that
/// cannot be read, has no data, lacks the key or holds text that is not
/// UTF-8 gives `MissingApiCredentials`.
pub fn resolve_secret_value(fetched: &Option<Option<Vec<(String, Vec<u8>)>>>, key: &String) -> (r: Result<Option<String>, Error>)
    ensures
        match *fetched {
            Some(Some(d)) => match secret_text(d@, key@) {
                Some(t) => r is Ok && r->Ok_0 is Some && r->Ok_0->0@ == t,
                None => r == Err::<Option<String>, Error>(Error::MissingApiCredentials),
            },
            _ => r == Err::<Option<String>, Error>(Error::MissingApiCredentials),
        },
{
    match api_key_from_secret(fetched, key) {
        Ok(s) => Ok(Some(s)),
        Err(e) => Err(e),
    }
}

} // verus!
