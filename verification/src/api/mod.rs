//! Connection settings for Sonarr instances, cached per instance, and the
//! library's model of the Sonarr API.

use vstd::prelude::*;
use crate::string_map::StringMap;
use crate::text::{string_of, trim_end_char, trim_end_matches_char};

pub mod models;

verus! {

/// How to reach a Sonarr instance: its base URL (no trailing '/') and its
/// API key.
pub struct ClientConfig {
    pub base_path: String,
    pub api_key: String,
}

/// The settings built for a URL and an API key.
pub open spec fn config_for(url: Seq<char>, api_key: Seq<char>) -> (Seq<char>, Seq<char>) {
    (trim_end_char(url, '/'), api_key)
}

/// The cache after a request for `key` with `url` and `api_key`, and the
/// settings the request answers: cached settings are reused, else new ones
/// are built and cached.
pub open spec fn cache_after_get(
    cache: Map<Seq<char>, (Seq<char>, Seq<char>)>,
    key: Seq<char>,
    url: Seq<char>,
    api_key: Seq<char>,
) -> (Map<Seq<char>, (Seq<char>, Seq<char>)>, (Seq<char>, Seq<char>)) {
    if cache.dom().contains(key) {
        (cache, cache[key])
    } else {
        (cache.insert(key, config_for(url, api_key)), config_for(url, api_key))
    }
}

/// Builds the connection settings of Sonarr instances and caches them by
/// instance key (namespace/name).
pub struct SonarrClientFactory {
    base_paths: StringMap,
    api_keys: StringMap,
}

impl View for SonarrClientFactory {
    type V = Map<Seq<char>, (Seq<char>, Seq<char>)>;

    closed spec fn view(&self) -> Map<Seq<char>, (Seq<char>, Seq<char>)> {
        Map::new(
            |k: Seq<char>| self.base_paths@.dom().contains(k),
            |k: Seq<char>| (self.base_paths@[k], self.api_keys@[k]),
        )
    }
}

impl SonarrClientFactory {
    #[verifier::type_invariant]
    spec fn inv(self) -> bool {
        self.base_paths@.dom() == self.api_keys@.dom()
    }

    /// An empty cache.
    pub fn new() -> (f: SonarrClientFactory)
        ensures
            f@ == Map::<Seq<char>, (Seq<char>, Seq<char>)>::empty(),
    {
        let f = SonarrClientFactory { base_paths: StringMap::new(), api_keys: StringMap::new() };
        assert(f@ =~= Map::<Seq<char>, (Seq<char>, Seq<char>)>::empty());
        f
    }

    /// The settings for an instance: the cached ones when there are any,
    /// else new ones built from `url` (trailing '/' removed) and `api_key`,
    /// which are then cached.
    pub fn get_config(&mut self, url: &str, api_key: &str, instance_key: &str) -> (c: ClientConfig)
        ensures
            (final(self)@, (c.base_path@, c.api_key@)) == cache_after_get(old(self)@, instance_key@, url@, api_key@),
    {
        proof {
            use_type_invariant(&*self);
        }
        let key = string_of(instance_key);
        match self.base_paths.get(&key) {
            Some(base) => {
                let base = base.clone();
                let k = self.api_keys.get(&key).unwrap().clone();
                ClientConfig { base_path: base, api_key: k }
            },
            None => {
                let base = trim_end_matches_char(url, '/');
                let k = string_of(api_key);
                let ghost old_view = self@;
                let mut taken = SonarrClientFactory::new();
                std::mem::swap(&mut taken, self);
                proof {
                    use_type_invariant(&taken);
                }
                let SonarrClientFactory { mut base_paths, mut api_keys } = taken;
                base_paths.insert(key.clone(), base.clone());
                api_keys.insert(key, k.clone());
                *self = SonarrClientFactory { base_paths, api_keys };
                assert(self@ =~= old_view.insert(instance_key@, config_for(url@, api_key@)));
                ClientConfig { base_path: base, api_key: k }
            },
        }
    }

    /// Drops the cached settings of an instance (when its credentials change).
    pub fn invalidate(&mut self, instance_key: &str)
        ensures
            final(self)@ == old(self)@.remove(instance_key@),
    {
        proof {
            use_type_invariant(&*self);
        }
        let key = string_of(instance_key);
        let ghost old_view = self@;
        let mut taken = SonarrClientFactory::new();
                std::mem::swap(&mut taken, self);
        proof {
            use_type_invariant(&taken);
        }
        let SonarrClientFactory { mut base_paths, mut api_keys } = taken;
        base_paths.remove(&key);
        api_keys.remove(&key);
        *self = SonarrClientFactory { base_paths, api_keys };
        assert(self@ =~= old_view.remove(instance_key@));
    }
}

impl Default for SonarrClientFactory {
    fn default() -> (f: SonarrClientFactory)
        ensures
            f@ == Map::<Seq<char>, (Seq<char>, Seq<char>)>::empty(),
    {
        SonarrClientFactory::new()
    }
}

/// A request for an instance answers with the settings that the first
/// request for it since it was last dropped built: later URLs and keys are
/// ignored while the settings are cached.
pub proof fn lemma_cached_config_reused(
    cache: Map<Seq<char>, (Seq<char>, Seq<char>)>,
    key: Seq<char>,
    url1: Seq<char>,
    api_key1: Seq<char>,
    url2: Seq<char>,
    api_key2: Seq<char>,
)
    ensures
        ({
            let (c1, r1) = cache_after_get(cache, key, url1, api_key1);
            let (c2, r2) = cache_after_get(c1, key, url2, api_key2);
            c2 == c1 && r2 == r1
        }),
{
}

/// After the settings of an instance are dropped, the next request builds
/// them from the URL and key it passes.
pub proof fn lemma_invalidate_rebuilds(
    cache: Map<Seq<char>, (Seq<char>, Seq<char>)>,
    key: Seq<char>,
    url: Seq<char>,
    api_key: Seq<char>,
)
    ensures
        cache_after_get(cache.remove(key), key, url, api_key).1 == config_for(url, api_key),
{
}

/// Requests for one instance leave the settings of every other instance
/// as they were.
pub proof fn lemma_other_instances_untouched(
    cache: Map<Seq<char>, (Seq<char>, Seq<char>)>,
    key: Seq<char>,
    other: Seq<char>,
    url: Seq<char>,
    api_key: Seq<char>,
)
    requires
        key != other,
    ensures
        cache_after_get(cache, key, url, api_key).0.dom().contains(other) == cache.dom().contains(other),
        cache.dom().contains(other) ==> cache_after_get(cache, key, url, api_key).0[other] == cache[other],
{
}

/// The base path of built settings never ends with '/'.
pub proof fn lemma_base_path_has_no_trailing_slash(url: Seq<char>, api_key: Seq<char>)
    ensures
        config_for(url, api_key).0.len() == 0 || config_for(url, api_key).0.last() != '/',
    decreases url.len(),
{
    if url.len() > 0 && url.last() == '/' {
        lemma_base_path_has_no_trailing_slash(url.drop_last(), api_key);
    }
}

} // verus!
