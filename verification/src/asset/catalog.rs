//! Bundles of map files, the list of maps, and the remembered facts of bundles.

use vstd::prelude::*;
use crate::asset::files::{
    internal_map_id_from_main_glb_name, is_valid_storage_key, main_glb_id,
};
use crate::mode::BackendMode;
use crate::sorting::{ranked, ranked_is_sorted_permutation, sort_ranked, Ranked};
use crate::status::{Code, Status};
use crate::text;
use crate::text_map::TextMap;

verus! {

/// How long the facts of a bundle are remembered.
pub const MAP_BUNDLE_META_CACHE_TTL_MS: u64 = 120_000;

/// The file is the main model of a map with a proper id.
pub open spec fn is_main_model(file_name: Seq<char>) -> bool {
    main_glb_id(file_name) matches Some(id) && text::all_word(id)
}

/// Two of the files are main models.
pub open spec fn has_two_models(file_names: Seq<Seq<char>>) -> bool {
    exists|i: int, j: int|
        0 <= i < j < file_names.len() && #[trigger] is_main_model(file_names[i])
            && #[trigger] is_main_model(file_names[j])
}

pub open spec fn has_model(file_names: Seq<Seq<char>>) -> bool {
    exists|i: int| 0 <= i < file_names.len() && #[trigger] is_main_model(file_names[i])
}

/// The internal id of the map in a bundle: that of its main model, of which there
/// must be exactly one.
pub fn find_bundle_map_id(file_names: &Vec<String>) -> (r: Result<String, Status>)
    ensures
        ({
            let names = text::text_views(file_names@);
            if has_two_models(names) {
                r matches Err(e) && e@ == (
                    Code::FailedPrecondition,
                    "map bundle contains multiple main glb files"@,
                )
            } else if !has_model(names) {
                r matches Err(e) && e@ == (
                    Code::FailedPrecondition,
                    "map bundle does not contain main glb"@,
                )
            } else {
                r matches Ok(id) && exists|i: int|
                    0 <= i < names.len() && #[trigger] is_main_model(names[i]) && Some(id@)
                        == main_glb_id(names[i])
            }
        }),
{
    let ghost names = text::text_views(file_names@);
    let mut found: Option<String> = None;
    let ghost mut place: int = 0;
    let mut n: usize = 0;
    while n < file_names.len()
        invariant
            n <= file_names@.len(),
            names == text::text_views(file_names@),
            match found {
                None => forall|i: int| 0 <= i < n ==> !#[trigger] is_main_model(names[i]),
                Some(id) => 0 <= place < n && is_main_model(names[place]) && Some(id@)
                    == main_glb_id(names[place]) && forall|i: int|
                    0 <= i < n && i != place ==> !#[trigger] is_main_model(names[i]),
            },
        decreases file_names@.len() - n,
    {
        proof {
            assert(names[n as int] == file_names@[n as int]@);
        }
        match internal_map_id_from_main_glb_name(file_names[n].as_str()) {
            Some(candidate) => {
                if text::is_all_word(candidate.as_str()) {
                    proof {
                        assert(is_main_model(names[n as int]));
                    }
                    if found.is_some() {
                        proof {
                            assert(is_main_model(names[place]) && is_main_model(names[n as int]));
                        }
                        return Err(
                            Status::failed_precondition(
                                "map bundle contains multiple main glb files",
                            ),
                        );
                    }
                    found = Some(candidate);
                    proof {
                        place = n as int;
                    }
                }
            },
            None => {},
        }
        n += 1;
    }
    match found {
        Some(id) => Ok(id),
        None => Err(Status::failed_precondition("map bundle does not contain main glb")),
    }
}

/// Which of the files that a bundle must have are there.
#[derive(Clone, Copy, PartialEq, Eq, Debug, Structural)]
pub struct BundleFiles {
    pub main_glb: bool,
    pub minimap_svg: bool,
    pub minimap_metadata: bool,
    pub map_metadata: bool,
}

impl BundleFiles {
    pub open spec fn complete(self) -> bool {
        self.main_glb && self.minimap_svg && self.minimap_metadata && self.map_metadata
    }

    pub fn is_complete(self) -> (r: bool)
        ensures
            r == self.complete(),
    {
        self.main_glb && self.minimap_svg && self.minimap_metadata && self.map_metadata
    }
}

pub fn check_bundle_complete(files: BundleFiles) -> (r: Result<(), Status>)
    ensures
        files.complete() ==> r == Ok::<(), Status>(()),
        !files.complete() ==> (r matches Err(e) && e@ == (
            Code::FailedPrecondition,
            "map bundle is incomplete"@,
        )),
{
    if files.is_complete() {
        Ok(())
    } else {
        Err(Status::failed_precondition("map bundle is incomplete"))
    }
}

/// Why a file could not be read.
#[derive(Clone, Copy, PartialEq, Eq, Debug, Structural)]
pub enum FileFailure {
    NotFound,
    Other,
}

/// The status for a file that could not be read: one message for a file that is
/// missing, another for everything else.
pub fn file_status(failure: FileFailure, missing: &str, broken: &str) -> (r: Status)
    ensures
        r@ == match failure {
            FileFailure::NotFound => (Code::NotFound, missing@),
            FileFailure::Other => (Code::Internal, broken@),
        },
{
    match failure {
        FileFailure::NotFound => Status::not_found(missing),
        FileFailure::Other => Status::internal(broken),
    }
}

/// A map must have a name.
pub fn check_map_name(name: &str) -> (r: Result<(), Status>)
    ensures
        text::trimmed(name@).len() > 0 ==> r == Ok::<(), Status>(()),
        text::trimmed(name@).len() == 0 ==> (r matches Err(e) && e@ == (
            Code::FailedPrecondition,
            "map metadata map_name must be non-empty"@,
        )),
{
    let trimmed: String = text::trim(name);
    if trimmed.as_str().is_empty() {
        return Err(Status::failed_precondition("map metadata map_name must be non-empty"));
    }
    Ok(())
}

/// A map in the list.
#[derive(Debug, PartialEq, Eq)]
pub struct MapCatalogEntry {
    pub map_id: String,
    pub display_name: String,
}

impl Ranked for MapCatalogEntry {
    open spec fn ranks_before(&self, other: &Self) -> bool {
        text::text_before(self.map_id@, other.map_id@)
    }

    fn is_before(&self, other: &Self) -> (r: bool) {
        text::is_text_before(self.map_id.as_str(), other.map_id.as_str())
    }

    proof fn rank_is_asymmetric(a: &Self, b: &Self) {
        text::text_order_is_total(a.map_id@, b.map_id@);
    }

    proof fn rank_is_transitive(a: &Self, b: &Self, c: &Self) {
        text::text_order_is_total(a.map_id@, b.map_id@);
        text::text_order_is_total(b.map_id@, c.map_id@);
        text::text_order_is_total(a.map_id@, c.map_id@);
        if text::text_before(c.map_id@, a.map_id@) {
            if text::text_before(a.map_id@, b.map_id@) {
                text::text_order_is_transitive(c.map_id@, a.map_id@, b.map_id@);
            }
        }
    }
}

/// Puts the list of maps into the order of their ids.
pub fn finish_catalog(maps: Vec<MapCatalogEntry>) -> (r: Vec<MapCatalogEntry>)
    ensures
        r@ == ranked(maps@),
        r@.len() == maps@.len(),
        r@.to_multiset() == maps@.to_multiset(),
        forall|i: int, j: int|
            #![trigger r@[i], r@[j]]
            0 <= i < j < r@.len() ==> !text::text_before(r@[j].map_id@, r@[i].map_id@),
{
    proof {
        maps_stand_by_id(maps@);
    }
    sort_ranked(maps)
}

/// Listed, no map stands behind one whose id comes after its own, and no map is added or
/// left out.
pub proof fn maps_stand_by_id(maps: Seq<MapCatalogEntry>)
    ensures
        ranked(maps).len() == maps.len(),
        ranked(maps).to_multiset() == maps.to_multiset(),
        forall|i: int, j: int|
            #![trigger ranked(maps)[i], ranked(maps)[j]]
            0 <= i < j < maps.len() ==> !text::text_before(
                ranked(maps)[j].map_id@,
                ranked(maps)[i].map_id@,
            ),
{
    ranked_is_sorted_permutation(maps);
    let r = ranked(maps);
    assert forall|i: int, j: int|
        #![trigger r[i], r[j]]
        0 <= i < j < maps.len() implies !text::text_before(r[j].map_id@, r[i].map_id@) by {
        assert(!r[j].ranks_before(&r[i]));
    }
}

/// The key of a bundle's directory, where its name can be one.
pub fn storage_key_of(directory_name: &str) -> (r: Option<String>)
    ensures
        match r {
            Some(key) => text::all_alphanumeric(text::trimmed(directory_name@)) && key@
                == text::trimmed(directory_name@),
            None => !text::all_alphanumeric(text::trimmed(directory_name@)),
        },
{
    let key: String = text::trim(directory_name);
    if is_valid_storage_key(key.as_str()) {
        Some(key)
    } else {
        None
    }
}

/// A bundle with the failure is left out of the list: it is not there or not in
/// order. Any other failure ends the listing.
pub open spec fn is_skipped(code: Code) -> bool {
    code == Code::NotFound || code == Code::FailedPrecondition
}

pub fn keep_or_skip<T>(found: Result<T, Status>) -> (r: Result<Option<T>, Status>)
    ensures
        match found {
            Ok(value) => r == Ok::<Option<T>, Status>(Some(value)),
            Err(status) => if is_skipped(status.code) {
                r == Ok::<Option<T>, Status>(None)
            } else {
                r == Err::<Option<T>, Status>(status)
            },
        },
{
    match found {
        Ok(value) => Ok(Some(value)),
        Err(status) => {
            match status.code {
                Code::NotFound => Ok(None),
                Code::FailedPrecondition => Ok(None),
                _ => Err(status),
            }
        },
    }
}

/// Whether a bundle is listed, seen its marker: some lists hold marked bundles only.
pub fn is_listed(only_local_marked: bool, is_marked: bool) -> (r: bool)
    ensures
        r == (!only_local_marked || is_marked),
{
    !only_local_marked || is_marked
}

/// A map of the local cache by the name of its main model; a map without all its
/// files is not listed.
pub fn cached_map_entry(file_name: &str, files: BundleFiles) -> (r: Option<MapCatalogEntry>)
    ensures
        match r {
            Some(entry) => is_main_model(file_name@) && files.complete() && Some(entry.map_id@)
                == main_glb_id(file_name@) && entry.display_name@ == entry.map_id@,
            None => !(is_main_model(file_name@) && files.complete()),
        },
{
    match internal_map_id_from_main_glb_name(file_name) {
        Some(map_id) => {
            if text::is_all_word(map_id.as_str()) && files.is_complete() {
                Some(MapCatalogEntry { map_id: map_id.clone(), display_name: map_id })
            } else {
                None
            }
        },
        None => None,
    }
}

/// Where the list of maps comes from.
#[derive(Clone, Copy, PartialEq, Eq, Debug, Structural)]
pub enum MapListSource {
    /// From the backend that this one is synchronized with, or from the cache.
    Synchronized,
    /// There are no maps.
    Empty,
    /// From the bundles; those with the marker only, or all.
    Bundles { only_local_marked: bool },
    /// From the files of the cache.
    Cache,
}

pub fn map_list_source(mode: BackendMode, is_synchronized: bool, serving_enabled: bool) -> (r:
    MapListSource)
    ensures
        r == if mode == BackendMode::Local && is_synchronized {
            MapListSource::Synchronized
        } else if !serving_enabled {
            MapListSource::Empty
        } else {
            match mode {
                BackendMode::Official => MapListSource::Bundles { only_local_marked: true },
                BackendMode::Standalone => MapListSource::Bundles { only_local_marked: false },
                BackendMode::Local => MapListSource::Cache,
            }
        },
{
    let is_local = match mode {
        BackendMode::Local => true,
        _ => false,
    };
    if is_local && is_synchronized {
        return MapListSource::Synchronized;
    }
    if !serving_enabled {
        return MapListSource::Empty;
    }
    match mode {
        BackendMode::Official => MapListSource::Bundles { only_local_marked: true },
        BackendMode::Standalone => MapListSource::Bundles { only_local_marked: false },
        BackendMode::Local => MapListSource::Cache,
    }
}

/// Whether a map must be fetched before it is served: a synchronized local backend
/// fetches what its cache does not hold whole.
pub fn must_fetch_map(mode: BackendMode, is_synchronized: bool, files: BundleFiles) -> (r: bool)
    ensures
        r == (mode == BackendMode::Local && is_synchronized && !files.complete()),
{
    match mode {
        BackendMode::Local => is_synchronized && !files.is_complete(),
        _ => false,
    }
}

/// Whether the files of all maps lie in one directory, under the maps' own ids: so they
/// do in the cache of a local backend. Elsewhere each map has a directory.
pub fn is_flat_layout(mode: BackendMode) -> (r: bool)
    ensures
        r == (mode == BackendMode::Local),
{
    match mode {
        BackendMode::Local => true,
        _ => false,
    }
}

/// Only the official backend lists the maps that are not marked.
pub fn check_list_all(mode: BackendMode) -> (r: Result<(), Status>)
    ensures
        mode == BackendMode::Official ==> r == Ok::<(), Status>(()),
        mode != BackendMode::Official ==> (r matches Err(e) && e@ == (
            Code::Unimplemented,
            "ListAllMaps is supported only in official backend mode"@,
        )),
{
    match mode {
        BackendMode::Official => Ok(()),
        _ => Err(
            Status::new(
                Code::Unimplemented,
                "ListAllMaps is supported only in official backend mode",
            ),
        ),
    }
}

/// A call that a synchronized local backend does not answer.
pub fn refuse_on_local(mode: BackendMode, is_synchronized: bool, call: &str) -> (r: Result<
    (),
    Status,
>)
    ensures
        mode == BackendMode::Local && is_synchronized ==> (r matches Err(e) && e@ == (
            Code::Unimplemented,
            call@ + " is not supported on local backend"@,
        )),
        !(mode == BackendMode::Local && is_synchronized) ==> r == Ok::<(), Status>(()),
{
    match mode {
        BackendMode::Local => {
            if is_synchronized {
                return Err(
                    Status::with_message(
                        Code::Unimplemented,
                        text::join2(call, " is not supported on local backend"),
                    ),
                );
            }
            Ok(())
        },
        _ => Ok(()),
    }
}

/// Nothing is found in a service that does not serve.
pub fn require_serving(serving_enabled: bool, missing: &str) -> (r: Result<(), Status>)
    ensures
        serving_enabled ==> r == Ok::<(), Status>(()),
        !serving_enabled ==> (r matches Err(e) && e@ == (Code::NotFound, missing@)),
{
    if serving_enabled {
        Ok(())
    } else {
        Err(Status::not_found(missing))
    }
}

/// Only an admin may; `is_admin` is what the validator says, where there is one.
pub fn require_asset_admin(is_admin: Option<bool>) -> (r: Result<(), Status>)
    ensures
        match is_admin {
            None => r matches Err(e) && e@ == (
                Code::Internal,
                "asset admin validator is not configured"@,
            ),
            Some(false) => r matches Err(e) && e@ == (
                Code::PermissionDenied,
                "admin role required"@,
            ),
            Some(true) => r == Ok::<(), Status>(()),
        },
{
    match is_admin {
        None => Err(Status::internal("asset admin validator is not configured")),
        Some(false) => Err(Status::permission_denied("admin role required")),
        Some(true) => Ok(()),
    }
}

/// The facts of a bundle and when they were found.
#[derive(Debug)]
pub struct CachedMapBundleMeta<B> {
    pub bundle: B,
    pub cached_at_ms: u64,
}

/// The facts of bundles that were asked for lately. Times are those of a clock that
/// does not go back.
#[derive(Debug)]
pub struct MapBundleMetaCache<B> {
    pub entries: TextMap<CachedMapBundleMeta<B>>,
}

impl<B> MapBundleMetaCache<B> {
    pub open spec fn is_fresh(self, map_id: Seq<char>, now_ms: u64) -> bool {
        self.entries@.contains_key(map_id) && now_ms < self.entries@[map_id].cached_at_ms
            + MAP_BUNDLE_META_CACHE_TTL_MS
    }

    pub fn new() -> (r: Self)
        ensures
            r.entries@ == Map::<Seq<char>, CachedMapBundleMeta<B>>::empty(),
    {
        MapBundleMetaCache { entries: TextMap::new() }
    }

    /// Forgets the facts of the bundle where they are too old; says whether there are
    /// any that are not.
    pub fn drop_stale(&mut self, map_id: &str, now_ms: u64) -> (fresh: bool)
        ensures
            fresh == old(self).is_fresh(map_id@, now_ms),
            final(self).entries@ == if fresh {
                old(self).entries@
            } else {
                old(self).entries@.remove(map_id@)
            },
    {
        let fresh = match self.entries.get(map_id) {
            Some(entry) => now_ms < entry.cached_at_ms || now_ms - entry.cached_at_ms
                < MAP_BUNDLE_META_CACHE_TTL_MS,
            None => false,
        };
        if !fresh {
            self.entries.remove(map_id);
        }
        fresh
    }

    /// The facts of the bundle, where they are remembered and not too old.
    pub fn try_get_cached_bundle_meta(&mut self, map_id: &str, now_ms: u64) -> (r: Option<&B>)
        ensures
            match r {
                Some(bundle) => old(self).is_fresh(map_id@, now_ms) && *bundle == old(
                    self,
                ).entries@[map_id@].bundle,
                None => !old(self).is_fresh(map_id@, now_ms),
            },
            final(self).entries@ == if old(self).is_fresh(map_id@, now_ms) {
                old(self).entries@
            } else {
                old(self).entries@.remove(map_id@)
            },
    {
        let fresh = self.drop_stale(map_id, now_ms);
        if !fresh {
            return None;
        }
        match self.entries.get(map_id) {
            Some(entry) => Some(&entry.bundle),
            None => None,
        }
    }

    pub fn store_cached_bundle_meta(&mut self, map_id: String, bundle: B, now_ms: u64)
        ensures
            final(self).entries@ == old(self).entries@.insert(
                map_id@,
                CachedMapBundleMeta { bundle, cached_at_ms: now_ms },
            ),
    {
        self.entries.insert(map_id, CachedMapBundleMeta { bundle, cached_at_ms: now_ms });
    }
}

/// What was stored is read back as long as it is not too old, and not after.
pub proof fn stored_bundle_is_read_back<B>(
    before: MapBundleMetaCache<B>,
    after: MapBundleMetaCache<B>,
    map_id: Seq<char>,
    bundle: B,
    stored_ms: u64,
    now_ms: u64,
)
    requires
        after.entries@ == before.entries@.insert(
            map_id,
            CachedMapBundleMeta { bundle, cached_at_ms: stored_ms },
        ),
    ensures
        after.is_fresh(map_id, now_ms) <==> now_ms < stored_ms + MAP_BUNDLE_META_CACHE_TTL_MS,
        after.is_fresh(map_id, now_ms) ==> after.entries@[map_id].bundle == bundle,
{
}

/// A file is a main model exactly where it is named after a map whose id is a word.
pub proof fn main_models_are_named_after_a_map(file_name: Seq<char>)
    ensures
        is_main_model(file_name) <==> (main_glb_id(file_name) matches Some(id) && text::all_word(
            id,
        )),
{
}

/// A bundle has a model where one of its files is one, and two where two are.
pub proof fn models_are_counted(file_names: Seq<Seq<char>>, i: int, j: int)
    requires
        0 <= i < j < file_names.len(),
    ensures
        is_main_model(file_names[i]) ==> has_model(file_names),
        is_main_model(file_names[i]) && is_main_model(file_names[j]) ==> has_two_models(file_names),
        has_two_models(file_names) ==> has_model(file_names),
{
}

/// A bundle is complete exactly where all four files are there.
pub proof fn complete_bundle_has_all_files(files: BundleFiles)
    ensures
        files.complete() <==> files.main_glb && files.minimap_svg && files.minimap_metadata
            && files.map_metadata,
{
}

/// Only a bundle that is not there or not in order is left out of a list.
pub proof fn only_missing_or_broken_bundles_are_skipped(code: Code)
    ensures
        is_skipped(code) <==> code is NotFound || code is FailedPrecondition,
{
}

/// Facts of a bundle are remembered for two minutes.
pub proof fn facts_are_fresh_for_two_minutes<B>(
    cache: MapBundleMetaCache<B>,
    map_id: Seq<char>,
    now_ms: u64,
)
    ensures
        cache.is_fresh(map_id, now_ms) <==> cache.entries@.contains_key(map_id) && now_ms
            - cache.entries@[map_id].cached_at_ms < 120_000,
{
}

} // verus!
