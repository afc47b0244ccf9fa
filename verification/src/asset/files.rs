//! The ids of maps and the names of their files.

use vstd::prelude::*;
use crate::mode::BackendMode;
use crate::status::{Code, Status};
use crate::text;

verus! {

pub const LOCAL_MARKER_FILE: &'static str = ".local";

pub const HASHES_SUBDIR: &'static str = ".hashes";

/// What the asset service is set up with.
#[derive(Debug)]
pub struct AssetServiceImpl {
    pub serving_enabled: bool,
    pub tracks_dir: String,
    /// Where hashes are kept beside the files. Bundles in directories of their own
    /// can share file names, so they keep no such directory.
    pub hash_sidecar_dir: Option<String>,
    pub mode: BackendMode,
}

impl AssetServiceImpl {
    fn new_internal(tracks_dir: String, mode: BackendMode, use_hash_sidecar_dir: bool) -> (r: Self)
        ensures
            r.serving_enabled,
            r.tracks_dir == tracks_dir,
            r.mode == mode,
            crate::engine::opt_text(r.hash_sidecar_dir) == if use_hash_sidecar_dir {
                Some(text::joined_path(tracks_dir@, HASHES_SUBDIR@))
            } else {
                None
            },
    {
        let hash_sidecar_dir: Option<String> = if use_hash_sidecar_dir {
            Some(text::join_path(tracks_dir.as_str(), HASHES_SUBDIR))
        } else {
            None
        };
        AssetServiceImpl { serving_enabled: true, tracks_dir, hash_sidecar_dir, mode }
    }

    /// The service of tracks alone, which needs no tokens.
    pub fn new(tracks_dir: String) -> (r: Self)
        ensures
            r.serving_enabled,
            r.tracks_dir == tracks_dir,
            r.mode == BackendMode::Standalone,
            r.hash_sidecar_dir matches Some(dir) && dir@ == text::joined_path(
                tracks_dir@,
                HASHES_SUBDIR@,
            ),
    {
        Self::new_internal(tracks_dir, BackendMode::Standalone, true)
    }

    pub fn for_official(tracks_dir: String) -> (r: Self)
        ensures
            r.serving_enabled,
            r.tracks_dir == tracks_dir,
            r.mode == BackendMode::Official,
            r.hash_sidecar_dir is None,
    {
        Self::new_internal(tracks_dir, BackendMode::Official, false)
    }

    pub fn for_local(tracks_cache_dir: String) -> (r: Self)
        ensures
            r.serving_enabled,
            r.tracks_dir == tracks_cache_dir,
            r.mode == BackendMode::Local,
            r.hash_sidecar_dir matches Some(dir) && dir@ == text::joined_path(
                tracks_cache_dir@,
                HASHES_SUBDIR@,
            ),
    {
        Self::new_internal(tracks_cache_dir, BackendMode::Local, true)
    }

    pub fn for_standalone(tracks_dir: String) -> (r: Self)
        ensures
            r.serving_enabled,
            r.tracks_dir == tracks_dir,
            r.mode == BackendMode::Standalone,
            r.hash_sidecar_dir is None,
    {
        Self::new_internal(tracks_dir, BackendMode::Standalone, false)
    }
}

/// An id that can stand in a file name.
pub fn sanitize_internal_map_id(id: &str) -> (r: Result<(), Status>)
    ensures
        text::all_word(id@) ==> r == Ok::<(), Status>(()),
        !text::all_word(id@) ==> (r matches Err(e) && e@ == (
            Code::InvalidArgument,
            "invalid internal map id"@,
        )),
{
    if text::is_all_word(id) {
        Ok(())
    } else {
        Err(Status::invalid_argument("invalid internal map id"))
    }
}

/// The id of a track.
pub fn sanitize_id(id: &str) -> (r: Result<(), Status>)
    ensures
        text::all_word(id@) ==> r == Ok::<(), Status>(()),
        !text::all_word(id@) ==> (r matches Err(e) && e@ == (
            Code::InvalidArgument,
            "Invalid ID"@,
        )),
{
    if text::is_all_word(id) {
        Ok(())
    } else {
        Err(Status::invalid_argument("Invalid ID"))
    }
}

/// A key under which a bundle is stored.
pub fn is_valid_storage_key(storage_key: &str) -> (r: bool)
    ensures
        r == text::all_alphanumeric(storage_key@),
{
    text::is_all_alphanumeric(storage_key)
}

/// The id of the map that is asked for. A local backend that is not standalone knows
/// maps by their internal ids, the others by the keys of their bundles.
pub fn validate_requested_map_id(mode: BackendMode, raw_map_id: &str) -> (r: Result<String, Status>)
    ensures
        ({
            let id = text::trimmed(raw_map_id@);
            if id.len() == 0 {
                r matches Err(e) && e@ == (Code::InvalidArgument, "map_id is required"@)
            } else if mode == BackendMode::Local {
                if text::all_word(id) {
                    r matches Ok(v) && v@ == id
                } else {
                    r matches Err(e) && e@ == (Code::InvalidArgument, "invalid internal map id"@)
                }
            } else if text::all_alphanumeric(id) {
                r matches Ok(v) && v@ == id
            } else {
                r matches Err(e) && e@ == (
                    Code::InvalidArgument,
                    "map_id(storage_key) must be alphanumeric"@,
                )
            }
        }),
{
    let map_id: String = text::trim(raw_map_id);
    if map_id.as_str().is_empty() {
        return Err(Status::invalid_argument("map_id is required"));
    }
    match mode {
        BackendMode::Local => match sanitize_internal_map_id(map_id.as_str()) {
            Ok(()) => Ok(map_id),
            Err(e) => Err(e),
        },
        _ => {
            if is_valid_storage_key(map_id.as_str()) {
                Ok(map_id)
            } else {
                Err(Status::invalid_argument("map_id(storage_key) must be alphanumeric"))
            }
        },
    }
}

pub fn resolve_main_glb_path(root: &str, internal_map_id: &str) -> (r: String)
    ensures
        r@ == text::joined_path(root@, internal_map_id@ + ".glb"@),
{
    file_path(root, internal_map_id, ".glb")
}

pub fn resolve_animation_glb_path(root: &str, internal_map_id: &str) -> (r: String)
    ensures
        r@ == text::joined_path(root@, internal_map_id@ + ".animation.glb"@),
{
    file_path(root, internal_map_id, ".animation.glb")
}

pub fn resolve_minimap_svg_path(root: &str, internal_map_id: &str) -> (r: String)
    ensures
        r@ == text::joined_path(root@, internal_map_id@ + ".minimap.svg"@),
{
    file_path(root, internal_map_id, ".minimap.svg")
}

pub fn resolve_minimap_metadata_path(root: &str, internal_map_id: &str) -> (r: String)
    ensures
        r@ == text::joined_path(root@, internal_map_id@ + ".minimap.json"@),
{
    file_path(root, internal_map_id, ".minimap.json")
}

pub fn resolve_map_metadata_path(root: &str, internal_map_id: &str) -> (r: String)
    ensures
        r@ == text::joined_path(root@, internal_map_id@ + ".json"@),
{
    file_path(root, internal_map_id, ".json")
}

fn file_path(root: &str, internal_map_id: &str, extension: &str) -> (r: String)
    ensures
        r@ == text::joined_path(root@, internal_map_id@ + extension@),
{
    let name: String = text::join2(internal_map_id, extension);
    text::join_path(root, name.as_str())
}

/// The three-dimensional model that is asked for.
#[derive(Clone, Copy, PartialEq, Eq, Debug, Structural)]
pub enum MapGlbKind {
    Unspecified,
    Main,
    Animation,
}

/// The file that is asked for.
#[derive(Clone, Copy, PartialEq, Eq, Debug, Structural)]
pub enum MapAssetKind {
    Unspecified,
    MainGlb,
    AnimationGlb,
    MinimapSvg,
}

#[derive(Clone, Copy, PartialEq, Eq, Debug, Structural)]
pub enum MimeType {
    GltfBinary,
    ImageSvgXml,
}

/// The path of a model; a number that stands for no kind counts as none.
pub fn resolve_path_for_glb_kind(
    root: &str,
    internal_map_id: &str,
    kind: Option<MapGlbKind>,
) -> (r: Result<String, Status>)
    ensures
        match kind {
            Some(MapGlbKind::Main) => r matches Ok(p) && p@ == text::joined_path(
                root@,
                internal_map_id@ + ".glb"@,
            ),
            Some(MapGlbKind::Animation) => r matches Ok(p) && p@ == text::joined_path(
                root@,
                internal_map_id@ + ".animation.glb"@,
            ),
            _ => r matches Err(e) && e@ == (Code::InvalidArgument, "glb kind is required"@),
        },
{
    match kind {
        Some(MapGlbKind::Main) => Ok(resolve_main_glb_path(root, internal_map_id)),
        Some(MapGlbKind::Animation) => Ok(resolve_animation_glb_path(root, internal_map_id)),
        _ => Err(Status::invalid_argument("glb kind is required")),
    }
}

/// The path of a file; a number that stands for no kind counts as none.
pub fn resolve_path_for_kind(
    root: &str,
    internal_map_id: &str,
    kind: Option<MapAssetKind>,
) -> (r: Result<String, Status>)
    ensures
        match kind {
            Some(MapAssetKind::MainGlb) => r matches Ok(p) && p@ == text::joined_path(
                root@,
                internal_map_id@ + ".glb"@,
            ),
            Some(MapAssetKind::AnimationGlb) => r matches Ok(p) && p@ == text::joined_path(
                root@,
                internal_map_id@ + ".animation.glb"@,
            ),
            Some(MapAssetKind::MinimapSvg) => r matches Ok(p) && p@ == text::joined_path(
                root@,
                internal_map_id@ + ".minimap.svg"@,
            ),
            _ => r matches Err(e) && e@ == (Code::InvalidArgument, "map asset kind is required"@),
        },
{
    match kind {
        Some(MapAssetKind::MainGlb) => Ok(resolve_main_glb_path(root, internal_map_id)),
        Some(MapAssetKind::AnimationGlb) => Ok(resolve_animation_glb_path(root, internal_map_id)),
        Some(MapAssetKind::MinimapSvg) => Ok(resolve_minimap_svg_path(root, internal_map_id)),
        _ => Err(Status::invalid_argument("map asset kind is required")),
    }
}

pub fn content_type_for_kind(kind: MapAssetKind) -> (r: Result<MimeType, Status>)
    ensures
        match kind {
            MapAssetKind::MainGlb => r == Ok::<MimeType, Status>(MimeType::GltfBinary),
            MapAssetKind::AnimationGlb => r == Ok::<MimeType, Status>(MimeType::GltfBinary),
            MapAssetKind::MinimapSvg => r == Ok::<MimeType, Status>(MimeType::ImageSvgXml),
            MapAssetKind::Unspecified => r matches Err(e) && e@ == (
                Code::InvalidArgument,
                "map asset kind is required"@,
            ),
        },
{
    match kind {
        MapAssetKind::MainGlb => Ok(MimeType::GltfBinary),
        MapAssetKind::AnimationGlb => Ok(MimeType::GltfBinary),
        MapAssetKind::MinimapSvg => Ok(MimeType::ImageSvgXml),
        MapAssetKind::Unspecified => Err(Status::invalid_argument("map asset kind is required")),
    }
}

/// The internal id of the map whose main model the file is, where it is one.
pub open spec fn main_glb_id(file_name: Seq<char>) -> Option<Seq<char>> {
    if text::ends_with(file_name, ".glb"@) && !text::ends_with(file_name, ".animation.glb"@) {
        Some(file_name.take(file_name.len() - 4))
    } else {
        None
    }
}

pub fn internal_map_id_from_main_glb_name(file_name: &str) -> (r: Option<String>)
    ensures
        crate::engine::opt_text(r) == main_glb_id(file_name@),
{
    if !text::has_suffix(file_name, ".glb") || text::has_suffix(file_name, ".animation.glb") {
        return None;
    }
    proof {
        reveal_strlit(".glb");
    }
    Some(text::without_last(file_name, 4))
}

/// A map's main model is found by its name again, unless the id makes it look like
/// an animation.
pub proof fn main_glb_name_gives_its_id(id: Seq<char>)
    requires
        !text::ends_with(id + ".glb"@, ".animation.glb"@),
    ensures
        main_glb_id(id + ".glb"@) == Some(id),
{
    reveal_strlit(".glb");
    let name = id + ".glb"@;
    assert(name.subrange(name.len() - 4, name.len() as int) =~= ".glb"@);
    assert(name.take(name.len() - 4) =~= id);
}

/// A file is the main model of a map exactly where it has the extension of a model and not
/// that of an animation; the map's id stands in front of the extension.
pub proof fn main_model_is_named_by_its_map(file_name: Seq<char>)
    ensures
        main_glb_id(file_name) is Some <==> text::ends_with(file_name, ".glb"@)
            && !text::ends_with(file_name, ".animation.glb"@),
        main_glb_id(file_name) matches Some(id) ==> file_name == id + ".glb"@,
{
    reveal_strlit(".glb");
    if main_glb_id(file_name) is Some {
        assert(file_name.subrange(file_name.len() - 4, file_name.len() as int) == ".glb"@);
        assert(file_name =~= file_name.take(file_name.len() - 4) + ".glb"@);
    }
}

} // verus!
